//! The ledger side of each instruction of the red packet program. The host
//! reads the clock, balances and the signature instruction, calls these, and
//! moves the funds that they return.
use vstd::prelude::*;

use crate::constants::{
    CREATE_TIME_TOLERANCE, MAX_TOTAL_NUMBER, RED_PACKET_USE_CUSTOM_TOKEN,
    RED_PACKET_USE_NATIVE_TOKEN,
};
use crate::error::CustomError;
use crate::packet::{initialize_red_packet, RedPacket, RedPacketView};

verus! {

/// The verdict on the parameters of a new packet, given the clock `now` and
/// the creator's balance `balance` of the escrowed asset: the first failed
/// check in order, or `Ok`.
pub open spec fn create_check(
    total_number: u8,
    total_amount: u64,
    create_time: u64,
    duration: u64,
    now: int,
    balance: u64,
) -> Result<(), CustomError> {
    if !(1 <= total_number <= MAX_TOTAL_NUMBER) {
        Err(CustomError::InvalidTotalNumber)
    } else if total_amount == 0 {
        Err(CustomError::InvalidTotalAmount)
    } else if !(now - CREATE_TIME_TOLERANCE < create_time < now + CREATE_TIME_TOLERANCE) {
        Err(CustomError::InvalidCreateTime)
    } else if create_time + duration <= now {
        Err(CustomError::InvalidExpiryTime)
    } else if balance < total_amount {
        Err(CustomError::InsufficientTokenBalance)
    } else {
        Ok(())
    }
}

/// Checks the parameters of a new packet (see `create_check`).
pub fn check_create_params(
    total_number: u8,
    total_amount: u64,
    create_time: u64,
    duration: u64,
    now: i64,
    balance: u64,
) -> (r: Result<(), CustomError>)
    ensures
        r == create_check(total_number, total_amount, create_time, duration, now as int, balance),
{
    if !(total_number > 0 && total_number <= MAX_TOTAL_NUMBER) {
        return Err(CustomError::InvalidTotalNumber);
    }
    if total_amount == 0 {
        return Err(CustomError::InvalidTotalAmount);
    }
    let now_wide = now as i128;
    let create_wide = create_time as i128;
    let tolerance = CREATE_TIME_TOLERANCE as i128;
    if !(now_wide - tolerance < create_wide && create_wide < now_wide + tolerance) {
        return Err(CustomError::InvalidCreateTime);
    }
    if create_wide + duration as i128 <= now_wide {
        return Err(CustomError::InvalidExpiryTime);
    }
    if balance < total_amount {
        return Err(CustomError::InsufficientTokenBalance);
    }
    Ok(())
}

/// Opens a packet of the fungible token `token_mint` for `signer`, whose
/// token account holds `token_balance`, at time `now`. On success the host
/// escrows `total_amount` and stores the returned record.
pub fn create_red_packet_with_spl_token(
    signer: [u8; 32],
    token_mint: [u8; 32],
    token_balance: u64,
    now: i64,
    total_number: u8,
    total_amount: u64,
    create_time: u64,
    duration: u64,
    if_spilt_random: bool,
    pubkey_for_claim_signature: [u8; 32],
    name: String,
    message: String,
) -> (r: Result<RedPacket, CustomError>)
    ensures
        match r {
            Ok(p) => {
                &&& create_check(
                    total_number,
                    total_amount,
                    create_time,
                    duration,
                    now as int,
                    token_balance,
                ) is Ok
                &&& p@.wf()
                &&& p@ == RedPacketView::fresh(
                    signer,
                    total_number,
                    total_amount,
                    create_time,
                    duration,
                    RED_PACKET_USE_CUSTOM_TOKEN,
                    token_mint,
                    if_spilt_random,
                    pubkey_for_claim_signature,
                    name@,
                    message@,
                )
            },
            Err(e) => create_check(
                total_number,
                total_amount,
                create_time,
                duration,
                now as int,
                token_balance,
            ) == Err::<(), CustomError>(e),
        },
{
    match check_create_params(total_number, total_amount, create_time, duration, now, token_balance) {
        Err(e) => Err(e),
        Ok(()) => Ok(
            initialize_red_packet(
                signer,
                total_number,
                total_amount,
                create_time,
                duration,
                RED_PACKET_USE_CUSTOM_TOKEN,
                token_mint,
                if_spilt_random,
                pubkey_for_claim_signature,
                name,
                message,
            ),
        ),
    }
}

/// Opens a packet of the native currency for `signer`, who holds `lamports`,
/// at time `now`. On success the host escrows `total_amount` and stores the
/// returned record.
pub fn create_red_packet_with_native_token(
    signer: [u8; 32],
    lamports: u64,
    now: i64,
    total_number: u8,
    total_amount: u64,
    create_time: u64,
    duration: u64,
    if_spilt_random: bool,
    pubkey_for_claim_signature: [u8; 32],
    name: String,
    message: String,
) -> (r: Result<RedPacket, CustomError>)
    ensures
        match r {
            Ok(p) => {
                &&& create_check(
                    total_number,
                    total_amount,
                    create_time,
                    duration,
                    now as int,
                    lamports,
                ) is Ok
                &&& p@.wf()
                &&& p@ == RedPacketView::fresh(
                    signer,
                    total_number,
                    total_amount,
                    create_time,
                    duration,
                    RED_PACKET_USE_NATIVE_TOKEN,
                    p.token_address,
                    if_spilt_random,
                    pubkey_for_claim_signature,
                    name@,
                    message@,
                )
                &&& p.token_address@ == Seq::new(32, |i: int| 0u8)
            },
            Err(e) => create_check(
                total_number,
                total_amount,
                create_time,
                duration,
                now as int,
                lamports,
            ) == Err::<(), CustomError>(e),
        },
{
    match check_create_params(total_number, total_amount, create_time, duration, now, lamports) {
        Err(e) => Err(e),
        Ok(()) => Ok(
            initialize_red_packet(
                signer,
                total_number,
                total_amount,
                create_time,
                duration,
                RED_PACKET_USE_NATIVE_TOKEN,
                [0u8; 32],
                if_spilt_random,
                pubkey_for_claim_signature,
                name,
                message,
            ),
        ),
    }
}

/// Claims a token share for `signer` (see `RedPacket::claim`); the host then
/// pays the returned amount from the packet's vault to the signer's token account.
pub fn claim_with_spl_token(
    red_packet: &mut RedPacket,
    red_packet_key: &[u8; 32],
    signer: &[u8; 32],
    signature_instruction: &[u8],
    now: i64,
) -> (r: Result<u64, CustomError>)
    requires
        old(red_packet)@.wf(),
    ensures
        final(red_packet)@.wf(),
        r == old(red_packet)@.claim_outcome(
            *red_packet_key,
            *signer,
            signature_instruction@,
            now as int,
        ),
        r is Ok ==> final(red_packet)@ == old(red_packet)@.after_claim(*signer, r->Ok_0 as int),
        r is Err ==> final(red_packet)@ == old(red_packet)@,
{
    red_packet.claim(red_packet_key, signer, signature_instruction, now)
}

/// Claims a native share for `signer` (see `RedPacket::claim`); the host then
/// moves the returned amount from the packet's account to the signer.
pub fn claim_with_native_token(
    red_packet: &mut RedPacket,
    red_packet_key: &[u8; 32],
    signer: &[u8; 32],
    signature_instruction: &[u8],
    now: i64,
) -> (r: Result<u64, CustomError>)
    requires
        old(red_packet)@.wf(),
    ensures
        final(red_packet)@.wf(),
        r == old(red_packet)@.claim_outcome(
            *red_packet_key,
            *signer,
            signature_instruction@,
            now as int,
        ),
        r is Ok ==> final(red_packet)@ == old(red_packet)@.after_claim(*signer, r->Ok_0 as int),
        r is Err ==> final(red_packet)@ == old(red_packet)@,
{
    red_packet.claim(red_packet_key, signer, signature_instruction, now)
}

/// Takes back a token packet's remainder for `signer` (see
/// `RedPacket::withdraw`); the host then pays it from the vault and closes the vault.
pub fn withdraw_with_spl_token(red_packet: &mut RedPacket, signer: &[u8; 32], now: i64) -> (r: Result<
    u64,
    CustomError,
>)
    requires
        old(red_packet)@.wf(),
    ensures
        final(red_packet)@.wf(),
        r == old(red_packet)@.withdraw_outcome(*signer, now as int),
        r is Ok ==> final(red_packet)@ == old(red_packet)@.after_withdraw(),
        r is Err ==> final(red_packet)@ == old(red_packet)@,
{
    red_packet.withdraw(signer, now)
}

/// Takes back a native packet's remainder for `signer` (see
/// `RedPacket::withdraw`); the host then moves the packet's balance to the signer.
pub fn withdraw_with_native_token(red_packet: &mut RedPacket, signer: &[u8; 32], now: i64) -> (r: Result<
    u64,
    CustomError,
>)
    requires
        old(red_packet)@.wf(),
    ensures
        final(red_packet)@.wf(),
        r == old(red_packet)@.withdraw_outcome(*signer, now as int),
        r is Ok ==> final(red_packet)@ == old(red_packet)@.after_withdraw(),
        r is Err ==> final(red_packet)@ == old(red_packet)@,
{
    red_packet.withdraw(signer, now)
}

} // verus!
