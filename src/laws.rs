//! Properties that relate several operations on a packet, proved over the
//! specifications that the operations' own contracts use.
use vstd::prelude::*;

use crate::constants::{
    CREATE_TIME_TOLERANCE, MAX_TOTAL_NUMBER, RED_PACKET_WITHDRAW_STATUS_NOT_WITHDRAW,
};
use crate::bytes::le_u16;
use crate::error::CustomError;
use crate::instructions::create_check;
use crate::packet::{lemma_sum_push, sum_of, RedPacketView};
use crate::signature::{OFFSETS_END, PUBLIC_KEY_LEN};

verus! {

/// The record after successive claims, the i-th by `claimers[i]` with the
/// pseudo-random draw `draws[i]`.
pub open spec fn claims_run(p: RedPacketView, claimers: Seq<[u8; 32]>, draws: Seq<int>) -> RedPacketView
    decreases draws.len(),
{
    if draws.len() == 0 {
        p
    } else {
        claims_run(
            p.after_claim(claimers[0], p.amount_for(draws[0])),
            claimers.drop_first(),
            draws.drop_first(),
        )
    }
}

/// Whether each of those successive claims finds a free slot and a share of
/// at least one that the remainder can pay.
pub open spec fn shares_payable(p: RedPacketView, claimers: Seq<[u8; 32]>, draws: Seq<int>) -> bool
    decreases draws.len(),
{
    if draws.len() == 0 {
        true
    } else {
        let a = p.amount_for(draws[0]);
        &&& p.claimed_number < p.total_number
        &&& p.allocation_defined()
        &&& 1 <= a
        &&& p.claimed_amount + a <= p.total_amount
        &&& shares_payable(p.after_claim(claimers[0], a), claimers.drop_first(), draws.drop_first())
    }
}

/// One random share on a packet with at least one unit per free slot, when
/// more than one slot is free: at least one, and it leaves at least one unit
/// for each slot after it.
proof fn lemma_random_share(q: RedPacketView, draw: int)
    requires
        q.if_spilt_random,
        q.slots_left() >= 2,
        q.remaining() >= q.slots_left(),
    ensures
        q.allocation_defined(),
        1 <= q.amount_for(draw) < q.remaining(),
        q.remaining() - q.amount_for(draw) >= q.slots_left() - 1,
{
    let r = q.remaining();
    let s = q.slots_left();
    let b = q.draw_bound();
    assert(b * s <= 2 * r && 2 * r < b * s + s) by (nonlinear_arith)
        requires
            b == (2 * r) / s,
            s >= 2,
    ;
    assert(b >= 2) by (nonlinear_arith)
        requires
            2 * r < b * s + s,
            r >= s,
            s >= 2,
    ;
    assert(r - b >= s - 2) by (nonlinear_arith)
        requires
            b * s <= 2 * r,
            r >= s,
            s >= 2,
    ;
    let v = draw % b;
    assert(0 <= v < b);
}

/// Successive random claims that fill every free slot of a packet holding
/// at least one unit per free slot: each pays at least one, and together
/// they pay out exactly the remainder.
proof fn lemma_random_run(q: RedPacketView, claimers: Seq<[u8; 32]>, draws: Seq<int>)
    requires
        q.if_spilt_random,
        1 <= draws.len(),
        claimers.len() == draws.len(),
        q.claimed_number + draws.len() == q.total_number,
        q.total_number <= MAX_TOTAL_NUMBER,
        q.claimed_amount <= q.total_amount,
        q.remaining() >= q.slots_left(),
        q.claimed_amount_records.len() == q.claimed_number,
        q.claimed_amount == sum_of(q.claimed_amount_records),
    ensures
        shares_payable(q, claimers, draws),
        claims_run(q, claimers, draws).total_amount == q.total_amount,
        claims_run(q, claimers, draws).claimed_number == q.total_number,
        claims_run(q, claimers, draws).claimed_amount == q.total_amount,
        claims_run(q, claimers, draws).claimed_amount == sum_of(
            claims_run(q, claimers, draws).claimed_amount_records,
        ),
        claims_run(q, claimers, draws).claimed_amount_records.len() == q.total_number,
        forall|j: int|
            0 <= j < q.claimed_amount_records.len() ==> claims_run(
                q,
                claimers,
                draws,
            ).claimed_amount_records[j] == q.claimed_amount_records[j],
        forall|j: int|
            q.claimed_amount_records.len() <= j < q.total_number ==> claims_run(
                q,
                claimers,
                draws,
            ).claimed_amount_records[j] >= 1,
    decreases draws.len(),
{
    let a = q.amount_for(draws[0]);
    if q.slots_left() >= 2 {
        lemma_random_share(q, draws[0]);
    }
    let q2 = q.after_claim(claimers[0], a);
    lemma_sum_push(q.claimed_amount_records, a as u64);
    assert(q2.claimed_amount_records[q.claimed_amount_records.len() as int] == a);
    if draws.len() > 1 {
        lemma_random_run(q2, claimers.drop_first(), draws.drop_first());
    } else {
        assert(shares_payable(q2, claimers.drop_first(), draws.drop_first()));
        assert(claims_run(q2, claimers.drop_first(), draws.drop_first()) == q2);
    }
    let f = claims_run(q, claimers, draws);
    assert forall|j: int| 0 <= j < q.claimed_amount_records.len() implies
        f.claimed_amount_records[j] == q.claimed_amount_records[j] by {
        assert(q2.claimed_amount_records[j] == q.claimed_amount_records[j]);
    }
}

/// On a random-split packet with no claims yet and at least one unit per
/// slot, claims that fill every slot, whatever their draws, each find a
/// share of at least one that the escrow can pay; the last one receives
/// exactly what the others left, and together they pay out the whole total.
pub proof fn lemma_random_split_exhaustion(p: RedPacketView, claimers: Seq<[u8; 32]>, draws: Seq<int>)
    requires
        p.wf(),
        p.if_spilt_random,
        p.claimed_number == 0,
        p.total_amount >= p.total_number,
        claimers.len() == p.total_number,
        draws.len() == p.total_number,
    ensures
        shares_payable(p, claimers, draws),
        claims_run(p, claimers, draws).claimed_number == p.total_number,
        claims_run(p, claimers, draws).claimed_amount == p.total_amount,
        claims_run(p, claimers, draws).claimed_amount_records.len() == p.total_number,
        sum_of(claims_run(p, claimers, draws).claimed_amount_records) == p.total_amount,
        forall|i: int|
            0 <= i < p.total_number ==> claims_run(p, claimers, draws).claimed_amount_records[i]
                >= 1,
        claims_run(p, claimers, draws).claimed_amount_records.last() == p.total_amount - sum_of(
            claims_run(p, claimers, draws).claimed_amount_records.drop_last(),
        ),
{
    lemma_random_run(p, claimers, draws);
}

/// The parameters of a new packet are refused with `InvalidCreateTime` when
/// `create_time` lies more than the tolerance from the clock, and, when it
/// lies within it, with `InvalidExpiryTime` when the packet would already be
/// expired.
pub proof fn lemma_create_time_boundary(
    total_number: u8,
    total_amount: u64,
    create_time: u64,
    duration: u64,
    now: int,
    balance: u64,
)
    requires
        1 <= total_number <= MAX_TOTAL_NUMBER,
        total_amount > 0,
    ensures
        (create_time > now + CREATE_TIME_TOLERANCE || create_time < now - CREATE_TIME_TOLERANCE)
            ==> create_check(total_number, total_amount, create_time, duration, now, balance)
            == Err::<(), CustomError>(CustomError::InvalidCreateTime),
        (now - CREATE_TIME_TOLERANCE < create_time < now + CREATE_TIME_TOLERANCE && create_time
            + duration <= now) ==> create_check(
            total_number,
            total_amount,
            create_time,
            duration,
            now,
            balance,
        ) == Err::<(), CustomError>(CustomError::InvalidExpiryTime),
{
}

/// From expiry on every claim fails with `RedPacketExpired`; before it, a
/// packet not yet withdrawn refuses every withdrawal with
/// `RedPacketNotExpired`.
pub proof fn lemma_expiry_boundary(
    p: RedPacketView,
    red_packet_key: [u8; 32],
    claimer: [u8; 32],
    signature_instruction: Seq<u8>,
    requester: [u8; 32],
    now: int,
)
    requires
        p.wf(),
    ensures
        now >= p.expiry() ==> p.claim_outcome(red_packet_key, claimer, signature_instruction, now)
            == Err::<u64, CustomError>(CustomError::RedPacketExpired),
        now < p.expiry() && p.withdraw_status == RED_PACKET_WITHDRAW_STATUS_NOT_WITHDRAW
            ==> p.withdraw_outcome(requester, now) == Err::<u64, CustomError>(
            CustomError::RedPacketNotExpired,
        ),
{
}

/// After a withdrawal succeeded, every further withdrawal, by anyone at any
/// time, fails with `RedPacketWithdrawn` and so moves nothing.
pub proof fn lemma_withdraw_once(
    p: RedPacketView,
    requester: [u8; 32],
    now: int,
    next_requester: [u8; 32],
    next_now: int,
)
    requires
        p.wf(),
        p.withdraw_outcome(requester, now) is Ok,
    ensures
        p.after_withdraw().withdraw_outcome(next_requester, next_now) == Err::<u64, CustomError>(
            CustomError::RedPacketWithdrawn,
        ),
{
}

/// A claim that passes the checks before the signature, and whose ed25519
/// instruction is well formed but names another key or signs another
/// message, fails with `InvalidSignature`.
pub proof fn lemma_wrong_signature_rejected(
    p: RedPacketView,
    red_packet_key: [u8; 32],
    claimer: [u8; 32],
    signature_instruction: Seq<u8>,
    now: int,
)
    requires
        p.wf(),
        now < p.expiry(),
        p.claimed_number < p.total_number,
        !p.claimed_users.contains(claimer),
        signature_instruction.len() >= OFFSETS_END,
        signature_instruction[0] == 1,
        ({
            let d = signature_instruction;
            let key_start = le_u16(d, 6);
            let msg_start = le_u16(d, 10);
            let msg_end = msg_start + le_u16(d, 12);
            &&& key_start + PUBLIC_KEY_LEN <= d.len()
            &&& msg_end <= d.len()
            &&& (d.subrange(key_start, key_start + PUBLIC_KEY_LEN) != p.pubkey_for_claim_signature@
                || d.subrange(msg_start, msg_end) != red_packet_key@ + claimer@)
        }),
    ensures
        p.claim_outcome(red_packet_key, claimer, signature_instruction, now) == Err::<
            u64,
            CustomError,
        >(CustomError::InvalidSignature),
{
}

/// After `claimer` claimed successfully, a second claim by the same claimer,
/// made before expiry while slots remain, fails with `RedPacketClaimed`.
pub proof fn lemma_no_double_claim(
    p: RedPacketView,
    red_packet_key: [u8; 32],
    claimer: [u8; 32],
    signature_instruction: Seq<u8>,
    now: int,
    next_signature_instruction: Seq<u8>,
    next_now: int,
)
    requires
        p.wf(),
        p.claim_outcome(red_packet_key, claimer, signature_instruction, now) is Ok,
        next_now < p.expiry(),
        p.claimed_number + 1 < p.total_number,
    ensures
        ({
            let paid = p.claim_outcome(red_packet_key, claimer, signature_instruction, now)->Ok_0;
            p.after_claim(claimer, paid as int).claim_outcome(
                red_packet_key,
                claimer,
                next_signature_instruction,
                next_now,
            ) == Err::<u64, CustomError>(CustomError::RedPacketClaimed)
        }),
{
    let paid = p.claim_outcome(red_packet_key, claimer, signature_instruction, now)->Ok_0;
    let q = p.after_claim(claimer, paid as int);
    assert(q.claimed_users[q.claimed_users.len() - 1] == claimer);
}

} // verus!
