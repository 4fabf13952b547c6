use vstd::prelude::*;

use crate::bytes::keys_equal;
use crate::constants::{
    MAX_TOTAL_NUMBER, RED_PACKET_SPILT_EQUAL, RED_PACKET_WITHDRAW_STATUS_CLAIMED,
    RED_PACKET_WITHDRAW_STATUS_NOT_WITHDRAW,
};
use crate::error::CustomError;
use crate::random::{generate_random_number, random_draw};
use crate::signature::{claim_signature_valid, verify_claim_signature};

verus! {

/// The sum of a sequence of amounts.
pub open spec fn sum_of(s: Seq<u64>) -> int
    decreases s.len(),
{
    if s.len() == 0 {
        0
    } else {
        sum_of(s.drop_last()) + s.last()
    }
}

/// Appending an amount adds it to the sum.
pub proof fn lemma_sum_push(s: Seq<u64>, x: u64)
    ensures
        sum_of(s.push(x)) == sum_of(s) + x,
{
    assert(s.push(x).drop_last() =~= s);
}

/// The persisted record of one red packet.
#[derive(Debug, Clone, PartialEq, Eq)]
pub struct RedPacket {
    /// Who opened the packet and may take back its remainder.
    pub creator: [u8; 32],
    /// Number of claim slots.
    pub total_number: u8,
    /// Number of claims made so far.
    pub claimed_number: u8,
    /// Amount escrowed at creation.
    pub total_amount: u64,
    /// Amount paid out to claimers so far.
    pub claimed_amount: u64,
    /// Unix time the packet was opened at.
    pub create_time: u64,
    /// Seconds from `create_time` to expiry.
    pub duration: u64,
    /// Native currency or fungible token.
    pub token_type: u8,
    /// The token's mint; all zero for the native currency.
    pub token_address: [u8; 32],
    /// Whether shares are drawn at random rather than split equally.
    pub if_spilt_random: bool,
    /// Who has claimed, in order.
    pub claimed_users: Vec<[u8; 32]>,
    /// What each of them received, in the same order.
    pub claimed_amount_records: Vec<u64>,
    /// The key whose signature must endorse every claim.
    pub pubkey_for_claim_signature: [u8; 32],
    pub name: String,
    pub message: String,
    /// Whether the remainder went back to the creator.
    pub withdraw_status: u8,
}

/// The mathematical content of a [`RedPacket`].
pub struct RedPacketView {
    pub creator: [u8; 32],
    pub total_number: u8,
    pub claimed_number: u8,
    pub total_amount: u64,
    pub claimed_amount: u64,
    pub create_time: u64,
    pub duration: u64,
    pub token_type: u8,
    pub token_address: [u8; 32],
    pub if_spilt_random: bool,
    pub claimed_users: Seq<[u8; 32]>,
    pub claimed_amount_records: Seq<u64>,
    pub pubkey_for_claim_signature: [u8; 32],
    pub name: Seq<char>,
    pub message: Seq<char>,
    pub withdraw_status: u8,
}

impl View for RedPacket {
    type V = RedPacketView;

    open spec fn view(&self) -> RedPacketView {
        RedPacketView {
            creator: self.creator,
            total_number: self.total_number,
            claimed_number: self.claimed_number,
            total_amount: self.total_amount,
            claimed_amount: self.claimed_amount,
            create_time: self.create_time,
            duration: self.duration,
            token_type: self.token_type,
            token_address: self.token_address,
            if_spilt_random: self.if_spilt_random,
            claimed_users: self.claimed_users@,
            claimed_amount_records: self.claimed_amount_records@,
            pubkey_for_claim_signature: self.pubkey_for_claim_signature,
            name: self.name@,
            message: self.message@,
            withdraw_status: self.withdraw_status,
        }
    }
}

impl RedPacketView {
    /// A new record: counters zeroed, no claims, not withdrawn.
    pub open spec fn fresh(
        creator: [u8; 32],
        total_number: u8,
        total_amount: u64,
        create_time: u64,
        duration: u64,
        token_type: u8,
        token_address: [u8; 32],
        if_spilt_random: bool,
        pubkey_for_claim_signature: [u8; 32],
        name: Seq<char>,
        message: Seq<char>,
    ) -> RedPacketView {
        RedPacketView {
            creator,
            total_number,
            claimed_number: 0,
            total_amount,
            claimed_amount: 0,
            create_time,
            duration,
            token_type,
            token_address,
            if_spilt_random,
            claimed_users: Seq::empty(),
            claimed_amount_records: Seq::empty(),
            pubkey_for_claim_signature,
            name,
            message,
            withdraw_status: RED_PACKET_WITHDRAW_STATUS_NOT_WITHDRAW,
        }
    }

    /// The ledger's invariant: counters agree with the claim records, nothing
    /// is paid twice to anyone, and nothing beyond the escrowed total.
    pub open spec fn wf(self) -> bool {
        &&& 1 <= self.total_number <= MAX_TOTAL_NUMBER
        &&& self.total_amount > 0
        &&& self.claimed_number <= self.total_number
        &&& self.claimed_amount <= self.total_amount
        &&& self.claimed_users.len() == self.claimed_number
        &&& self.claimed_amount_records.len() == self.claimed_number
        &&& self.claimed_amount == sum_of(self.claimed_amount_records)
        &&& self.claimed_users.no_duplicates()
        &&& (self.withdraw_status == RED_PACKET_WITHDRAW_STATUS_NOT_WITHDRAW
            || self.withdraw_status == RED_PACKET_WITHDRAW_STATUS_CLAIMED)
    }

    /// The time from which the packet no longer takes claims.
    pub open spec fn expiry(self) -> int {
        self.create_time + self.duration
    }

    /// What is left in escrow.
    pub open spec fn remaining(self) -> int {
        self.total_amount - self.claimed_amount
    }

    /// How many claims may still be made.
    pub open spec fn slots_left(self) -> int {
        self.total_number - self.claimed_number
    }

    /// A random share is the draw modulo this bound.
    pub open spec fn draw_bound(self) -> int {
        (2 * self.remaining()) / self.slots_left()
    }

    /// Whether the next share can be computed: the bound of a random share
    /// must not be zero.
    pub open spec fn allocation_defined(self) -> bool {
        self.slots_left() == 1 || !self.if_spilt_random || self.draw_bound() > 0
    }

    /// The share of the next claim, given the pseudo-random draw `random`:
    /// the whole remainder on the last slot, else the equal share of the
    /// total, else the draw modulo the bound, raised to one when zero.
    pub open spec fn amount_for(self, random: int) -> int {
        if self.slots_left() == 1 {
            self.remaining()
        } else if !self.if_spilt_random {
            (self.total_amount as int) / (self.total_number as int)
        } else {
            let v = random % self.draw_bound();
            if v == 0 {
                1
            } else {
                v
            }
        }
    }

    /// The record after `claimer` was paid `amount`.
    pub open spec fn after_claim(self, claimer: [u8; 32], amount: int) -> RedPacketView {
        RedPacketView {
            claimed_users: self.claimed_users.push(claimer),
            claimed_amount_records: self.claimed_amount_records.push(amount as u64),
            claimed_number: (self.claimed_number + 1) as u8,
            claimed_amount: (self.claimed_amount + amount) as u64,
            ..self
        }
    }

    /// What a claim by `claimer` at time `now` yields: the first failed check
    /// in order (expiry, free slots, earlier claim, signature, share), else the
    /// share paid out.
    pub open spec fn claim_outcome(
        self,
        red_packet_key: [u8; 32],
        claimer: [u8; 32],
        signature_instruction: Seq<u8>,
        now: int,
    ) -> Result<u64, CustomError> {
        let amount = self.amount_for(random_draw(red_packet_key@, claimer@, now));
        if now >= self.expiry() {
            Err(CustomError::RedPacketExpired)
        } else if self.claimed_number >= self.total_number {
            Err(CustomError::RedPacketAllClaimed)
        } else if self.claimed_users.contains(claimer) {
            Err(CustomError::RedPacketClaimed)
        } else if !claim_signature_valid(
            signature_instruction,
            red_packet_key@,
            claimer@,
            self.pubkey_for_claim_signature@,
        ) {
            Err(CustomError::InvalidSignature)
        } else if !self.allocation_defined() || self.claimed_amount + amount > self.total_amount {
            Err(CustomError::InvalidClaimAmount)
        } else {
            Ok(amount as u64)
        }
    }

    /// What a withdrawal by `requester` at time `now` yields: the first failed
    /// check in order (already withdrawn, not expired, not the creator), else
    /// the remainder returned.
    pub open spec fn withdraw_outcome(self, requester: [u8; 32], now: int) -> Result<
        u64,
        CustomError,
    > {
        if self.withdraw_status == RED_PACKET_WITHDRAW_STATUS_CLAIMED {
            Err(CustomError::RedPacketWithdrawn)
        } else if now < self.expiry() {
            Err(CustomError::RedPacketNotExpired)
        } else if requester != self.creator {
            Err(CustomError::Unauthorized)
        } else {
            Ok(self.remaining() as u64)
        }
    }

    /// The record once its remainder went back to the creator.
    pub open spec fn after_withdraw(self) -> RedPacketView {
        RedPacketView { withdraw_status: RED_PACKET_WITHDRAW_STATUS_CLAIMED, ..self }
    }
}

/// A new record: counters zeroed, no claims, not withdrawn.
pub fn initialize_red_packet(
    creator: [u8; 32],
    total_number: u8,
    total_amount: u64,
    create_time: u64,
    duration: u64,
    token_type: u8,
    token_address: [u8; 32],
    if_spilt_random: bool,
    pubkey_for_claim_signature: [u8; 32],
    name: String,
    message: String,
) -> (r: RedPacket)
    requires
        1 <= total_number <= MAX_TOTAL_NUMBER,
        total_amount > 0,
    ensures
        r@.wf(),
        r@ == RedPacketView::fresh(
            creator,
            total_number,
            total_amount,
            create_time,
            duration,
            token_type,
            token_address,
            if_spilt_random,
            pubkey_for_claim_signature,
            name@,
            message@,
        ),
{
    RedPacket {
        creator,
        total_number,
        claimed_number: 0,
        total_amount,
        claimed_amount: 0,
        create_time,
        duration,
        token_type,
        token_address,
        if_spilt_random,
        claimed_users: Vec::new(),
        claimed_amount_records: Vec::new(),
        pubkey_for_claim_signature,
        name,
        message,
        withdraw_status: RED_PACKET_WITHDRAW_STATUS_NOT_WITHDRAW,
    }
}

impl RedPacket {
    /// Whether the record satisfies the ledger's invariant (see `wf`), as a
    /// host should check of a record it loaded before handing it in.
    pub fn is_well_formed(&self) -> (r: bool)
        ensures
            r == self@.wf(),
    {
        if !(self.total_number >= 1 && self.total_number <= MAX_TOTAL_NUMBER) || self.total_amount
            == 0 || self.claimed_number > self.total_number || self.claimed_amount
            > self.total_amount || self.claimed_users.len() != self.claimed_number as usize
            || self.claimed_amount_records.len() != self.claimed_number as usize || !(
        self.withdraw_status == RED_PACKET_WITHDRAW_STATUS_NOT_WITHDRAW || self.withdraw_status
            == RED_PACKET_WITHDRAW_STATUS_CLAIMED) {
            return false;
        }
        let records = &self.claimed_amount_records;
        let n = records.len();
        let mut total: u128 = 0;
        for i in 0..n
            invariant
                n == records@.len(),
                n <= MAX_TOTAL_NUMBER,
                total == sum_of(records@.subrange(0, i as int)),
                total <= i * 0x1_0000_0000_0000_0000,
        {
            assert(records@.subrange(0, i + 1).drop_last() =~= records@.subrange(0, i as int));
            total = total + records[i] as u128;
        }
        assert(records@.subrange(0, n as int) =~= records@);
        if total != self.claimed_amount as u128 {
            return false;
        }
        let users = &self.claimed_users;
        for i in 0..n
            invariant
                n == users@.len(),
                users@ == self@.claimed_users,
                forall|a: int, b: int| 0 <= a < b < i ==> users@[a] != users@[b],
        {
            for j in 0..i
                invariant
                    i < n == users@.len(),
                    users@ == self@.claimed_users,
                    forall|a: int, b: int| 0 <= a < b < i ==> users@[a] != users@[b],
                    forall|a: int| 0 <= a < j ==> users@[a] != users@[i as int],
            {
                if keys_equal(&users[j], &users[i]) {
                    assert(users@[j as int] == users@[i as int]);
                    return false;
                }
            }
        }
        assert forall|a: int, b: int| 0 <= a < n && 0 <= b < n && a != b implies users@[a]
            != users@[b] by {
            if a > b {
                assert(users@[b] != users@[a]);
            }
        }
        true
    }

    /// The time from which the packet no longer takes claims.
    pub fn expiry(&self) -> (r: i128)
        ensures
            r == self@.expiry(),
    {
        self.create_time as i128 + self.duration as i128
    }

    /// Whether `claimer` has already claimed from this packet.
    pub fn has_claimed(&self, claimer: &[u8; 32]) -> (r: bool)
        ensures
            r == self@.claimed_users.contains(*claimer),
    {
        let n = self.claimed_users.len();
        for i in 0..n
            invariant
                n == self.claimed_users@.len(),
                forall|k: int| 0 <= k < i ==> self.claimed_users@[k] != *claimer,
        {
            if keys_equal(&self.claimed_users[i], claimer) {
                assert(self.claimed_users@[i as int] == *claimer);
                return true;
            }
        }
        false
    }

    /// Whether the next share can be computed (see `allocation_defined`).
    pub fn allocation_defined(&self) -> (r: bool)
        requires
            self@.wf(),
            self.claimed_number < self.total_number,
        ensures
            r == self@.allocation_defined(),
    {
        let remaining_amount = self.total_amount - self.claimed_amount;
        let slots_left = self.total_number - self.claimed_number;
        slots_left == 1 || self.if_spilt_random == RED_PACKET_SPILT_EQUAL || (
        remaining_amount as u128 * 2) / slots_left as u128 > 0
    }

    /// The share of the next claim when the pseudo-random draw is
    /// `random_value`.
    pub fn claim_amount_from_draw(&self, random_value: u64) -> (r: u64)
        requires
            self@.wf(),
            self.claimed_number < self.total_number,
            self@.allocation_defined(),
        ensures
            r == self@.amount_for(random_value as int),
    {
        let remaining_amount = self.total_amount - self.claimed_amount;
        let slots_left = self.total_number - self.claimed_number;
        if slots_left == 1 {
            return remaining_amount;
        }
        if self.if_spilt_random == RED_PACKET_SPILT_EQUAL {
            self.total_amount / self.total_number as u64
        } else {
            let bound: u128 = (remaining_amount as u128 * 2) / slots_left as u128;
            proof {
                let rem = remaining_amount as int;
                let s = slots_left as int;
                assert((2 * rem) / s <= rem) by (nonlinear_arith)
                    requires
                        s >= 2,
                        rem >= 0,
                ;
            }
            let claim_value = (random_value as u128 % bound) as u64;
            if claim_value == 0 {
                1
            } else {
                claim_value
            }
        }
    }

    /// The share of the next claim, by `signer_key` on the packet
    /// `red_packet_key` at time `now`; a random share draws its number then.
    pub fn calculate_claim_amount(&self, red_packet_key: &[u8; 32], signer_key: &[u8; 32], now: i64) -> (r: u64)
        requires
            self@.wf(),
            self.claimed_number < self.total_number,
            self@.allocation_defined(),
        ensures
            r == self@.amount_for(random_draw(red_packet_key@, signer_key@, now as int)),
    {
        if self.total_number - self.claimed_number != 1 && self.if_spilt_random != RED_PACKET_SPILT_EQUAL {
            let random_value = generate_random_number(red_packet_key, signer_key, now);
            self.claim_amount_from_draw(random_value)
        } else {
            self.claim_amount_from_draw(0)
        }
    }

    /// Claims a share for `claimer` at time `now`, endorsed by the ed25519
    /// instruction data `signature_instruction`. On success the share is
    /// recorded and returned for the host to pay out; on failure nothing
    /// changes.
    pub fn claim(
        &mut self,
        red_packet_key: &[u8; 32],
        claimer: &[u8; 32],
        signature_instruction: &[u8],
        now: i64,
    ) -> (r: Result<u64, CustomError>)
        requires
            old(self)@.wf(),
        ensures
            final(self)@.wf(),
            r == old(self)@.claim_outcome(
                *red_packet_key,
                *claimer,
                signature_instruction@,
                now as int,
            ),
            r is Ok ==> final(self)@ == old(self)@.after_claim(*claimer, r->Ok_0 as int),
            r is Err ==> final(self)@ == old(self)@,
    {
        if now as i128 >= self.expiry() {
            return Err(CustomError::RedPacketExpired);
        }
        if self.claimed_number >= self.total_number {
            return Err(CustomError::RedPacketAllClaimed);
        }
        if self.has_claimed(claimer) {
            return Err(CustomError::RedPacketClaimed);
        }
        if verify_claim_signature(
            signature_instruction,
            red_packet_key,
            claimer,
            &self.pubkey_for_claim_signature,
        ).is_err() {
            return Err(CustomError::InvalidSignature);
        }
        if !self.allocation_defined() {
            return Err(CustomError::InvalidClaimAmount);
        }
        let claim_amount = self.calculate_claim_amount(red_packet_key, claimer, now);
        if self.claimed_amount as u128 + claim_amount as u128 > self.total_amount as u128 {
            return Err(CustomError::InvalidClaimAmount);
        }
        let ghost before = self@;
        self.claimed_users.push(*claimer);
        self.claimed_amount_records.push(claim_amount);
        self.claimed_number = self.claimed_number + 1;
        self.claimed_amount = self.claimed_amount + claim_amount;
        proof {
            lemma_sum_push(before.claimed_amount_records, claim_amount);
            assert(self@ == before.after_claim(*claimer, claim_amount as int));
        }
        Ok(claim_amount)
    }

    /// Takes back the remainder for `requester` at time `now`: only the
    /// creator, only once, only from expiry on. On success the packet is marked
    /// withdrawn and the remainder returned for the host to pay out; on failure
    /// nothing changes.
    pub fn withdraw(&mut self, requester: &[u8; 32], now: i64) -> (r: Result<u64, CustomError>)
        requires
            old(self)@.wf(),
        ensures
            final(self)@.wf(),
            r == old(self)@.withdraw_outcome(*requester, now as int),
            r is Ok ==> final(self)@ == old(self)@.after_withdraw(),
            r is Err ==> final(self)@ == old(self)@,
    {
        if self.withdraw_status == RED_PACKET_WITHDRAW_STATUS_CLAIMED {
            return Err(CustomError::RedPacketWithdrawn);
        }
        if (now as i128) < self.expiry() {
            return Err(CustomError::RedPacketNotExpired);
        }
        if !keys_equal(requester, &self.creator) {
            return Err(CustomError::Unauthorized);
        }
        let remaining_amount = self.total_amount - self.claimed_amount;
        self.withdraw_status = RED_PACKET_WITHDRAW_STATUS_CLAIMED;
        Ok(remaining_amount)
    }
}

} // verus!
