use vstd::prelude::*;

use crate::bytes::{le_u64, read_le_u64};

verus! {

/// The base58 text of the 32-byte key `key`, as bytes.
pub uninterp spec fn base58_of(key: Seq<u8>) -> Seq<u8>;

/// The 32-byte SHA-256 digest of `data`.
pub uninterp spec fn hash_of(data: Seq<u8>) -> Seq<u8>;

/// Relies on `Display` of `solana_program::pubkey::Pubkey`, which writes the
/// base58 encoding of the key's bytes: the text depends on the bytes alone.
#[verifier::external_body]
fn base58_text(key: &[u8; 32]) -> (r: Vec<u8>)
    ensures
        r@ == base58_of(key@),
{
    solana_program::pubkey::Pubkey::new_from_array(*key).to_string().into_bytes()
}

/// Relies on `solana_program::hash::hash`: the SHA-256 digest of its input,
/// 32 bytes long.
#[verifier::external_body]
fn hash_bytes(data: &[u8]) -> (r: [u8; 32])
    ensures
        r@ == hash_of(data@),
{
    solana_program::hash::hash(data).to_bytes()
}

/// The decimal digits of `n`, most significant first.
pub open spec fn decimal_digits(n: nat) -> Seq<u8>
    decreases n,
{
    if n < 10 {
        seq![(48 + n) as u8]
    } else {
        decimal_digits(n / 10) + seq![(48 + n % 10) as u8]
    }
}

/// The decimal text of the integer `n`, with a leading `-` when negative.
pub open spec fn decimal_text(n: int) -> Seq<u8> {
    if n < 0 {
        seq![45u8] + decimal_digits((-n) as nat)
    } else {
        decimal_digits(n as nat)
    }
}

/// The seed a claim's draw is hashed from: the packet's key and the
/// claimer's key in base58, followed by the time in decimal.
pub open spec fn claim_seed(packet_key: Seq<u8>, claimer_key: Seq<u8>, now: int) -> Seq<u8> {
    base58_of(packet_key) + base58_of(claimer_key) + decimal_text(now)
}

/// The pseudo-random number drawn for a claim: the low eight bytes, read
/// little-endian, of the hash of the claim's seed.
pub open spec fn random_draw(packet_key: Seq<u8>, claimer_key: Seq<u8>, now: int) -> int {
    le_u64(hash_of(claim_seed(packet_key, claimer_key, now)))
}

/// Appends the decimal digits of `n` to `out`.
fn push_decimal_digits(n: u64, out: &mut Vec<u8>)
    ensures
        final(out)@ == old(out)@ + decimal_digits(n as nat),
    decreases n,
{
    if n >= 10 {
        push_decimal_digits(n / 10, out);
    }
    out.push(48 + (n % 10) as u8);
    assert(final(out)@ =~= old(out)@ + decimal_digits(n as nat));
}

/// The decimal text of `n`, as `Display` of `i64` writes it.
pub fn decimal_text_of(n: i64) -> (r: Vec<u8>)
    ensures
        r@ == decimal_text(n as int),
{
    let mut out: Vec<u8> = Vec::new();
    if n < 0 {
        out.push(45u8);
        let magnitude: u64 = (0i128 - n as i128) as u64;
        push_decimal_digits(magnitude, &mut out);
    } else {
        push_decimal_digits(n as u64, &mut out);
    }
    assert(out@ =~= decimal_text(n as int));
    out
}

/// Draws the pseudo-random number of a claim by `signer_key` on the packet
/// `redpacket_key` at time `now`. The draw is reproducible from its inputs.
pub fn generate_random_number(redpacket_key: &[u8; 32], signer_key: &[u8; 32], now: i64) -> (r: u64)
    ensures
        r == random_draw(redpacket_key@, signer_key@, now as int),
{
    let mut seed = base58_text(redpacket_key);
    let mut claimer_text = base58_text(signer_key);
    seed.append(&mut claimer_text);
    let mut time_text = decimal_text_of(now);
    seed.append(&mut time_text);
    let digest = hash_bytes(seed.as_slice());
    read_le_u64(&digest)
}

} // verus!
