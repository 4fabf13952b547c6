use vstd::prelude::*;

use crate::bytes::{concat, le_u16, range_equals, read_le_u16};
use crate::error::CustomError;

verus! {

/// Length in bytes of an ed25519 public key.
pub const PUBLIC_KEY_LEN: usize = 32;

/// Where the offsets record of an ed25519 instruction starts: after the
/// signature count and one byte of padding.
pub const OFFSETS_START: usize = 2;

/// Where that record ends: seven little-endian `u16` fields.
pub const OFFSETS_END: usize = 16;

/// The offsets record of an ed25519 signature-verification instruction.
#[derive(Debug, Clone, Copy, PartialEq, Eq, Structural)]
pub struct Ed25519SignatureOffsets {
    /// Offset of the 64-byte signature.
    pub signature_offset: u16,
    /// Instruction that holds the signature.
    pub signature_instruction_index: u16,
    /// Offset of the 32-byte public key.
    pub public_key_offset: u16,
    /// Instruction that holds the public key.
    pub public_key_instruction_index: u16,
    /// Offset of the signed message.
    pub message_data_offset: u16,
    /// Length of the signed message.
    pub message_data_size: u16,
    /// Instruction that holds the message.
    pub message_instruction_index: u16,
}

impl Ed25519SignatureOffsets {
    /// The record that the bytes `data[2..16]` encode.
    pub open spec fn spec_parse(data: Seq<u8>) -> Ed25519SignatureOffsets {
        Ed25519SignatureOffsets {
            signature_offset: le_u16(data, 2) as u16,
            signature_instruction_index: le_u16(data, 4) as u16,
            public_key_offset: le_u16(data, 6) as u16,
            public_key_instruction_index: le_u16(data, 8) as u16,
            message_data_offset: le_u16(data, 10) as u16,
            message_data_size: le_u16(data, 12) as u16,
            message_instruction_index: le_u16(data, 14) as u16,
        }
    }

    /// Decodes the record from the instruction data `data`; `None` when the
    /// data is too short to hold it.
    pub fn try_from_instruction_data(data: &[u8]) -> (r: Option<Ed25519SignatureOffsets>)
        ensures
            r is Some <==> data@.len() >= OFFSETS_END,
            r is Some ==> r->Some_0 == Self::spec_parse(data@),
    {
        if data.len() < OFFSETS_END {
            return None;
        }
        Some(Ed25519SignatureOffsets {
            signature_offset: read_le_u16(data, 2),
            signature_instruction_index: read_le_u16(data, 4),
            public_key_offset: read_le_u16(data, 6),
            public_key_instruction_index: read_le_u16(data, 8),
            message_data_offset: read_le_u16(data, 10),
            message_data_size: read_le_u16(data, 12),
            message_instruction_index: read_le_u16(data, 14),
        })
    }
}

/// Whether `data`, the data of an ed25519 signature-verification instruction,
/// verifies exactly one signature, made by `expected_key`, over the message
/// `packet_key ‖ claimer_key`.
pub open spec fn claim_signature_valid(
    data: Seq<u8>,
    packet_key: Seq<u8>,
    claimer_key: Seq<u8>,
    expected_key: Seq<u8>,
) -> bool {
    let o = Ed25519SignatureOffsets::spec_parse(data);
    let key_start = o.public_key_offset as int;
    let msg_start = o.message_data_offset as int;
    let msg_end = msg_start + o.message_data_size;
    &&& data.len() >= OFFSETS_END
    &&& data[0] == 1
    &&& key_start + PUBLIC_KEY_LEN <= data.len()
    &&& data.subrange(key_start, key_start + PUBLIC_KEY_LEN) == expected_key
    &&& msg_end <= data.len()
    &&& data.subrange(msg_start, msg_end) == packet_key + claimer_key
}

/// Checks that `instruction_data`, the data of the ed25519 instruction that
/// precedes a claim (empty when there is none), endorses `claimer_key` for the
/// packet `red_packet_key` under `expected_public_key_arr`. Any offset out of
/// range, wrong count, key or message fails with `InvalidSignature`.
pub fn verify_claim_signature(
    instruction_data: &[u8],
    red_packet_key: &[u8],
    claimer_key: &[u8],
    expected_public_key_arr: &[u8],
) -> (r: Result<(), CustomError>)
    ensures
        r is Ok <==> claim_signature_valid(
            instruction_data@,
            red_packet_key@,
            claimer_key@,
            expected_public_key_arr@,
        ),
        r is Err ==> r == Err::<(), CustomError>(CustomError::InvalidSignature),
{
    if instruction_data.len() < 2 {
        return Err(CustomError::InvalidSignature);
    }
    let num_signatures = instruction_data[0];
    if num_signatures != 1 {
        return Err(CustomError::InvalidSignature);
    }
    let offsets = match Ed25519SignatureOffsets::try_from_instruction_data(instruction_data) {
        Some(o) => o,
        None => return Err(CustomError::InvalidSignature),
    };

    // the public key
    let pubkey_start = offsets.public_key_offset as usize;
    if pubkey_start + PUBLIC_KEY_LEN > instruction_data.len() {
        return Err(CustomError::InvalidSignature);
    }
    if !range_equals(instruction_data, pubkey_start, PUBLIC_KEY_LEN, expected_public_key_arr) {
        return Err(CustomError::InvalidSignature);
    }

    // the message
    let expected_message = concat(red_packet_key, claimer_key);
    let msg_start = offsets.message_data_offset as usize;
    let msg_len = offsets.message_data_size as usize;
    if msg_start + msg_len > instruction_data.len() {
        return Err(CustomError::InvalidSignature);
    }
    if !range_equals(instruction_data, msg_start, msg_len, expected_message.as_slice()) {
        return Err(CustomError::InvalidSignature);
    }
    Ok(())
}

} // verus!
