use vstd::prelude::*;

verus! {

/// `if_spilt_random` value of a packet whose shares are drawn at random.
pub const RED_PACKET_SPILT_RANDOM: bool = true;

/// `if_spilt_random` value of a packet split in equal shares.
pub const RED_PACKET_SPILT_EQUAL: bool = false;

/// `token_type` of a packet that holds the native currency.
pub const RED_PACKET_USE_NATIVE_TOKEN: u8 = 0;

/// `token_type` of a packet that holds a fungible token.
pub const RED_PACKET_USE_CUSTOM_TOKEN: u8 = 1;

/// `withdraw_status` of a packet whose remainder has not been taken back.
pub const RED_PACKET_WITHDRAW_STATUS_NOT_WITHDRAW: u8 = 0;

/// `withdraw_status` of a packet whose remainder went back to its creator.
pub const RED_PACKET_WITHDRAW_STATUS_CLAIMED: u8 = 1;

/// The largest number of claim slots a packet may have; it also bounds the
/// list of claimants kept in the record.
pub const MAX_TOTAL_NUMBER: u8 = 200;

/// How far, in seconds, a packet's `create_time` may lie from the clock.
pub const CREATE_TIME_TOLERANCE: u64 = 120;

} // verus!
