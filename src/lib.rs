//! Red packets: a creator escrows a pool of value that up to `total_number`
//! claimants draw from, each claim endorsed by an off-chain issuer's ed25519
//! signature; after expiry the creator takes back what is left, once.
//!
//! The library holds the ledger of a packet and every decision taken on it.
//! Moving funds, reading the clock and loading the signature instruction are
//! left to the host, which hands the results in as plain values.

pub mod bytes;
pub mod constants;
pub mod error;
pub mod instructions;
pub mod laws;
pub mod packet;
pub mod random;
pub mod signature;

pub use constants::{
    CREATE_TIME_TOLERANCE, MAX_TOTAL_NUMBER, RED_PACKET_SPILT_EQUAL, RED_PACKET_SPILT_RANDOM,
    RED_PACKET_USE_CUSTOM_TOKEN, RED_PACKET_USE_NATIVE_TOKEN, RED_PACKET_WITHDRAW_STATUS_CLAIMED,
    RED_PACKET_WITHDRAW_STATUS_NOT_WITHDRAW,
};
pub use error::CustomError;
pub use instructions::{
    check_create_params, claim_with_native_token, claim_with_spl_token,
    create_red_packet_with_native_token, create_red_packet_with_spl_token,
    withdraw_with_native_token, withdraw_with_spl_token,
};
pub use packet::{initialize_red_packet, RedPacket};
pub use random::generate_random_number;
pub use signature::verify_claim_signature;
