use vstd::prelude::*;

verus! {

/// Every way in which an operation on a red packet can be refused.
#[derive(Debug, Clone, Copy, PartialEq, Eq, Structural)]
pub enum CustomError {
    InvalidRedPacketId,
    InvalidCreateTime,
    InvalidExpiryTime,
    InvalidTotalNumber,
    InvalidTotalAmount,
    InsufficientTokenBalance,
    InvalidTokenType,
    InvalidAccountForNativeToken,
    InvalidInitialParamsForTokenAccount,
    RedPacketExpired,
    InvalidSignature,
    InvalidClaimAmount,
    RedPacketNotExpired,
    RedPacketClaimed,
    RedPacketAllClaimed,
    Unauthorized,
    RedPacketWithdrawn,
}

impl CustomError {
    /// The message shown to users for this error.
    pub fn message(&self) -> (r: &'static str) {
        match self {
            CustomError::InvalidRedPacketId => "Invalid red packet id.",
            CustomError::InvalidCreateTime => "Invalid create time.",
            CustomError::InvalidExpiryTime => "Invalid expiry time.",
            CustomError::InvalidTotalNumber => "Invalid total number.",
            CustomError::InvalidTotalAmount => "Invalid total amount.",
            CustomError::InsufficientTokenBalance => "Insufficient token balance.",
            CustomError::InvalidTokenType => "Invalid token type.",
            CustomError::InvalidAccountForNativeToken => "Invalid account for native token.",
            CustomError::InvalidInitialParamsForTokenAccount => "Invalid initial params for token account.",
            CustomError::RedPacketExpired => "The red packet has expired.",
            CustomError::InvalidSignature => "Invalid signature.",
            CustomError::InvalidClaimAmount => "The claim amount is invalid.",
            CustomError::RedPacketNotExpired => "The red packet has not yet expired.",
            CustomError::RedPacketClaimed => "The red packet has been claimed.",
            CustomError::RedPacketAllClaimed => "All the red packet has been claimed.",
            CustomError::Unauthorized => "You are not authorized to perform this action.",
            CustomError::RedPacketWithdrawn => "The red packet has been withdrawn.",
        }
    }
}

} // verus!
