//! Error kinds surfaced to callers of the presale core.
//!
//! Every rejected precondition maps to a distinct, stable kind; none is
//! retried by the core.

use vstd::prelude::*;

verus! {

/// Rejections of the presale operations: lifecycle-state errors, identity
/// errors, double-action errors and input-validation errors.
#[derive(Debug, PartialEq, Eq)]
pub enum ContractError {
    Std(String),
    Admin(String),
    Unauthorized,
    FeeMismatch(u128, u128),
    OnlySaleOwner,
    ParticipationNotFound,
    Whitelist(String),
    Sell(String),
    Buy(String),
    Claim(String),
    Refund(String),
    NotStarted,
    Ongoing,
    AlreadyEnded,
    AlreadyFilled,
    InvalidReplyId,
    Failed,
    Ended,
    Custom(String),
}

/// `e` is a whitelist-gating rejection carrying the message `msg`.
pub open spec fn is_whitelist_err(e: ContractError, msg: Seq<char>) -> bool {
    e matches ContractError::Whitelist(d) && d@ == msg
}

/// `e` is a sale-creation rejection carrying the message `msg`.
pub open spec fn is_sell_err(e: ContractError, msg: Seq<char>) -> bool {
    e matches ContractError::Sell(d) && d@ == msg
}

/// `e` is a participation rejection carrying the message `msg`.
pub open spec fn is_buy_err(e: ContractError, msg: Seq<char>) -> bool {
    e matches ContractError::Buy(d) && d@ == msg
}

/// `e` is a claim rejection carrying the message `msg`.
pub open spec fn is_claim_err(e: ContractError, msg: Seq<char>) -> bool {
    e matches ContractError::Claim(d) && d@ == msg
}

/// `e` is a refund rejection carrying the message `msg`.
pub open spec fn is_refund_err(e: ContractError, msg: Seq<char>) -> bool {
    e matches ContractError::Refund(d) && d@ == msg
}

impl ContractError {
    pub fn whitelist(description: &str) -> (e: Self)
        ensures
            is_whitelist_err(e, description@),
    {
        Self::Whitelist(String::from_str(description))
    }

    pub fn sell(description: &str) -> (e: Self)
        ensures
            is_sell_err(e, description@),
    {
        Self::Sell(String::from_str(description))
    }

    pub fn buy(description: &str) -> (e: Self)
        ensures
            is_buy_err(e, description@),
    {
        Self::Buy(String::from_str(description))
    }

    pub fn claim(description: &str) -> (e: Self)
        ensures
            is_claim_err(e, description@),
    {
        Self::Claim(String::from_str(description))
    }

    pub fn refund(description: &str) -> (e: Self)
        ensures
            is_refund_err(e, description@),
    {
        Self::Refund(String::from_str(description))
    }

    pub fn custom(description: &str) -> (e: Self)
        ensures
            e matches ContractError::Custom(d) && d@ == description@,
    {
        Self::Custom(String::from_str(description))
    }
}

/// Rejections of the companion token-lock vault.
#[derive(Debug, PartialEq, Eq)]
pub enum LockError {
    Std(String),
    AmountMismatched,
    LockMinimum(u128),
    TokenMismatched,
    OwnerMismatched,
    Custom(String),
}

impl LockError {
    pub fn custom(description: &str) -> (e: Self)
        ensures
            e matches LockError::Custom(d) && d@ == description@,
    {
        Self::Custom(String::from_str(description))
    }
}

/// Rejections of the companion vault claim path.
#[derive(Debug, PartialEq, Eq)]
pub enum ClaimError {
    Std(String),
    VaultIdMismatched,
    Custom(String),
}

impl ClaimError {
    pub fn custom(description: &str) -> (e: Self)
        ensures
            e matches ClaimError::Custom(d) && d@ == description@,
    {
        Self::Custom(String::from_str(description))
    }
}

} // verus!
