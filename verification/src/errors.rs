//! The closed taxonomy of error kinds that the contract operations return.

use vstd::prelude::*;

verus! {

/// Every failure of a contract operation, as a structured kind. No error is
/// fatal: each one aborts the current operation and leaves the ledger state
/// untouched (the caller sees exactly the state from before the call).
#[derive(Clone, Copy, Debug, PartialEq, Eq, Structural)]
pub enum ContractError {
    /// `initialize` was called on an already initialized ledger.
    AlreadyInitialized,
    /// An operation that needs the stored configuration ran before `initialize`.
    NotInitialized,
    /// A remittance amount or a limit value was not positive where it must be.
    InvalidAmount,
    /// A fee rate outside the range of 0 to 10000 basis points.
    InvalidFeeBps,
    /// The payout agent of a new remittance is not registered.
    AgentNotRegistered,
    /// No remittance is stored under the given id.
    RemittanceNotFound,
    /// The remittance is not pending, so it can be neither settled nor cancelled.
    InvalidStatus,
    /// A checked arithmetic step (fee product, counter, fee accumulation) overflowed.
    Overflow,
    /// `withdraw_fees` was called while no fees are accumulated.
    NoFeesToWithdraw,
    /// A payout or withdrawal destination address is malformed.
    InvalidAddress,
    /// Payout confirmation was attempted after the remittance's expiry time.
    SettlementExpired,
    /// A settlement mark already exists for this id: the payout already executed.
    DuplicateSettlement,
    /// The operation is blocked because the contract is paused.
    ContractPaused,
    /// `batch_settle` was called with an empty batch.
    EmptyBatchSettlement,
    /// `batch_settle` was called with more than `MAX_BATCH_SIZE` entries.
    BatchTooLarge,
    /// Some entry of a batch failed validation, so the whole batch was rejected.
    BatchValidationFailed,
    /// The sender's rolling 24-hour transfer volume would exceed the configured cap.
    DailyLimitExceeded,
    /// The principal that must approve this call has not authorized it.
    Unauthorized,
}

/// The stable numeric code of each error kind, as carried by failure events.
pub open spec fn error_code(e: ContractError) -> u32 {
    match e {
        ContractError::AlreadyInitialized => 1,
        ContractError::NotInitialized => 2,
        ContractError::InvalidAmount => 3,
        ContractError::InvalidFeeBps => 4,
        ContractError::AgentNotRegistered => 5,
        ContractError::RemittanceNotFound => 6,
        ContractError::InvalidStatus => 7,
        ContractError::Overflow => 8,
        ContractError::NoFeesToWithdraw => 9,
        ContractError::InvalidAddress => 10,
        ContractError::SettlementExpired => 11,
        ContractError::DuplicateSettlement => 12,
        ContractError::ContractPaused => 13,
        ContractError::EmptyBatchSettlement => 14,
        ContractError::BatchTooLarge => 15,
        ContractError::BatchValidationFailed => 16,
        ContractError::DailyLimitExceeded => 17,
        ContractError::Unauthorized => 18,
    }
}

impl ContractError {
    /// The numeric code of this error kind.
    pub fn code(&self) -> (c: u32)
        ensures
            c == error_code(*self),
    {
        match self {
            ContractError::AlreadyInitialized => 1,
            ContractError::NotInitialized => 2,
            ContractError::InvalidAmount => 3,
            ContractError::InvalidFeeBps => 4,
            ContractError::AgentNotRegistered => 5,
            ContractError::RemittanceNotFound => 6,
            ContractError::InvalidStatus => 7,
            ContractError::Overflow => 8,
            ContractError::NoFeesToWithdraw => 9,
            ContractError::InvalidAddress => 10,
            ContractError::SettlementExpired => 11,
            ContractError::DuplicateSettlement => 12,
            ContractError::ContractPaused => 13,
            ContractError::EmptyBatchSettlement => 14,
            ContractError::BatchTooLarge => 15,
            ContractError::BatchValidationFailed => 16,
            ContractError::DailyLimitExceeded => 17,
            ContractError::Unauthorized => 18,
        }
    }
}

} // verus!
