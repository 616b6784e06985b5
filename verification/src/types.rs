//! The entity types of the ledger: remittances, limits, and the records of
//! the observable side effects (value transfers and rolling-window history).

use vstd::prelude::*;

verus! {

/// The lifecycle state of a remittance. `Pending` may move to `Completed`
/// (payout confirmed) or `Cancelled` (refunded); both are terminal.
#[derive(Clone, Copy, Debug, PartialEq, Eq, Structural)]
pub enum RemittanceStatus {
    Pending,
    Completed,
    Cancelled,
}

/// A transfer order: gross `amount` moves from `sender` into custody at
/// creation and, once confirmed, `amount - fee` is paid out to `agent`.
#[derive(Clone, Copy, Debug, PartialEq, Eq)]
pub struct Remittance {
    /// Unique identifier, assigned from a monotonic counter starting at 1.
    pub id: u64,
    /// The principal that funds the order.
    pub sender: u64,
    /// The registered payout agent that receives the net amount.
    pub agent: u64,
    /// Gross value of the order; always strictly positive.
    pub amount: i128,
    /// Platform fee, fixed at creation; always between 0 and `amount`.
    pub fee: i128,
    /// Current lifecycle state.
    pub status: RemittanceStatus,
    /// Optional deadline: confirmation must happen at or before this time.
    pub expiry: Option<u64>,
}

/// The basic well-formedness of a stored remittance record: positive gross
/// amount and a fee no larger than the amount.
pub open spec fn wf_remittance(r: Remittance) -> bool {
    &&& r.amount > 0
    &&& 0 <= r.fee <= r.amount
}

/// A rolling-window spending cap for one `(currency, country)` corridor.
/// The absence of a stored row means the corridor has no cap.
#[derive(Clone, Copy, Debug, PartialEq, Eq, Structural)]
pub struct DailyLimit {
    /// Currency code of the corridor.
    pub currency: u32,
    /// Country code of the corridor.
    pub country: u32,
    /// Cap on the summed transfer amounts within the trailing 24-hour window.
    pub limit: i128,
}

/// One executed transfer contributing to a sender's rolling 24-hour window.
#[derive(Clone, Copy, Debug, PartialEq, Eq, Structural)]
pub struct TransferRecord {
    /// Ledger time at which the transfer was recorded.
    pub timestamp: u64,
    /// Gross amount of the transfer; always strictly positive.
    pub amount: i128,
}

/// One entry of a settlement batch, naming the remittance to settle.
#[derive(Clone, Copy, Debug, PartialEq, Eq, Structural)]
pub struct BatchSettlementEntry {
    pub remittance_id: u64,
}

/// The outcome of a successful batch settlement: the settled ids, in the
/// order the batch listed them.
#[derive(Clone, Debug, PartialEq, Eq)]
pub struct BatchSettlementResult {
    pub settled_ids: Vec<u64>,
}

/// One value movement performed by the contract, as recorded on the ledger's
/// append-only transfer log. The custody account is the contract's own
/// address.
#[derive(Clone, Copy, Debug, PartialEq, Eq, Structural)]
pub struct Transfer {
    pub from: u64,
    pub to: u64,
    pub amount: i128,
}

} // verus!
