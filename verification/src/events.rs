//! Domain events. The hosting environment publishes these as structured
//! records; the contract models the emission as an append-only log.

use vstd::prelude::*;

verus! {

/// Every event the contract emits, with the payload fields of the
/// corresponding record.
#[derive(Clone, Copy, Debug, PartialEq, Eq, Structural)]
pub enum Event {
    /// An agent was added to the registry by the admin.
    AgentRegistered { agent: u64, admin: u64 },
    /// An agent was removed from the registry by the admin.
    AgentRemoved { agent: u64, admin: u64 },
    /// The platform fee rate changed.
    FeeUpdated { admin: u64, old_fee: u32, new_fee: u32 },
    /// A remittance was created and its gross amount taken into custody.
    RemittanceCreated { id: u64, sender: u64, agent: u64, token: u64, amount: i128, fee: i128 },
    /// A pending remittance's payout was executed.
    RemittanceCompleted { id: u64, sender: u64, agent: u64, token: u64, payout: i128 },
    /// A settlement executed, with the actually transferred tuple.
    SettlementCompleted { sender: u64, agent: u64, token: u64, payout: i128 },
    /// A pending remittance was cancelled and its gross amount refunded.
    RemittanceCancelled { id: u64, sender: u64, agent: u64, token: u64, amount: i128 },
    /// The accumulated fee balance was withdrawn.
    FeesWithdrawn { admin: u64, to: u64, token: u64, amount: i128 },
    /// The contract was paused.
    Paused { admin: u64 },
    /// The contract was unpaused.
    Unpaused { admin: u64 },
    /// A batch settlement passed its size checks and entered validation.
    BatchStarted { size: usize },
    /// A batch settlement executed fully; `reason` is 0 on success.
    BatchCompleted { count: usize, reason: u32 },
    /// A batch settlement was rejected during validation.
    BatchFailed { reason: u32 },
}

} // verus!
