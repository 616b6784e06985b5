//! A remittance settlement ledger.
//!
//! The crate tracks transfer orders (remittances) from a sender to a payout
//! agent, applies a platform fee in basis points, and moves each order through
//! a lifecycle of pending to completed or cancelled. The settlement engine
//! guarantees idempotent payout execution, expiry enforcement, all-or-nothing
//! batch settlement, and rolling-window spending limits.
//!
//! The hosting environment's collaborators are modeled explicitly: persistent
//! storage is an in-memory state object, caller authorization is a capability
//! context listing the principals that approved the current call, value
//! transfers and domain events are recorded as append-only logs on the state.

mod admin;
mod auth;
mod errors;
mod events;
mod fees;
mod limits;
mod registry;
mod settlement;
mod state;
mod types;

pub use auth::AuthContext;
pub use auth::valid_address;
pub use auth::validate_address;
pub use errors::ContractError;
pub use errors::error_code;
pub use events::Event;
pub use fees::compute_fee;
pub use fees::fee_of;
pub use fees::lemma_fee_bounds;
pub use limits::HistoryEntry;
pub use limits::LimitBook;
pub use limits::WINDOW_SECONDS;
pub use limits::cap_for;
pub use limits::in_window;
pub use limits::window_sum;
pub use settlement::MAX_BATCH_SIZE;
pub use settlement::completed_rem;
pub use settlement::distinct_ids;
pub use settlement::ids_of;
pub use settlement::lemma_settled_mark_blocks_settlement;
pub use state::SwiftRemitContract;
pub use state::balance_of;
pub use state::lemma_custody_after_full_settlement;
pub use state::marked_fee_sum;
pub use state::pending_sum;
pub use state::transfer_delta;
pub use types::BatchSettlementEntry;
pub use types::BatchSettlementResult;
pub use types::DailyLimit;
pub use types::Remittance;
pub use types::RemittanceStatus;
pub use types::Transfer;
pub use types::TransferRecord;
pub use types::wf_remittance;
