//! The remittance registry: creation, cancellation, and lookup of transfer
//! orders, plus the raw store write that the storage layer exposes.

use vstd::prelude::*;

use crate::auth::AuthContext;
use crate::errors::ContractError;
use crate::events::Event;
use crate::fees::compute_fee;
use crate::fees::fee_of;
use crate::limits::HistoryEntry;
use crate::limits::cap_for;
use crate::limits::window_sum;
use crate::state::SwiftRemitContract;
use crate::state::contains_u64;
use crate::state::lemma_balance_push;
use crate::state::lemma_marked_fee_sum_push;
use crate::state::lemma_marked_fee_sum_update;
use crate::state::lemma_pending_sum_push;
use crate::state::lemma_pending_sum_update;
use crate::types::Remittance;
use crate::types::RemittanceStatus;
use crate::types::Transfer;
use crate::types::TransferRecord;
use crate::types::wf_remittance;

verus! {

impl SwiftRemitContract {
    /// Whether the rolling-window cap of `(currency, country)` would be
    /// exceeded by the sender moving `amount` more at time `now`.
    pub open spec fn limit_hit(
        self,
        sender: u64,
        amount: i128,
        currency: u32,
        country: u32,
        now: u64,
    ) -> bool {
        match cap_for(self.limits.caps@, currency, country) {
            Some(cap) => window_sum(self.limits.history@, sender, currency, country, now) + amount
                > cap,
            None => false,
        }
    }

    /// Creates a new remittance: takes the gross `amount` from `sender`
    /// into custody, fixes the fee at the configured rate, and stores the
    /// order as pending under the next id. Requires the sender's
    /// authorization. Fails with `InvalidAmount` for a non-positive amount,
    /// `AgentNotRegistered` for an unknown agent, `Overflow` when the fee
    /// product or the id counter overflows, and `DailyLimitExceeded` when
    /// the corridor's rolling-window cap would be exceeded; no state
    /// changes on any failure.
    pub fn create_remittance(
        &mut self,
        auth: &AuthContext,
        sender: u64,
        agent: u64,
        amount: i128,
        currency: u32,
        country: u32,
        expiry: Option<u64>,
        now: u64,
    ) -> (r: Result<u64, ContractError>)
        requires
            old(self).wf(),
        ensures
            final(self).wf(),
            r == Err::<u64, ContractError>(ContractError::Unauthorized) <==> !auth.permits(sender),
            (auth.permits(sender) ==> (r == Err::<u64, ContractError>(ContractError::InvalidAmount)
                <==> amount <= 0)),
            (auth.permits(sender) && amount > 0 ==> (r == Err::<u64, ContractError>(
                ContractError::AgentNotRegistered,
            ) <==> !old(self).agent_is_registered(agent))),
            (auth.permits(sender) && amount > 0 && old(self).agent_is_registered(agent) ==> (r
                == Err::<u64, ContractError>(ContractError::Overflow) <==> (amount * (old(
                self,
            ).fee_bps as int) > i128::MAX || old(self).remittance_counter == u64::MAX))),
            (auth.permits(sender) && amount > 0 && old(self).agent_is_registered(agent) && amount
                * (old(self).fee_bps as int) <= i128::MAX && old(self).remittance_counter
                < u64::MAX ==> (r == Err::<u64, ContractError>(ContractError::DailyLimitExceeded)
                <==> old(self).limit_hit(sender, amount, currency, country, now))),
            r is Ok <==> (auth.permits(sender) && amount > 0 && old(self).agent_is_registered(agent)
                && amount * (old(self).fee_bps as int) <= i128::MAX && old(
                self,
            ).remittance_counter < u64::MAX && !old(self).limit_hit(
                sender,
                amount,
                currency,
                country,
                now,
            )),
            r is Err ==> *final(self) == *old(self),
            r matches Ok(id) ==> id == old(self).remittance_counter + 1,
            r matches Ok(id) ==> (*final(self) == (SwiftRemitContract {
                remittance_counter: id,
                remittances: final(self).remittances,
                settled: final(self).settled,
                limits: final(self).limits,
                transfers: final(self).transfers,
                events: final(self).events,
                ..*old(self)
            })),
            r matches Ok(id) ==> final(self).remittances@ == old(self).remittances@.push(
                (Remittance {
                    id,
                    sender,
                    agent,
                    amount,
                    fee: fee_of(amount as int, old(self).fee_bps as int) as i128,
                    status: RemittanceStatus::Pending,
                    expiry,
                }),
            ),
            r is Ok ==> final(self).settled@ == old(self).settled@.push(false),
            r is Ok ==> final(self).limits.caps@ == old(self).limits.caps@,
            r is Ok ==> final(self).limits.history@ == old(self).limits.history@.push(
                (HistoryEntry {
                    sender,
                    currency,
                    country,
                    record: TransferRecord { timestamp: now, amount },
                }),
            ),
            r is Ok ==> final(self).transfers@ == old(self).transfers@.push(
                (Transfer { from: sender, to: old(self).contract_address, amount }),
            ),
            r matches Ok(id) ==> final(self).events@ == old(self).events@.push(
                (Event::RemittanceCreated {
                    id,
                    sender,
                    agent,
                    token: old(self).usdc_token,
                    amount,
                    fee: fee_of(amount as int, old(self).fee_bps as int) as i128,
                }),
            ),
            old(self).balanced() && sender != old(self).contract_address ==> final(self).balanced(),
            old(self).fees_match_marks() ==> final(self).fees_match_marks(),
    {
        if !auth.allows(sender) {
            return Err(ContractError::Unauthorized);
        }
        if amount <= 0 {
            return Err(ContractError::InvalidAmount);
        }
        if !contains_u64(&self.agents, agent) {
            return Err(ContractError::AgentNotRegistered);
        }
        let fee = match compute_fee(amount, self.fee_bps) {
            Ok(f) => f,
            Err(e) => {
                return Err(e);
            },
        };
        if self.remittance_counter == u64::MAX {
            return Err(ContractError::Overflow);
        }
        if !self.limits.check_and_record(sender, currency, country, amount, now) {
            return Err(ContractError::DailyLimitExceeded);
        }
        let id = self.remittance_counter + 1;
        let custody = self.contract_address;
        let incoming = Transfer { from: sender, to: custody, amount };
        proof {
            lemma_balance_push(self.transfers@, incoming, custody);
        }
        self.transfers.push(incoming);
        let record = Remittance {
            id,
            sender,
            agent,
            amount,
            fee,
            status: RemittanceStatus::Pending,
            expiry,
        };
        proof {
            lemma_pending_sum_push(self.remittances@, record);
            lemma_marked_fee_sum_push(self.remittances@, self.settled@, record, false);
        }
        self.remittances.push(record);
        self.settled.push(false);
        self.remittance_counter = id;
        self.events.push(
            Event::RemittanceCreated { id, sender, agent, token: self.usdc_token, amount, fee },
        );
        proof {
            assert forall|i: int|
                0 <= i < self.remittances@.len() implies (#[trigger] self.remittances@[i]).id == i
                + 1 && wf_remittance(self.remittances@[i]) by {
                if i < old(self).remittances@.len() {
                    assert(self.remittances@[i] == old(self).remittances@[i]);
                } else {
                    assert(self.remittances@[i] == record);
                }
            }
        }
        Ok(id)
    }

    /// Cancels a pending remittance and refunds the full gross amount (not
    /// amount minus fee) from custody to the sender. Requires the
    /// remittance's sender to authorize. Fails with `RemittanceNotFound`
    /// for an unknown id and `InvalidStatus` once the order is no longer
    /// pending; no state changes on failure. No fee is ever charged on a
    /// cancelled remittance.
    pub fn cancel_remittance(&mut self, auth: &AuthContext, id: u64) -> (r: Result<
        (),
        ContractError,
    >)
        requires
            old(self).wf(),
        ensures
            final(self).wf(),
            r == Err::<(), ContractError>(ContractError::RemittanceNotFound) <==> !old(
                self,
            ).has_rem(id),
            (old(self).has_rem(id) ==> (r == Err::<(), ContractError>(ContractError::Unauthorized)
                <==> !auth.permits(old(self).rem(id).sender))),
            (old(self).has_rem(id) && auth.permits(old(self).rem(id).sender) ==> (r == Err::<
                (),
                ContractError,
            >(ContractError::InvalidStatus) <==> !(old(self).rem(id).status
                is Pending))),
            r is Ok <==> (old(self).has_rem(id) && auth.permits(old(self).rem(id).sender) && old(
                self,
            ).rem(id).status is Pending),
            r is Err ==> *final(self) == *old(self),
            r is Ok ==> (*final(self) == (SwiftRemitContract {
                remittances: final(self).remittances,
                transfers: final(self).transfers,
                events: final(self).events,
                ..*old(self)
            })),
            r is Ok ==> final(self).remittances@ == old(self).remittances@.update(
                id - 1,
                (Remittance { status: RemittanceStatus::Cancelled, ..old(self).rem(id) }),
            ),
            r is Ok ==> final(self).transfers@ == old(self).transfers@.push(
                (Transfer {
                    from: old(self).contract_address,
                    to: old(self).rem(id).sender,
                    amount: old(self).rem(id).amount,
                }),
            ),
            r is Ok ==> final(self).events@ == old(self).events@.push(
                (Event::RemittanceCancelled {
                    id,
                    sender: old(self).rem(id).sender,
                    agent: old(self).rem(id).agent,
                    token: old(self).usdc_token,
                    amount: old(self).rem(id).amount,
                }),
            ),
            (old(self).balanced() && old(self).rem(id).sender != old(self).contract_address
                ==> final(self).balanced()),
            old(self).fees_match_marks() ==> final(self).fees_match_marks(),
    {
        if id < 1 || id > self.remittances.len() as u64 {
            return Err(ContractError::RemittanceNotFound);
        }
        let idx = (id - 1) as usize;
        let found = self.remittances[idx];
        if !auth.allows(found.sender) {
            return Err(ContractError::Unauthorized);
        }
        if !matches!(found.status, RemittanceStatus::Pending) {
            return Err(ContractError::InvalidStatus);
        }
        let custody = self.contract_address;
        let refund = Transfer { from: custody, to: found.sender, amount: found.amount };
        proof {
            lemma_balance_push(self.transfers@, refund, custody);
        }
        self.transfers.push(refund);
        let cancelled = Remittance { status: RemittanceStatus::Cancelled, ..found };
        proof {
            lemma_pending_sum_update(self.remittances@, idx as int, cancelled);
            lemma_marked_fee_sum_update(
                self.remittances@,
                self.settled@,
                idx as int,
                cancelled,
                self.settled@[idx as int],
            );
            assert(self.settled@.update(idx as int, self.settled@[idx as int]) =~= self.settled@);
        }
        self.remittances[idx] = cancelled;
        self.events.push(
            Event::RemittanceCancelled {
                id,
                sender: found.sender,
                agent: found.agent,
                token: self.usdc_token,
                amount: found.amount,
            },
        );
        proof {
            assert forall|i: int|
                0 <= i < self.remittances@.len() implies (#[trigger] self.remittances@[i]).id == i
                + 1 && wf_remittance(self.remittances@[i]) by {
                if i != idx as int {
                    assert(self.remittances@[i] == old(self).remittances@[i]);
                }
            }
        }
        Ok(())
    }

    /// The stored record of remittance `id`, or `RemittanceNotFound`.
    pub fn get_remittance(&self, id: u64) -> (r: Result<Remittance, ContractError>)
        ensures
            r is Ok <==> self.has_rem(id),
            r matches Ok(found) ==> found == self.rem(id),
            r is Err ==> r == Err::<Remittance, ContractError>(ContractError::RemittanceNotFound),
    {
        if id < 1 || id > self.remittances.len() as u64 {
            return Err(ContractError::RemittanceNotFound);
        }
        let idx = (id - 1) as usize;
        Ok(self.remittances[idx])
    }

    /// The stored record of a settlement's remittance; same lookup as
    /// `get_remittance`, kept under the settlement-facing name.
    pub fn get_settlement(&self, id: u64) -> (r: Result<Remittance, ContractError>)
        ensures
            r is Ok <==> self.has_rem(id),
            r matches Ok(found) ==> found == self.rem(id),
            r is Err ==> r == Err::<Remittance, ContractError>(ContractError::RemittanceNotFound),
    {
        self.get_remittance(id)
    }

    /// The raw store write of the persistence layer: overwrites the record
    /// under `id` without any lifecycle checks and without touching the
    /// settlement marks. Duplicate-payout prevention must survive even such
    /// a rewrite of `status`; see the settlement engine's contracts.
    pub fn set_remittance(&mut self, id: u64, record: Remittance)
        requires
            old(self).wf(),
            old(self).has_rem(id),
            record.id == id,
            wf_remittance(record),
        ensures
            final(self).wf(),
            (*final(self) == (SwiftRemitContract {
                remittances: final(self).remittances,
                ..*old(self)
            })),
            final(self).remittances@ == old(self).remittances@.update(id - 1, record),
    {
        let n = self.remittances.len();
        let idx = (id - 1) as usize;
        proof {
            assert(id - 1 < n);
            assert(idx as int == id - 1);
        }
        self.remittances[idx] = record;
        proof {
            assert forall|i: int|
                0 <= i < self.remittances@.len() implies (#[trigger] self.remittances@[i]).id == i
                + 1 && wf_remittance(self.remittances@[i]) by {
                if i != idx as int {
                    assert(self.remittances@[i] == old(self).remittances@[i]);
                }
            }
        }
    }
}

} // verus!
