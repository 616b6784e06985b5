//! The settlement engine: single payout confirmation and all-or-nothing
//! batch settlement.
//!
//! Both paths share one validation protocol per remittance: the contract
//! must not be paused, the remittance must exist and be pending, its
//! settlement mark must be clear, its expiry (if any) must not have passed,
//! and the payout destination must be well formed. Execution pays
//! `amount - fee` from custody to the agent, accumulates the fee, marks the
//! remittance completed, and sets the settlement mark so the payout can
//! never run twice.

use vstd::prelude::*;

use crate::auth::AuthContext;
use crate::auth::valid_address;
use crate::auth::validate_address;
use crate::errors::ContractError;
use crate::errors::error_code;
use crate::events::Event;
use crate::state::SwiftRemitContract;
use crate::state::balance_of;
use crate::state::lemma_balance_push;
use crate::state::lemma_marked_fee_sum_update;
use crate::state::lemma_pending_sum_update;
use crate::state::marked_fee_sum;
use crate::state::pending_sum;
use crate::types::BatchSettlementEntry;
use crate::types::BatchSettlementResult;
use crate::types::Remittance;
use crate::types::RemittanceStatus;
use crate::types::Transfer;
use crate::types::wf_remittance;

verus! {

/// The largest number of entries one settlement batch may carry.
pub const MAX_BATCH_SIZE: usize = 100;

/// The remittance ids named by a batch, in batch order.
pub open spec fn ids_of(entries: Seq<BatchSettlementEntry>) -> Seq<u64> {
    entries.map_values(|e: BatchSettlementEntry| e.remittance_id)
}

/// No id occurs twice.
pub open spec fn distinct_ids(ids: Seq<u64>) -> bool {
    forall|p: int, q: int|
        #![trigger ids[p], ids[q]]
        0 <= p < q < ids.len() ==> ids[p] != ids[q]
}

/// The record of a remittance once its payout has executed.
pub open spec fn completed_rem(r: Remittance) -> Remittance {
    Remittance { status: RemittanceStatus::Completed, ..r }
}

impl SwiftRemitContract {
    /// Remittance `id` carries an expiry and `now` is past it.
    pub open spec fn expired(self, id: u64, now: u64) -> bool {
        match self.rem(id).expiry {
            Some(e) => now > e,
            None => false,
        }
    }

    /// Every validation step of a single payout confirmation passes and
    /// the fee accumulation cannot overflow: exactly the calls on which
    /// `confirm_payout` succeeds.
    pub open spec fn confirm_allowed(self, auth: AuthContext, id: u64, now: u64) -> bool {
        &&& !self.paused
        &&& self.has_rem(id)
        &&& auth.permits(self.rem(id).agent)
        &&& self.rem(id).status is Pending
        &&& !self.mark(id)
        &&& !self.expired(id, now)
        &&& valid_address(self.rem(id).agent)
        &&& self.accumulated_fees + self.rem(id).fee <= i128::MAX
    }

    /// Confirms the payout of a pending remittance: pays `amount - fee`
    /// from custody to the agent, adds the fee to the accumulated balance,
    /// marks the record completed and sets the settlement mark. Requires
    /// the remittance's agent to authorize. Each validation failure leaves
    /// the ledger exactly as it was.
    pub fn confirm_payout(&mut self, auth: &AuthContext, id: u64, now: u64) -> (r: Result<
        (),
        ContractError,
    >)
        requires
            old(self).wf(),
        ensures
            final(self).wf(),
            r == Err::<(), ContractError>(ContractError::ContractPaused) <==> old(self).paused,
            (!old(self).paused ==> (r == Err::<(), ContractError>(
                ContractError::RemittanceNotFound,
            ) <==> !old(self).has_rem(id))),
            (!old(self).paused && old(self).has_rem(id) ==> (r == Err::<(), ContractError>(
                ContractError::Unauthorized,
            ) <==> !auth.permits(old(self).rem(id).agent))),
            (!old(self).paused && old(self).has_rem(id) && auth.permits(old(self).rem(id).agent)
                ==> (r == Err::<(), ContractError>(ContractError::InvalidStatus) <==> !(old(
                self,
            ).rem(id).status is Pending))),
            (!old(self).paused && old(self).has_rem(id) && auth.permits(old(self).rem(id).agent)
                && old(self).rem(id).status is Pending ==> (r == Err::<(), ContractError>(
                ContractError::DuplicateSettlement,
            ) <==> old(self).mark(id))),
            (!old(self).paused && old(self).has_rem(id) && auth.permits(old(self).rem(id).agent)
                && old(self).rem(id).status is Pending && !old(self).mark(id) ==> (r == Err::<
                (),
                ContractError,
            >(ContractError::SettlementExpired) <==> old(self).expired(id, now))),
            (!old(self).paused && old(self).has_rem(id) && auth.permits(old(self).rem(id).agent)
                && old(self).rem(id).status is Pending && !old(self).mark(id) && !old(
                self,
            ).expired(id, now) ==> (r == Err::<(), ContractError>(ContractError::InvalidAddress)
                <==> !valid_address(old(self).rem(id).agent))),
            (!old(self).paused && old(self).has_rem(id) && auth.permits(old(self).rem(id).agent)
                && old(self).rem(id).status is Pending && !old(self).mark(id) && !old(
                self,
            ).expired(id, now) && valid_address(old(self).rem(id).agent) ==> (r == Err::<
                (),
                ContractError,
            >(ContractError::Overflow) <==> old(self).accumulated_fees + old(self).rem(id).fee
                > i128::MAX)),
            r is Ok <==> old(self).confirm_allowed(*auth, id, now),
            r is Err ==> *final(self) == *old(self),
            r is Ok ==> (*final(self) == (SwiftRemitContract {
                remittances: final(self).remittances,
                settled: final(self).settled,
                accumulated_fees: final(self).accumulated_fees,
                transfers: final(self).transfers,
                events: final(self).events,
                ..*old(self)
            })),
            r is Ok ==> final(self).remittances@ == old(self).remittances@.update(
                id - 1,
                completed_rem(old(self).rem(id)),
            ),
            r is Ok ==> final(self).settled@ == old(self).settled@.update(id - 1, true),
            r is Ok ==> final(self).accumulated_fees == old(self).accumulated_fees + old(self).rem(
                id,
            ).fee,
            r is Ok ==> final(self).transfers@ == old(self).transfers@.push(
                (Transfer {
                    from: old(self).contract_address,
                    to: old(self).rem(id).agent,
                    amount: (old(self).rem(id).amount - old(self).rem(id).fee) as i128,
                }),
            ),
            r is Ok ==> final(self).events@ == old(self).events@.push(
                (Event::RemittanceCompleted {
                    id,
                    sender: old(self).rem(id).sender,
                    agent: old(self).rem(id).agent,
                    token: old(self).usdc_token,
                    payout: (old(self).rem(id).amount - old(self).rem(id).fee) as i128,
                }),
            ).push(
                (Event::SettlementCompleted {
                    sender: old(self).rem(id).sender,
                    agent: old(self).rem(id).agent,
                    token: old(self).usdc_token,
                    payout: (old(self).rem(id).amount - old(self).rem(id).fee) as i128,
                }),
            ),
            (old(self).balanced() && old(self).rem(id).agent != old(self).contract_address
                ==> final(self).balanced()),
            old(self).fees_match_marks() ==> final(self).fees_match_marks(),
            forall|j: u64| old(self).has_rem(j) && old(self).mark(j) ==> final(self).mark(j),
    {
        if self.paused {
            return Err(ContractError::ContractPaused);
        }
        let n = self.remittances.len();
        if id < 1 || id > n as u64 {
            return Err(ContractError::RemittanceNotFound);
        }
        let idx = (id - 1) as usize;
        let found = self.remittances[idx];
        if !auth.allows(found.agent) {
            return Err(ContractError::Unauthorized);
        }
        if !matches!(found.status, RemittanceStatus::Pending) {
            return Err(ContractError::InvalidStatus);
        }
        if self.settled[idx] {
            return Err(ContractError::DuplicateSettlement);
        }
        if let Some(expiry_time) = found.expiry {
            if now > expiry_time {
                return Err(ContractError::SettlementExpired);
            }
        }
        if let Err(e) = validate_address(found.agent) {
            return Err(e);
        }
        let payout = match found.amount.checked_sub(found.fee) {
            Some(p) => p,
            None => {
                return Err(ContractError::Overflow);
            },
        };
        let new_fees = match self.accumulated_fees.checked_add(found.fee) {
            Some(f) => f,
            None => {
                return Err(ContractError::Overflow);
            },
        };
        let custody = self.contract_address;
        let outgoing = Transfer { from: custody, to: found.agent, amount: payout };
        let settled_record = Remittance { status: RemittanceStatus::Completed, ..found };
        proof {
            lemma_balance_push(self.transfers@, outgoing, custody);
            lemma_pending_sum_update(self.remittances@, idx as int, settled_record);
            lemma_marked_fee_sum_update(
                self.remittances@,
                self.settled@,
                idx as int,
                settled_record,
                true,
            );
        }
        self.transfers.push(outgoing);
        self.remittances[idx] = settled_record;
        self.settled[idx] = true;
        self.accumulated_fees = new_fees;
        self.events.push(
            Event::RemittanceCompleted {
                id,
                sender: found.sender,
                agent: found.agent,
                token: self.usdc_token,
                payout,
            },
        );
        self.events.push(
            Event::SettlementCompleted {
                sender: found.sender,
                agent: found.agent,
                token: self.usdc_token,
                payout,
            },
        );
        proof {
            assert forall|i: int|
                0 <= i < self.remittances@.len() implies (#[trigger] self.remittances@[i]).id == i
                + 1 && wf_remittance(self.remittances@[i]) by {
                if i != idx as int {
                    assert(self.remittances@[i] == old(self).remittances@[i]);
                }
            }
        }
        Ok(())
    }

    /// The per-entry validation of batch settlement: the remittance exists,
    /// is pending, carries no settlement mark, has not expired, and its
    /// agent address is well formed.
    pub open spec fn batch_entry_ok(self, id: u64, now: u64) -> bool {
        &&& self.has_rem(id)
        &&& self.rem(id).status is Pending
        &&& !self.mark(id)
        &&& !self.expired(id, now)
        &&& valid_address(self.rem(id).agent)
    }

    /// Every entry of the batch passes per-entry validation.
    pub open spec fn batch_entries_ok(self, ids: Seq<u64>, now: u64) -> bool {
        forall|i: int| 0 <= i < ids.len() ==> self.batch_entry_ok(#[trigger] ids[i], now)
    }

    /// The whole batch passes validation: distinct ids, all entries valid.
    pub open spec fn batch_ok(self, ids: Seq<u64>, now: u64) -> bool {
        distinct_ids(ids) && self.batch_entries_ok(ids, now)
    }

    /// The summed fees of the named remittances, as stored in this ledger.
    pub open spec fn batch_fee_total(self, ids: Seq<u64>) -> int
        decreases ids.len(),
    {
        if ids.len() == 0 {
            0
        } else {
            self.batch_fee_total(ids.drop_last()) + self.rem(ids.last()).fee
        }
    }

    /// The summed gross amounts of the named remittances.
    pub open spec fn batch_amount_total(self, ids: Seq<u64>) -> int
        decreases ids.len(),
    {
        if ids.len() == 0 {
            0
        } else {
            self.batch_amount_total(ids.drop_last()) + self.rem(ids.last()).amount
        }
    }

    /// The custody-to-agent payout transfer that settling `id` performs.
    pub open spec fn settle_transfer(self, id: u64) -> Transfer {
        Transfer {
            from: self.contract_address,
            to: self.rem(id).agent,
            amount: (self.rem(id).amount - self.rem(id).fee) as i128,
        }
    }

    /// The payout transfers of a whole batch, in batch order.
    pub open spec fn settle_transfers(self, ids: Seq<u64>) -> Seq<Transfer>
        decreases ids.len(),
    {
        if ids.len() == 0 {
            Seq::empty()
        } else {
            self.settle_transfers(ids.drop_last()).push(self.settle_transfer(ids.last()))
        }
    }

    /// The per-remittance completion event of settling `id`.
    pub open spec fn completion_event(self, id: u64) -> Event {
        Event::RemittanceCompleted {
            id,
            sender: self.rem(id).sender,
            agent: self.rem(id).agent,
            token: self.usdc_token,
            payout: (self.rem(id).amount - self.rem(id).fee) as i128,
        }
    }

    /// The settlement-completed event of settling `id`, carrying the
    /// actually executed transfer tuple.
    pub open spec fn settlement_event(self, id: u64) -> Event {
        Event::SettlementCompleted {
            sender: self.rem(id).sender,
            agent: self.rem(id).agent,
            token: self.usdc_token,
            payout: (self.rem(id).amount - self.rem(id).fee) as i128,
        }
    }

    /// The two events each settled entry emits, for a whole batch in batch
    /// order.
    pub open spec fn settle_events(self, ids: Seq<u64>) -> Seq<Event>
        decreases ids.len(),
    {
        if ids.len() == 0 {
            Seq::empty()
        } else {
            self.settle_events(ids.drop_last()).push(self.completion_event(ids.last())).push(
                self.settlement_event(ids.last()),
            )
        }
    }
}

/// Idempotence of settlement: once the settlement mark of a remittance is
/// set, its payout can never execute again. Single confirmation of that id
/// cannot succeed — even if the record's status were forced back to
/// pending by a raw store write — and no batch naming the id can pass
/// validation.
pub proof fn lemma_settled_mark_blocks_settlement(
    s: SwiftRemitContract,
    auth: AuthContext,
    id: u64,
    now: u64,
    ids: Seq<u64>,
)
    requires
        s.has_rem(id),
        s.mark(id),
        ids.contains(id),
    ensures
        !s.confirm_allowed(auth, id, now),
        !s.batch_ok(ids, now),
{
    let i = choose|i: int| 0 <= i < ids.len() && ids[i] == id;
    if s.batch_entries_ok(ids, now) {
        assert(s.batch_entry_ok(ids[i], now));
    }
}

/// A prefix of a batch never carries more fees than the whole batch, since
/// every stored fee is non-negative.
pub proof fn lemma_batch_fee_prefix(s: SwiftRemitContract, ids: Seq<u64>, k: int)
    requires
        s.wf(),
        0 <= k <= ids.len(),
        forall|i: int| 0 <= i < ids.len() ==> s.has_rem(#[trigger] ids[i]),
    ensures
        s.batch_fee_total(ids.take(k)) <= s.batch_fee_total(ids),
    decreases ids.len() - k,
{
    if k == ids.len() {
        assert(ids.take(k) =~= ids);
    } else {
        lemma_batch_fee_prefix(s, ids, k + 1);
        assert(ids.take(k + 1).drop_last() =~= ids.take(k));
        assert(ids.take(k + 1).last() == ids[k]);
        assert(s.has_rem(ids[k]));
        assert(wf_remittance(s.remittances@[ids[k] - 1]));
    }
}

impl SwiftRemitContract {
    /// Settles an ordered batch of remittances all-or-nothing. After the
    /// pause and size checks a batch-started event is emitted; then every
    /// entry is validated (distinct ids, and the shared per-entry checks)
    /// and the fee total is staged, with no state change; only a fully
    /// valid batch is executed, entry by entry, folding the staged fee
    /// total into the accumulated balance by one addition at the end.
    /// Returns the settled ids in batch order. On any failure the store
    /// (records, marks, custody, fees, limits) is exactly as before the
    /// call; a batch rejected during validation or staging additionally
    /// leaves a batch-failed event beside the started one.
    pub fn batch_settle(&mut self, entries: Vec<BatchSettlementEntry>, now: u64) -> (r: Result<
        BatchSettlementResult,
        ContractError,
    >)
        requires
            old(self).wf(),
        ensures
            final(self).wf(),
            r == Err::<BatchSettlementResult, ContractError>(ContractError::ContractPaused)
                <==> old(self).paused,
            (!old(self).paused ==> (r == Err::<BatchSettlementResult, ContractError>(
                ContractError::EmptyBatchSettlement,
            ) <==> entries@.len() == 0)),
            (!old(self).paused && entries@.len() > 0 ==> (r == Err::<
                BatchSettlementResult,
                ContractError,
            >(ContractError::BatchTooLarge) <==> entries@.len() > MAX_BATCH_SIZE)),
            (!old(self).paused && 0 < entries@.len() <= MAX_BATCH_SIZE ==> (r == Err::<
                BatchSettlementResult,
                ContractError,
            >(ContractError::BatchValidationFailed) <==> !old(self).batch_ok(
                ids_of(entries@),
                now,
            ))),
            (!old(self).paused && 0 < entries@.len() <= MAX_BATCH_SIZE && old(self).batch_ok(
                ids_of(entries@),
                now,
            ) ==> (r == Err::<BatchSettlementResult, ContractError>(ContractError::Overflow)
                <==> old(self).accumulated_fees + old(self).batch_fee_total(ids_of(entries@))
                > i128::MAX)),
            r is Ok <==> (!old(self).paused && 0 < entries@.len() <= MAX_BATCH_SIZE && old(
                self,
            ).batch_ok(ids_of(entries@), now) && old(self).accumulated_fees + old(
                self,
            ).batch_fee_total(ids_of(entries@)) <= i128::MAX),
            (r == Err::<BatchSettlementResult, ContractError>(ContractError::ContractPaused) || r
                == Err::<BatchSettlementResult, ContractError>(
                ContractError::EmptyBatchSettlement,
            ) || r == Err::<BatchSettlementResult, ContractError>(ContractError::BatchTooLarge)
                ==> *final(self) == *old(self)),
            r is Err ==> old(self).same_store(*final(self)),
            r == Err::<BatchSettlementResult, ContractError>(ContractError::BatchValidationFailed)
                ==> final(self).events@ == old(self).events@.push(
                (Event::BatchStarted { size: entries@.len() as usize }),
            ).push((Event::BatchFailed { reason: error_code(ContractError::BatchValidationFailed) })),
            r == Err::<BatchSettlementResult, ContractError>(ContractError::Overflow)
                ==> final(self).events@ == old(self).events@.push(
                (Event::BatchStarted { size: entries@.len() as usize }),
            ).push((Event::BatchFailed { reason: error_code(ContractError::Overflow) })),
            r matches Ok(res) ==> res.settled_ids@ == ids_of(entries@),
            r is Ok ==> (*final(self) == (SwiftRemitContract {
                remittances: final(self).remittances,
                settled: final(self).settled,
                accumulated_fees: final(self).accumulated_fees,
                transfers: final(self).transfers,
                events: final(self).events,
                ..*old(self)
            })),
            r is Ok ==> final(self).remittances@.len() == old(self).remittances@.len() && final(self).settled@.len() == old(self).settled@.len(),
            r is Ok ==> (forall|i: int|
                #![trigger ids_of(entries@)[i]]
                0 <= i < ids_of(entries@).len() ==> final(self).rem(ids_of(entries@)[i])
                    == completed_rem(old(self).rem(ids_of(entries@)[i])) && final(self).mark(
                    ids_of(entries@)[i],
                )),
            r is Ok ==> (forall|other: u64|
                old(self).has_rem(other) && !ids_of(entries@).contains(other) ==> final(self).rem(
                    other,
                ) == old(self).rem(other) && final(self).mark(other) == old(self).mark(other)),
            r is Ok ==> final(self).accumulated_fees == old(self).accumulated_fees + old(
                self,
            ).batch_fee_total(ids_of(entries@)),
            r is Ok ==> final(self).transfers@ == old(self).transfers@ + old(
                self,
            ).settle_transfers(ids_of(entries@)),
            r is Ok ==> final(self).events@ == (old(self).events@.push(
                (Event::BatchStarted { size: entries@.len() as usize }),
            ) + old(self).settle_events(ids_of(entries@))).push(
                (Event::BatchCompleted { count: entries@.len() as usize, reason: 0 }),
            ),
            (old(self).balanced() && (forall|i: int|
                #![trigger ids_of(entries@)[i]]
                0 <= i < ids_of(entries@).len() ==> old(self).rem(ids_of(entries@)[i]).agent
                    != old(self).contract_address) ==> final(self).balanced()),
            old(self).fees_match_marks() ==> final(self).fees_match_marks(),
            forall|j: u64| old(self).has_rem(j) && old(self).mark(j) ==> final(self).mark(j),
    {
        if self.paused {
            return Err(ContractError::ContractPaused);
        }
        let n = entries.len();
        if n == 0 {
            return Err(ContractError::EmptyBatchSettlement);
        }
        if n > MAX_BATCH_SIZE {
            return Err(ContractError::BatchTooLarge);
        }
        let ghost ids = ids_of(entries@);
        let ghost ev_started = Event::BatchStarted { size: n };
        self.events.push(Event::BatchStarted { size: n });

        // Validation: every entry is checked against the untouched store.
        let mut k: usize = 0;
        while k < n
            invariant
                old(self).wf(),
                !old(self).paused,
                n == entries@.len(),
                0 < n <= MAX_BATCH_SIZE,
                ids == ids_of(entries@),
                ev_started == (Event::BatchStarted { size: n }),
                0 <= k <= n,
                *self == (SwiftRemitContract { events: self.events, ..*old(self) }),
                self.events@ == old(self).events@.push(ev_started),
                forall|i: int|
                    #![trigger ids[i]]
                    0 <= i < k ==> old(self).batch_entry_ok(ids[i], now),
                forall|p: int, q: int|
                    #![trigger ids[p], ids[q]]
                    0 <= p < q < k ==> ids[p] != ids[q],
            decreases n - k,
        {
            let id = entries[k].remittance_id;
            proof {
                assert(ids[k as int] == id);
            }
            let mut j: usize = 0;
            while j < k
                invariant
                    old(self).wf(),
                    !old(self).paused,
                    n == entries@.len(),
                    0 < n <= MAX_BATCH_SIZE,
                    ids == ids_of(entries@),
                    ev_started == (Event::BatchStarted { size: n }),
                    0 <= j <= k < n,
                    id == ids[k as int],
                    *self == (SwiftRemitContract { events: self.events, ..*old(self) }),
                    self.events@ == old(self).events@.push(ev_started),
                    forall|jj: int| 0 <= jj < j ==> ids[jj] != id,
                decreases k - j,
            {
                if entries[j].remittance_id == id {
                    proof {
                        assert(ids[j as int] == id);
                        assert(!distinct_ids(ids));
                    }
                    self.events.push(
                        Event::BatchFailed {
                            reason: ContractError::BatchValidationFailed.code(),
                        },
                    );
                    return Err(ContractError::BatchValidationFailed);
                }
                j = j + 1;
            }
            let valid: bool = {
                let m = self.remittances.len();
                if id < 1 || id > m as u64 {
                    false
                } else {
                    let idx = (id - 1) as usize;
                    let rec = self.remittances[idx];
                    if !matches!(rec.status, RemittanceStatus::Pending) {
                        false
                    } else if self.settled[idx] {
                        false
                    } else if match rec.expiry {
                        Some(expiry_time) => now > expiry_time,
                        None => false,
                    } {
                        false
                    } else if rec.agent == 0 {
                        false
                    } else {
                        true
                    }
                }
            };
            if !valid {
                proof {
                    assert(!old(self).batch_entry_ok(id, now));
                }
                self.events.push(
                    Event::BatchFailed { reason: ContractError::BatchValidationFailed.code() },
                );
                return Err(ContractError::BatchValidationFailed);
            }
            proof {
                assert(old(self).batch_entry_ok(id, now));
            }
            k = k + 1;
        }

        // Staging: the batch's fee total is summed with an overflow check,
        // still without any state change.
        let mut total_fee: i128 = 0;
        let mut k2: usize = 0;
        proof {
            assert(ids.take(0) =~= Seq::<u64>::empty());
        }
        while k2 < n
            invariant
                old(self).wf(),
                !old(self).paused,
                n == entries@.len(),
                0 < n <= MAX_BATCH_SIZE,
                ids == ids_of(entries@),
                ev_started == (Event::BatchStarted { size: n }),
                0 <= k2 <= n,
                old(self).batch_ok(ids, now),
                *self == (SwiftRemitContract { events: self.events, ..*old(self) }),
                self.events@ == old(self).events@.push(ev_started),
                total_fee == old(self).batch_fee_total(ids.take(k2 as int)),
                total_fee >= 0,
                old(self).accumulated_fees + total_fee <= i128::MAX,
            decreases n - k2,
        {
            let id = entries[k2].remittance_id;
            proof {
                assert(ids[k2 as int] == id);
                assert(old(self).batch_entry_ok(id, now));
                assert(wf_remittance(old(self).remittances@[id - 1]));
                assert(ids.take(k2 as int + 1).drop_last() =~= ids.take(k2 as int));
                assert(ids.take(k2 as int + 1).last() == ids[k2 as int]);
            }
            let m = self.remittances.len();
            proof {
                assert(id - 1 < m);
            }
            let idx = (id - 1) as usize;
            let rec = self.remittances[idx];
            let headroom = i128::MAX - self.accumulated_fees - total_fee;
            if rec.fee > headroom {
                proof {
                    assert forall|i: int|
                        0 <= i < ids.len() implies old(self).has_rem(#[trigger] ids[i]) by {
                        assert(old(self).batch_entry_ok(ids[i], now));
                    }
                    lemma_batch_fee_prefix(*old(self), ids, k2 as int + 1);
                }
                self.events.push(
                    Event::BatchFailed { reason: ContractError::Overflow.code() },
                );
                return Err(ContractError::Overflow);
            }
            total_fee = total_fee + rec.fee;
            k2 = k2 + 1;
        }
        proof {
            assert(ids.take(n as int) =~= ids);
        }

        // Execution: every entry settles; nothing can fail from here on.
        let mut settled_ids: Vec<u64> = Vec::new();
        let custody = self.contract_address;
        let mut k3: usize = 0;
        proof {
            assert(ids.take(0) =~= Seq::<u64>::empty());
            assert(self.transfers@ =~= old(self).transfers@ + old(self).settle_transfers(
                ids.take(0),
            ));
            assert(self.events@ =~= old(self).events@.push(ev_started) + old(self).settle_events(
                ids.take(0),
            ));
        }
        while k3 < n
            invariant
                old(self).wf(),
                !old(self).paused,
                n == entries@.len(),
                0 < n <= MAX_BATCH_SIZE,
                ids == ids_of(entries@),
                ev_started == (Event::BatchStarted { size: n }),
                0 <= k3 <= n,
                old(self).batch_ok(ids, now),
                total_fee == old(self).batch_fee_total(ids),
                total_fee >= 0,
                old(self).accumulated_fees + total_fee <= i128::MAX,
                custody == old(self).contract_address,
                settled_ids@ == ids.take(k3 as int),
                self.contract_address == old(self).contract_address,
                self.initialized == old(self).initialized,
                self.admin == old(self).admin,
                self.usdc_token == old(self).usdc_token,
                self.fee_bps == old(self).fee_bps,
                self.paused == old(self).paused,
                self.remittance_counter == old(self).remittance_counter,
                self.accumulated_fees == old(self).accumulated_fees,
                self.agents == old(self).agents,
                self.limits == old(self).limits,
                self.remittances@.len() == old(self).remittances@.len(),
                self.settled@.len() == old(self).settled@.len(),
                forall|x: int|
                    #![trigger self.remittances@[x]]
                    0 <= x < self.remittances@.len() ==> self.remittances@[x] == (if ids.take(
                        k3 as int,
                    ).contains((x + 1) as u64) {
                        completed_rem(old(self).remittances@[x])
                    } else {
                        old(self).remittances@[x]
                    }),
                forall|x: int|
                    #![trigger self.settled@[x]]
                    0 <= x < self.settled@.len() ==> self.settled@[x] == (if ids.take(
                        k3 as int,
                    ).contains((x + 1) as u64) {
                        true
                    } else {
                        old(self).settled@[x]
                    }),
                self.transfers@ == old(self).transfers@ + old(self).settle_transfers(
                    ids.take(k3 as int),
                ),
                self.events@ == old(self).events@.push(ev_started) + old(self).settle_events(
                    ids.take(k3 as int),
                ),
                pending_sum(self.remittances@) == pending_sum(old(self).remittances@) - old(
                    self,
                ).batch_amount_total(ids.take(k3 as int)),
                marked_fee_sum(self.remittances@, self.settled@) == marked_fee_sum(
                    old(self).remittances@,
                    old(self).settled@,
                ) + old(self).batch_fee_total(ids.take(k3 as int)),
                ((forall|i: int|
                    #![trigger ids[i]]
                    0 <= i < ids.len() ==> old(self).rem(ids[i]).agent != old(
                        self,
                    ).contract_address) ==> balance_of(self.transfers@, old(self).contract_address)
                    == balance_of(old(self).transfers@, old(self).contract_address) - (old(
                    self,
                ).batch_amount_total(ids.take(k3 as int)) - old(self).batch_fee_total(
                    ids.take(k3 as int),
                ))),
            decreases n - k3,
        {
            let ghost pre_loop = *self;
            let id = entries[k3].remittance_id;
            proof {
                assert(ids[k3 as int] == id);
                assert(old(self).batch_entry_ok(id, now));
                assert(wf_remittance(old(self).remittances@[id - 1]));
                if ids.take(k3 as int).contains(id) {
                    let w = choose|w: int| 0 <= w < k3 && ids.take(k3 as int)[w] == id;
                    assert(ids[w] == ids[k3 as int]);
                    assert(false);
                }
            }
            let m = self.remittances.len();
            proof {
                assert(id - 1 < m);
            }
            let idx = (id - 1) as usize;
            let found = self.remittances[idx];
            proof {
                assert(found == old(self).remittances@[id - 1]);
            }
            let payout = found.amount - found.fee;
            let outgoing = Transfer { from: custody, to: found.agent, amount: payout };
            let settled_record = Remittance { status: RemittanceStatus::Completed, ..found };
            proof {
                lemma_balance_push(self.transfers@, outgoing, custody);
                lemma_pending_sum_update(self.remittances@, idx as int, settled_record);
                lemma_marked_fee_sum_update(
                    self.remittances@,
                    self.settled@,
                    idx as int,
                    settled_record,
                    true,
                );
                assert(ids.take(k3 as int + 1).drop_last() =~= ids.take(k3 as int));
                assert(ids.take(k3 as int + 1).last() == ids[k3 as int]);
            }
            self.transfers.push(outgoing);
            self.remittances[idx] = settled_record;
            self.settled[idx] = true;
            self.events.push(
                Event::RemittanceCompleted {
                    id,
                    sender: found.sender,
                    agent: found.agent,
                    token: self.usdc_token,
                    payout,
                },
            );
            self.events.push(
                Event::SettlementCompleted {
                    sender: found.sender,
                    agent: found.agent,
                    token: self.usdc_token,
                    payout,
                },
            );
            settled_ids.push(id);
            proof {
                let taken = ids.take(k3 as int + 1);
                assert(settled_ids@ =~= taken);
                assert(self.transfers@ =~= old(self).transfers@ + old(self).settle_transfers(
                    taken,
                ));
                assert(self.events@ =~= old(self).events@.push(ev_started) + old(
                    self,
                ).settle_events(taken));
                assert forall|x: int|
                    #![trigger self.remittances@[x]]
                    0 <= x < self.remittances@.len() implies self.remittances@[x] == (if
                taken.contains((x + 1) as u64) {
                    completed_rem(old(self).remittances@[x])
                } else {
                    old(self).remittances@[x]
                }) by {
                    if x == idx as int {
                        assert(taken.contains((x + 1) as u64));
                    } else {
                        assert(self.remittances@[x] == pre_loop.remittances@[x]);
                        if taken.contains((x + 1) as u64) {
                            let w = choose|w: int| 0 <= w < taken.len() && taken[w] == (x + 1) as u64;
                            assert(w < k3);
                            assert(ids.take(k3 as int)[w] == (x + 1) as u64);
                            assert(ids.take(k3 as int).contains((x + 1) as u64));
                        } else {
                            if ids.take(k3 as int).contains((x + 1) as u64) {
                                let w = choose|w: int|
                                    0 <= w < k3 && ids.take(k3 as int)[w] == (x + 1) as u64;
                                assert(taken[w] == (x + 1) as u64);
                                assert(taken.contains((x + 1) as u64));
                            }
                        }
                    }
                }
                assert forall|x: int|
                    #![trigger self.settled@[x]]
                    0 <= x < self.settled@.len() implies self.settled@[x] == (if taken.contains(
                    (x + 1) as u64,
                ) {
                    true
                } else {
                    old(self).settled@[x]
                }) by {
                    if x == idx as int {
                        assert(taken.contains((x + 1) as u64));
                    } else {
                        assert(self.settled@[x] == pre_loop.settled@[x]);
                        if taken.contains((x + 1) as u64) {
                            let w = choose|w: int| 0 <= w < taken.len() && taken[w] == (x + 1) as u64;
                            assert(w < k3);
                            assert(ids.take(k3 as int)[w] == (x + 1) as u64);
                            assert(ids.take(k3 as int).contains((x + 1) as u64));
                        } else {
                            if ids.take(k3 as int).contains((x + 1) as u64) {
                                let w = choose|w: int|
                                    0 <= w < k3 && ids.take(k3 as int)[w] == (x + 1) as u64;
                                assert(taken[w] == (x + 1) as u64);
                                assert(taken.contains((x + 1) as u64));
                            }
                        }
                    }
                }
            }
            k3 = k3 + 1;
        }
        proof {
            assert(ids.take(n as int) =~= ids);
        }
        let new_fees = self.accumulated_fees + total_fee;
        self.accumulated_fees = new_fees;
        self.events.push(Event::BatchCompleted { count: n, reason: 0 });
        proof {
            assert(self.events@ =~= (old(self).events@.push(ev_started) + old(self).settle_events(
                ids,
            )).push((Event::BatchCompleted { count: n, reason: 0 })));
            assert(old(self).batch_entry_ok(ids[0], now));
            assert(old(self).initialized);
            assert forall|i: int|
                0 <= i < self.remittances@.len() implies (#[trigger] self.remittances@[i]).id == i
                + 1 && wf_remittance(self.remittances@[i]) by {
                assert(self.remittances@[i] == (if ids.contains((i + 1) as u64) {
                    completed_rem(old(self).remittances@[i])
                } else {
                    old(self).remittances@[i]
                }));
            }
            assert forall|i: int|
                #![trigger ids[i]]
                0 <= i < ids.len() implies self.rem(ids[i]) == completed_rem(old(self).rem(ids[i]))
                && self.mark(ids[i]) by {
                assert(ids.contains(ids[i]));
                assert(self.remittances@[ids[i] - 1] == completed_rem(
                    old(self).remittances@[ids[i] - 1],
                ));
                assert(self.settled@[ids[i] - 1]);
            }
            assert forall|j: u64|
                old(self).has_rem(j) && old(self).mark(j) implies self.mark(j) by {
                assert(self.settled@[j - 1] == (if ids.contains(j) {
                    true
                } else {
                    old(self).settled@[j - 1]
                }));
            }
        }
        Ok(BatchSettlementResult { settled_ids })
    }
}

} // verus!
