//! The contract state and its mathematical model.
//!
//! `SwiftRemitContract` is the explicit store object every operation works
//! on: the admin configuration, the remittance table with its parallel
//! settlement marks, the limit tracker, and the append-only logs of value
//! transfers and events. The spec functions here define the model the
//! operation contracts are stated over: custody balance, outstanding pending
//! value, and the fee total of the marked settlements.

use vstd::prelude::*;

use crate::events::Event;
use crate::limits::LimitBook;
use crate::types::Remittance;
use crate::types::RemittanceStatus;
use crate::types::Transfer;
use crate::types::wf_remittance;

verus! {

/// What one logged transfer contributes to the balance of principal `who`.
pub open spec fn transfer_delta(t: Transfer, who: u64) -> int {
    (if t.to == who {
        t.amount as int
    } else {
        0
    }) - (if t.from == who {
        t.amount as int
    } else {
        0
    })
}

/// The net balance of principal `who` after replaying the transfer log.
pub open spec fn balance_of(ts: Seq<Transfer>, who: u64) -> int
    decreases ts.len(),
{
    if ts.len() == 0 {
        0
    } else {
        balance_of(ts.drop_last(), who) + transfer_delta(ts.last(), who)
    }
}

/// What one remittance record contributes to the outstanding pending value.
pub open spec fn pending_part(r: Remittance) -> int {
    if r.status is Pending {
        r.amount as int
    } else {
        0
    }
}

/// The summed gross amounts of all still-pending remittances.
pub open spec fn pending_sum(rs: Seq<Remittance>) -> int
    decreases rs.len(),
{
    if rs.len() == 0 {
        0
    } else {
        pending_sum(rs.drop_last()) + pending_part(rs.last())
    }
}

/// The summed fees of all remittances whose settlement mark is set.
pub open spec fn marked_fee_sum(rs: Seq<Remittance>, marks: Seq<bool>) -> int
    decreases rs.len(),
{
    if rs.len() == 0 || marks.len() != rs.len() {
        0
    } else {
        marked_fee_sum(rs.drop_last(), marks.drop_last()) + (if marks.last() {
            rs.last().fee as int
        } else {
            0
        })
    }
}

/// Appending a transfer moves each balance by that transfer's delta.
pub proof fn lemma_balance_push(ts: Seq<Transfer>, t: Transfer, who: u64)
    ensures
        balance_of(ts.push(t), who) == balance_of(ts, who) + transfer_delta(t, who),
{
    assert(ts.push(t).drop_last() =~= ts);
}

/// Appending a remittance record adds its pending contribution.
pub proof fn lemma_pending_sum_push(rs: Seq<Remittance>, r: Remittance)
    ensures
        pending_sum(rs.push(r)) == pending_sum(rs) + pending_part(r),
{
    assert(rs.push(r).drop_last() =~= rs);
}

/// Replacing the record at `i` shifts the pending total by the difference
/// of the two records' contributions.
pub proof fn lemma_pending_sum_update(rs: Seq<Remittance>, i: int, r: Remittance)
    requires
        0 <= i < rs.len(),
    ensures
        pending_sum(rs.update(i, r)) == pending_sum(rs) - pending_part(rs[i]) + pending_part(r),
    decreases rs.len(),
{
    let updated = rs.update(i, r);
    if i == rs.len() - 1 {
        assert(updated.drop_last() =~= rs.drop_last());
        assert(updated.last() == r);
    } else {
        assert(updated.drop_last() =~= rs.drop_last().update(i, r));
        assert(updated.last() == rs.last());
        lemma_pending_sum_update(rs.drop_last(), i, r);
        assert(rs.drop_last()[i] == rs[i]);
    }
}

/// Appending a record and its mark adds the fee when the mark is set.
pub proof fn lemma_marked_fee_sum_push(
    rs: Seq<Remittance>,
    marks: Seq<bool>,
    r: Remittance,
    m: bool,
)
    requires
        rs.len() == marks.len(),
    ensures
        marked_fee_sum(rs.push(r), marks.push(m)) == marked_fee_sum(rs, marks) + (if m {
            r.fee as int
        } else {
            0
        }),
{
    assert(rs.push(r).drop_last() =~= rs);
    assert(marks.push(m).drop_last() =~= marks);
}

/// Replacing the record and mark at `i` shifts the marked fee total by the
/// difference of the old and new contributions.
pub proof fn lemma_marked_fee_sum_update(
    rs: Seq<Remittance>,
    marks: Seq<bool>,
    i: int,
    r: Remittance,
    m: bool,
)
    requires
        rs.len() == marks.len(),
        0 <= i < rs.len(),
    ensures
        marked_fee_sum(rs.update(i, r), marks.update(i, m)) == marked_fee_sum(rs, marks) - (if
        marks[i] {
            rs[i].fee as int
        } else {
            0
        }) + (if m {
            r.fee as int
        } else {
            0
        }),
    decreases rs.len(),
{
    let urs = rs.update(i, r);
    let ums = marks.update(i, m);
    if i == rs.len() - 1 {
        assert(urs.drop_last() =~= rs.drop_last());
        assert(ums.drop_last() =~= marks.drop_last());
        assert(urs.last() == r);
        assert(ums.last() == m);
    } else {
        assert(urs.drop_last() =~= rs.drop_last().update(i, r));
        assert(ums.drop_last() =~= marks.drop_last().update(i, m));
        assert(urs.last() == rs.last());
        assert(ums.last() == marks.last());
        lemma_marked_fee_sum_update(rs.drop_last(), marks.drop_last(), i, r, m);
        assert(rs.drop_last()[i] == rs[i]);
        assert(marks.drop_last()[i] == marks[i]);
    }
}

/// A ledger in which no remittance is pending has no outstanding value.
pub proof fn lemma_pending_sum_terminal(rs: Seq<Remittance>)
    requires
        forall|i: int| 0 <= i < rs.len() ==> !((#[trigger] rs[i]).status is Pending),
    ensures
        pending_sum(rs) == 0,
    decreases rs.len(),
{
    if rs.len() > 0 {
        lemma_pending_sum_terminal(rs.drop_last());
        assert(rs.last() == rs[rs.len() - 1]);
    }
}

/// Membership in a pushed sequence: the new element, or an old member.
pub proof fn lemma_contains_push<T>(s: Seq<T>, v: T, x: T)
    ensures
        s.push(v).contains(x) == (s.contains(x) || x == v),
{
    if s.contains(x) {
        let i = choose|i: int| 0 <= i < s.len() && s[i] == x;
        assert(s.push(v)[i] == x);
    }
    if x == v {
        assert(s.push(v)[s.len() as int] == x);
    }
    if s.push(v).contains(x) {
        let i = choose|i: int| 0 <= i < s.push(v).len() && s.push(v)[i] == x;
        if i < s.len() {
            assert(s[i] == x);
        }
    }
}

/// Linear membership test on a vector of principals.
pub(crate) fn contains_u64(v: &Vec<u64>, x: u64) -> (r: bool)
    ensures
        r == v@.contains(x),
{
    let n = v.len();
    let mut i: usize = 0;
    while i < n
        invariant
            n == v@.len(),
            0 <= i <= n,
            forall|k: int| 0 <= k < i ==> v@[k] != x,
        decreases n - i,
    {
        if v[i] == x {
            assert(v@[i as int] == x);
            return true;
        }
        i = i + 1;
    }
    false
}

/// The remittance settlement ledger: all persistent contract state together
/// with the logs of its observable side effects.
pub struct SwiftRemitContract {
    /// The contract's own address; the custody account of held funds.
    pub contract_address: u64,
    /// Whether `initialize` has run; set exactly once.
    pub initialized: bool,
    /// The administrator principal.
    pub admin: u64,
    /// The value-asset (token) identifier payouts are made in.
    pub usdc_token: u64,
    /// Platform fee rate in basis points, between 0 and 10000.
    pub fee_bps: u32,
    /// Global pause switch gating payout confirmation and batch settlement.
    pub paused: bool,
    /// Monotonic id counter; equals the number of remittances ever created.
    pub remittance_counter: u64,
    /// Fees collected by completed settlements and not yet withdrawn.
    pub accumulated_fees: i128,
    /// The registered payout agents.
    pub agents: Vec<u64>,
    /// All remittances ever created; the record for id `n` sits at index
    /// `n - 1`. Records are never deleted.
    pub remittances: Vec<Remittance>,
    /// The settlement marks, parallel to `remittances`: once the mark for an
    /// id is set, a payout for that id can never execute again. Marks are
    /// independent of the mutable `status` field and are never cleared.
    pub settled: Vec<bool>,
    /// The rolling-window limit tracker.
    pub limits: LimitBook,
    /// Append-only log of every value transfer the contract performed.
    pub transfers: Vec<Transfer>,
    /// Append-only log of every emitted domain event.
    pub events: Vec<Event>,
}

impl SwiftRemitContract {
    /// A remittance with this id exists (ids run from 1 to the counter).
    pub open spec fn has_rem(self, id: u64) -> bool {
        1 <= id && id <= self.remittances@.len()
    }

    /// The stored record of remittance `id`.
    pub open spec fn rem(self, id: u64) -> Remittance {
        self.remittances@[id - 1]
    }

    /// Whether the settlement mark for remittance `id` is set.
    pub open spec fn mark(self, id: u64) -> bool {
        self.settled@[id - 1]
    }

    /// Whether `a` is a registered payout agent.
    pub open spec fn agent_is_registered(self, a: u64) -> bool {
        self.agents@.contains(a)
    }

    /// The funds currently held in custody: the net balance of the
    /// contract's own address on the transfer log.
    pub open spec fn custody_balance(self) -> int {
        balance_of(self.transfers@, self.contract_address)
    }

    /// The gross value of all still-pending remittances.
    pub open spec fn pending_outstanding(self) -> int {
        pending_sum(self.remittances@)
    }

    /// The summed fees of all settlements whose mark is set.
    pub open spec fn settled_fee_total(self) -> int {
        marked_fee_sum(self.remittances@, self.settled@)
    }

    /// Conservation of custody: what the contract holds is exactly the
    /// accumulated fees plus the gross value of the pending remittances.
    /// Established at construction and preserved by every operation.
    pub open spec fn balanced(self) -> bool {
        self.custody_balance() == self.accumulated_fees + self.pending_outstanding()
    }

    /// Fee conservation: the accumulated fee balance is exactly the sum of
    /// the fees of the marked settlements. Holds from construction through
    /// any sequence of creations, confirmations and cancellations; only a
    /// fee withdrawal takes the balance out of this correspondence.
    pub open spec fn fees_match_marks(self) -> bool {
        self.accumulated_fees == self.settled_fee_total()
    }

    /// Structural well-formedness of the ledger.
    pub open spec fn wf(self) -> bool {
        &&& self.remittances@.len() == self.settled@.len()
        &&& self.remittances@.len() == self.remittance_counter as int
        &&& forall|i: int|
            0 <= i < self.remittances@.len() ==> (#[trigger] self.remittances@[i]).id == i + 1
        &&& forall|i: int|
            0 <= i < self.remittances@.len() ==> wf_remittance(#[trigger] self.remittances@[i])
        &&& self.accumulated_fees >= 0
        &&& self.fee_bps <= 10000
        &&& forall|p: int, q: int|
            #![trigger self.agents@[p], self.agents@[q]]
            0 <= p < q < self.agents@.len() ==> self.agents@[p] != self.agents@[q]
        &&& (!self.initialized ==> self.remittance_counter == 0 && self.agents@.len() == 0
            && self.accumulated_fees == 0 && !self.paused)
        &&& self.limits.wf()
    }

    /// The two ledgers agree on everything but the event log: same
    /// configuration, same remittance records and marks, same limit state,
    /// and the same transfer log (hence the same custody balance).
    pub open spec fn same_store(self, other: Self) -> bool {
        &&& other.contract_address == self.contract_address
        &&& other.initialized == self.initialized
        &&& other.admin == self.admin
        &&& other.usdc_token == self.usdc_token
        &&& other.fee_bps == self.fee_bps
        &&& other.paused == self.paused
        &&& other.remittance_counter == self.remittance_counter
        &&& other.accumulated_fees == self.accumulated_fees
        &&& other.agents@ == self.agents@
        &&& other.remittances@ == self.remittances@
        &&& other.settled@ == self.settled@
        &&& other.limits.caps@ == self.limits.caps@
        &&& other.limits.history@ == self.limits.history@
        &&& other.transfers@ == self.transfers@
    }

    /// A fresh, uninitialized ledger for the contract at `contract_address`:
    /// empty stores, empty logs, balanced custody.
    pub fn new(contract_address: u64) -> (r: Self)
        ensures
            r.wf(),
            !r.initialized,
            r.contract_address == contract_address,
            r.remittances@.len() == 0,
            r.transfers@.len() == 0,
            r.events@.len() == 0,
            r.limits.caps@.len() == 0,
            r.limits.history@.len() == 0,
            r.custody_balance() == 0,
            r.balanced(),
            r.fees_match_marks(),
            forall|a: u64| !r.agent_is_registered(a),
    {
        SwiftRemitContract {
            contract_address,
            initialized: false,
            admin: 0,
            usdc_token: 0,
            fee_bps: 0,
            paused: false,
            remittance_counter: 0,
            accumulated_fees: 0,
            agents: Vec::new(),
            remittances: Vec::new(),
            settled: Vec::new(),
            limits: LimitBook::new(),
            transfers: Vec::new(),
            events: Vec::new(),
        }
    }
}

/// Conservation of custody at rest: once every remittance has reached a
/// terminal state, a balanced ledger's custody holds exactly the
/// accumulated fees and nothing else.
pub proof fn lemma_custody_after_full_settlement(s: SwiftRemitContract)
    requires
        s.balanced(),
        forall|i: int|
            0 <= i < s.remittances@.len() ==> !((#[trigger] s.remittances@[i]).status is Pending),
    ensures
        s.custody_balance() == s.accumulated_fees,
{
    lemma_pending_sum_terminal(s.remittances@);
}

} // verus!
