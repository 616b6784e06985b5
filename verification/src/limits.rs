//! The limit tracker: per-corridor rolling 24-hour spending caps.
//!
//! A cap is keyed by `(currency, country)`. Before a remittance is created,
//! the tracker sums the sender's recorded transfer amounts inside the
//! trailing 24-hour window and refuses the new transfer when a configured cap
//! would be exceeded; otherwise it appends a fresh history record.

use vstd::prelude::*;

use crate::types::DailyLimit;
use crate::types::TransferRecord;

verus! {

/// Length of the rolling window, in seconds.
pub const WINDOW_SECONDS: u64 = 86400;

/// One recorded transfer of a sender in a corridor, feeding the rolling sum.
#[derive(Clone, Copy, Debug, PartialEq, Eq, Structural)]
pub struct HistoryEntry {
    pub sender: u64,
    pub currency: u32,
    pub country: u32,
    pub record: TransferRecord,
}

/// A record at time `t` lies in the trailing window of `now`: it is no newer
/// than `now` and strictly less than 24 hours old. A record aged exactly 24
/// hours is already outside the window.
pub open spec fn in_window(t: u64, now: u64) -> bool {
    t <= now && now - t < WINDOW_SECONDS
}

/// What one history entry contributes to the rolling sum of
/// `(sender, currency, country)` at time `now`.
pub open spec fn contribution(
    e: HistoryEntry,
    sender: u64,
    currency: u32,
    country: u32,
    now: u64,
) -> int {
    if e.sender == sender && e.currency == currency && e.country == country
        && in_window(e.record.timestamp, now) {
        e.record.amount as int
    } else {
        0
    }
}

/// The sender's transfer volume for a corridor within the trailing 24-hour
/// window ending at `now`.
pub open spec fn window_sum(
    h: Seq<HistoryEntry>,
    sender: u64,
    currency: u32,
    country: u32,
    now: u64,
) -> int
    decreases h.len(),
{
    if h.len() == 0 {
        0
    } else {
        window_sum(h.drop_last(), sender, currency, country, now) + contribution(
            h.last(),
            sender,
            currency,
            country,
            now,
        )
    }
}

/// The cap configured for `(currency, country)`, if any: the first stored
/// row with that key.
pub open spec fn cap_for(caps: Seq<DailyLimit>, currency: u32, country: u32) -> Option<i128>
    decreases caps.len(),
{
    if caps.len() == 0 {
        None
    } else if caps[0].currency == currency && caps[0].country == country {
        Some(caps[0].limit)
    } else {
        cap_for(caps.drop_first(), currency, country)
    }
}

/// The rolling sum only grows as more history entries are considered,
/// because every contribution is non-negative.
pub proof fn lemma_window_sum_prefix(
    h: Seq<HistoryEntry>,
    sender: u64,
    currency: u32,
    country: u32,
    now: u64,
    i: int,
)
    requires
        0 <= i <= h.len(),
        forall|k: int| 0 <= k < h.len() ==> (#[trigger] h[k]).record.amount >= 0,
    ensures
        window_sum(h.take(i), sender, currency, country, now) <= window_sum(
            h,
            sender,
            currency,
            country,
            now,
        ),
    decreases h.len() - i,
{
    if i == h.len() {
        assert(h.take(i) =~= h);
    } else {
        lemma_window_sum_prefix(h, sender, currency, country, now, i + 1);
        assert(h.take(i + 1).drop_last() =~= h.take(i));
        assert(h.take(i + 1).last() == h[i]);
    }
}

/// Replacing the row at `i` with a row of the same corridor key changes the
/// looked-up cap for that key to the new value and leaves every other key's
/// cap unchanged, provided keys are pairwise distinct.
proof fn lemma_cap_for_update(caps: Seq<DailyLimit>, i: int, v: DailyLimit)
    requires
        0 <= i < caps.len(),
        caps[i].currency == v.currency && caps[i].country == v.country,
        forall|p: int, q: int|
            0 <= p < q < caps.len() ==> !((#[trigger] caps[p]).currency == (#[trigger] caps[q]).currency
                && caps[p].country == caps[q].country),
    ensures
        cap_for(caps.update(i, v), v.currency, v.country) == Some(v.limit),
        forall|c2: u32, y2: u32|
            !(c2 == v.currency && y2 == v.country) ==> cap_for(caps.update(i, v), c2, y2)
                == cap_for(caps, c2, y2),
    decreases caps.len(),
{
    let updated = caps.update(i, v);
    if i == 0 {
        assert(updated[0] == v);
        assert(updated.drop_first() =~= caps.drop_first());
        assert forall|c2: u32, y2: u32| !(c2 == v.currency && y2 == v.country) implies cap_for(
            updated,
            c2,
            y2,
        ) == cap_for(caps, c2, y2) by {
            assert(caps[0].currency == v.currency && caps[0].country == v.country);
        }
    } else {
        let tail = caps.drop_first();
        assert(updated.drop_first() =~= tail.update(i - 1, v));
        assert forall|p: int, q: int| 0 <= p < q < tail.len() implies !((#[trigger] tail[p]).currency
            == (#[trigger] tail[q]).currency && tail[p].country == tail[q].country) by {
            assert(tail[p] == caps[p + 1]);
            assert(tail[q] == caps[q + 1]);
        }
        assert(tail[i - 1] == caps[i]);
        lemma_cap_for_update(tail, i - 1, v);
        assert(!(caps[0].currency == caps[i].currency && caps[0].country == caps[i].country));
        assert(updated[0] == caps[0]);
        assert(cap_for(updated, v.currency, v.country) == Some(v.limit));
        assert forall|c2: u32, y2: u32| !(c2 == v.currency && y2 == v.country) implies cap_for(
            updated,
            c2,
            y2,
        ) == cap_for(caps, c2, y2) by {
            if caps[0].currency == c2 && caps[0].country == y2 {
                assert(cap_for(updated, c2, y2) == Some(updated[0].limit));
                assert(cap_for(caps, c2, y2) == Some(caps[0].limit));
            } else {
                assert(cap_for(updated, c2, y2) == cap_for(tail.update(i - 1, v), c2, y2));
                assert(cap_for(caps, c2, y2) == cap_for(tail, c2, y2));
            }
        }
    }
}

/// Appending a row for a key that has no stored cap yet gives that key the
/// new cap and leaves every other key's cap unchanged.
proof fn lemma_cap_for_push(caps: Seq<DailyLimit>, v: DailyLimit)
    requires
        cap_for(caps, v.currency, v.country) is None,
    ensures
        cap_for(caps.push(v), v.currency, v.country) == Some(v.limit),
        forall|c2: u32, y2: u32|
            !(c2 == v.currency && y2 == v.country) ==> cap_for(caps.push(v), c2, y2) == cap_for(
                caps,
                c2,
                y2,
            ),
    decreases caps.len(),
{
    let extended = caps.push(v);
    if caps.len() == 0 {
        assert(extended[0] == v);
        assert(extended.drop_first() =~= Seq::<DailyLimit>::empty());
        assert forall|c2: u32, y2: u32| !(c2 == v.currency && y2 == v.country) implies cap_for(
            extended,
            c2,
            y2,
        ) == cap_for(caps, c2, y2) by {
            assert(cap_for(extended, c2, y2) == cap_for(extended.drop_first(), c2, y2));
        }
    } else {
        assert(extended[0] == caps[0]);
        assert(extended.drop_first() =~= caps.drop_first().push(v));
        assert(!(caps[0].currency == v.currency && caps[0].country == v.country));
        lemma_cap_for_push(caps.drop_first(), v);
        assert(cap_for(extended, v.currency, v.country) == Some(v.limit));
        assert forall|c2: u32, y2: u32| !(c2 == v.currency && y2 == v.country) implies cap_for(
            extended,
            c2,
            y2,
        ) == cap_for(caps, c2, y2) by {
            if !(caps[0].currency == c2 && caps[0].country == y2) {
                assert(cap_for(extended, c2, y2) == cap_for(caps.drop_first().push(v), c2, y2));
                assert(cap_for(caps, c2, y2) == cap_for(caps.drop_first(), c2, y2));
            }
        }
    }
}

/// The limit tracker's state: the configured caps and the transfer history
/// feeding the rolling sums.
pub struct LimitBook {
    pub caps: Vec<DailyLimit>,
    pub history: Vec<HistoryEntry>,
}

impl LimitBook {
    /// Well-formedness: corridor keys are pairwise distinct, caps are
    /// non-negative, and every recorded amount is strictly positive.
    pub open spec fn wf(self) -> bool {
        &&& forall|p: int, q: int|
            0 <= p < q < self.caps@.len() ==> !((#[trigger] self.caps@[p]).currency
                == (#[trigger] self.caps@[q]).currency && self.caps@[p].country
                == self.caps@[q].country)
        &&& forall|i: int| 0 <= i < self.caps@.len() ==> (#[trigger] self.caps@[i]).limit >= 0
        &&& forall|i: int|
            0 <= i < self.history@.len() ==> (#[trigger] self.history@[i]).record.amount > 0
    }

    /// An empty tracker: no caps configured, no history.
    pub fn new() -> (r: Self)
        ensures
            r.wf(),
            r.caps@.len() == 0,
            r.history@.len() == 0,
    {
        LimitBook { caps: Vec::new(), history: Vec::new() }
    }

    /// Looks up the cap row stored for `(currency, country)`, if any.
    pub fn find_cap(&self, currency: u32, country: u32) -> (r: Option<DailyLimit>)
        ensures
            match r {
                Some(d) => d.currency == currency && d.country == country && cap_for(
                    self.caps@,
                    currency,
                    country,
                ) == Some(d.limit),
                None => cap_for(self.caps@, currency, country) is None,
            },
    {
        let n = self.caps.len();
        let mut i: usize = 0;
        proof {
            assert(self.caps@.skip(0) =~= self.caps@);
        }
        while i < n
            invariant
                n == self.caps@.len(),
                0 <= i <= n,
                cap_for(self.caps@, currency, country) == cap_for(
                    self.caps@.skip(i as int),
                    currency,
                    country,
                ),
            decreases n - i,
        {
            let row = self.caps[i];
            proof {
                assert(self.caps@.skip(i as int)[0] == self.caps@[i as int]);
                assert(self.caps@.skip(i as int).drop_first() =~= self.caps@.skip(i as int + 1));
            }
            if row.currency == currency && row.country == country {
                return Some(row);
            }
            i = i + 1;
        }
        proof {
            assert(self.caps@.skip(n as int) =~= Seq::<DailyLimit>::empty());
        }
        None
    }

    /// Sets or replaces the cap for `(currency, country)`. Every other
    /// corridor keeps its cap, and the history is untouched.
    pub fn set_cap(&mut self, currency: u32, country: u32, limit: i128)
        requires
            old(self).wf(),
            limit >= 0,
        ensures
            final(self).wf(),
            cap_for(final(self).caps@, currency, country) == Some(limit),
            forall|c2: u32, y2: u32|
                !(c2 == currency && y2 == country) ==> cap_for(final(self).caps@, c2, y2)
                    == cap_for(old(self).caps@, c2, y2),
            final(self).history@ == old(self).history@,
    {
        let row = DailyLimit { currency, country, limit };
        let n = self.caps.len();
        let mut i: usize = 0;
        while i < n
            invariant
                old(self).wf(),
                limit >= 0,
                row == (DailyLimit { currency, country, limit }),
                n == self.caps@.len(),
                0 <= i <= n,
                self.caps@ == old(self).caps@,
                self.history@ == old(self).history@,
                forall|k: int|
                    0 <= k < i ==> !((#[trigger] self.caps@[k]).currency == currency
                        && self.caps@[k].country == country),
            decreases n - i,
        {
            let found = self.caps[i];
            if found.currency == currency && found.country == country {
                self.caps[i] = row;
                proof {
                    lemma_cap_for_update(old(self).caps@, i as int, row);
                    let cs = self.caps@;
                    assert(cs == old(self).caps@.update(i as int, row));
                    assert forall|k: int| 0 <= k < cs.len() implies (#[trigger] cs[k]).currency
                        == old(self).caps@[k].currency && cs[k].country
                        == old(self).caps@[k].country && cs[k].limit >= 0 by {
                        if k != i {
                            assert(cs[k] == old(self).caps@[k]);
                        }
                    }
                }
                return ;
            }
            i = i + 1;
        }
        proof {
            lemma_cap_for_none(self.caps@, currency, country);
        }
        self.caps.push(row);
        proof {
            lemma_cap_for_push(old(self).caps@, row);
            let cs = self.caps@;
            assert(cs == old(self).caps@.push(row));
            assert forall|p: int, q: int| 0 <= p < q < cs.len() implies !((#[trigger] cs[p]).currency
                == (#[trigger] cs[q]).currency && cs[p].country == cs[q].country) by {
                if q < cs.len() - 1 {
                    assert(cs[p] == old(self).caps@[p]);
                    assert(cs[q] == old(self).caps@[q]);
                } else {
                    assert(cs[p] == old(self).caps@[p]);
                    assert(cs[q] == row);
                }
            }
        }
    }
}

/// Whether a record at time `t` lies in the trailing window of `now`.
fn record_in_window(t: u64, now: u64) -> (r: bool)
    ensures
        r == in_window(t, now),
{
    t <= now && now - t < WINDOW_SECONDS
}

impl LimitBook {
    /// The rolling-window check and recording step run before a remittance
    /// is created. When a cap is configured for the corridor and the
    /// sender's window volume plus `amount` would exceed it, the call
    /// refuses and records nothing; otherwise it appends a fresh history
    /// record at time `now`. A volume exactly at the cap is allowed.
    pub fn check_and_record(
        &mut self,
        sender: u64,
        currency: u32,
        country: u32,
        amount: i128,
        now: u64,
    ) -> (ok: bool)
        requires
            old(self).wf(),
            amount > 0,
        ensures
            final(self).wf(),
            ok == !(match cap_for(old(self).caps@, currency, country) {
                Some(cap) => window_sum(old(self).history@, sender, currency, country, now)
                    + amount > cap,
                None => false,
            }),
            !ok ==> *final(self) == *old(self),
            ok ==> final(self).history@ == old(self).history@.push(
                (HistoryEntry {
                    sender,
                    currency,
                    country,
                    record: TransferRecord { timestamp: now, amount },
                }),
            ) && final(self).caps@ == old(self).caps@,
    {
        if let Some(row) = self.find_cap(currency, country) {
            let cap = row.limit;
            let n = self.history.len();
            let mut total: i128 = 0;
            let mut i: usize = 0;
            proof {
                assert(self.history@.take(0) =~= Seq::<HistoryEntry>::empty());
            }
            while i < n
                invariant
                    old(self).wf(),
                    amount > 0,
                    cap_for(old(self).caps@, currency, country) == Some(cap),
                    self.caps@ == old(self).caps@,
                    self.history@ == old(self).history@,
                    n == self.history@.len(),
                    0 <= i <= n,
                    total == window_sum(
                        self.history@.take(i as int),
                        sender,
                        currency,
                        country,
                        now,
                    ),
                    total >= 0,
                decreases n - i,
            {
                let e = self.history[i];
                proof {
                    assert(self.history@.take(i as int + 1).drop_last() =~= self.history@.take(
                        i as int,
                    ));
                    assert(self.history@.take(i as int + 1).last() == self.history@[i as int]);
                }
                if e.sender == sender && e.currency == currency && e.country == country
                    && record_in_window(e.record.timestamp, now) {
                    if total > i128::MAX - e.record.amount {
                        proof {
                            lemma_window_sum_prefix(
                                self.history@,
                                sender,
                                currency,
                                country,
                                now,
                                i as int + 1,
                            );
                        }
                        return false;
                    }
                    total = total + e.record.amount;
                }
                i = i + 1;
            }
            proof {
                assert(self.history@.take(n as int) =~= self.history@);
            }
            if total > cap {
                return false;
            }
            if amount > cap - total {
                return false;
            }
        }
        self.history.push(
            HistoryEntry { sender, currency, country, record: TransferRecord { timestamp: now, amount } },
        );
        proof {
            assert forall|k: int| 0 <= k < self.history@.len() implies (#[trigger] self.history@[k]).record.amount
                > 0 by {
                if k < old(self).history@.len() {
                    assert(self.history@[k] == old(self).history@[k]);
                } else {
                    assert(self.history@[k] == self.history@.last());
                }
            }
        }
        true
    }
}

/// A key that matches no stored row has no cap.
proof fn lemma_cap_for_none(caps: Seq<DailyLimit>, currency: u32, country: u32)
    requires
        forall|k: int|
            0 <= k < caps.len() ==> !((#[trigger] caps[k]).currency == currency && caps[k].country
                == country),
    ensures
        cap_for(caps, currency, country) is None,
    decreases caps.len(),
{
    if caps.len() > 0 {
        lemma_cap_for_none(caps.drop_first(), currency, country);
    }
}

} // verus!
