//! The admin control plane: one-time initialization, the agent registry,
//! fee-rate configuration, the pause switch, fee withdrawal, and the
//! corridor cap configuration.

use vstd::prelude::*;

use crate::auth::AuthContext;
use crate::auth::valid_address;
use crate::errors::ContractError;
use crate::events::Event;
use crate::limits::cap_for;
use crate::state::SwiftRemitContract;
use crate::state::contains_u64;
use crate::state::lemma_balance_push;
use crate::state::lemma_contains_push;
use crate::types::DailyLimit;
use crate::types::Transfer;

verus! {

impl SwiftRemitContract {
    /// One-time setup of the admin configuration. Fails with
    /// `AlreadyInitialized` on a second call and with `InvalidFeeBps` for a
    /// rate above 10000 basis points; otherwise stores the configuration
    /// and zeroes the counters.
    pub fn initialize(&mut self, admin: u64, usdc_token: u64, fee_bps: u32) -> (r: Result<
        (),
        ContractError,
    >)
        requires
            old(self).wf(),
        ensures
            final(self).wf(),
            r == Err::<(), ContractError>(ContractError::AlreadyInitialized) <==> old(
                self,
            ).initialized,
            (r == Err::<(), ContractError>(ContractError::InvalidFeeBps) <==> (!old(
                self,
            ).initialized && fee_bps > 10000)),
            r is Ok <==> (!old(self).initialized && fee_bps <= 10000),
            r is Err ==> *final(self) == *old(self),
            r is Ok ==> (*final(self) == (SwiftRemitContract {
                initialized: true,
                admin,
                usdc_token,
                fee_bps,
                ..*old(self)
            })),
            old(self).balanced() ==> final(self).balanced(),
            old(self).fees_match_marks() ==> final(self).fees_match_marks(),
    {
        if self.initialized {
            return Err(ContractError::AlreadyInitialized);
        }
        if fee_bps > 10000 {
            return Err(ContractError::InvalidFeeBps);
        }
        self.initialized = true;
        self.admin = admin;
        self.usdc_token = usdc_token;
        self.fee_bps = fee_bps;
        self.remittance_counter = 0;
        self.accumulated_fees = 0;
        Ok(())
    }

    /// Adds `agent` to the payout-agent registry. Requires the stored
    /// admin's authorization; emits an agent-registered event.
    pub fn register_agent(&mut self, auth: &AuthContext, agent: u64) -> (r: Result<
        (),
        ContractError,
    >)
        requires
            old(self).wf(),
        ensures
            final(self).wf(),
            r == Err::<(), ContractError>(ContractError::NotInitialized) <==> !old(
                self,
            ).initialized,
            (old(self).initialized ==> (r == Err::<(), ContractError>(ContractError::Unauthorized)
                <==> !auth.permits(old(self).admin))),
            r is Ok <==> old(self).initialized && auth.permits(old(self).admin),
            r is Err ==> *final(self) == *old(self),
            r is Ok ==> (*final(self) == (SwiftRemitContract {
                agents: final(self).agents,
                events: final(self).events,
                ..*old(self)
            })),
            r is Ok ==> (forall|a: u64|
                final(self).agent_is_registered(a) == (old(self).agent_is_registered(a) || a
                    == agent)),
            r is Ok ==> final(self).events@ == old(self).events@.push(
                (Event::AgentRegistered { agent, admin: old(self).admin }),
            ),
            old(self).balanced() ==> final(self).balanced(),
            old(self).fees_match_marks() ==> final(self).fees_match_marks(),
    {
        if !self.initialized {
            return Err(ContractError::NotInitialized);
        }
        let admin = self.admin;
        if !auth.allows(admin) {
            return Err(ContractError::Unauthorized);
        }
        if !contains_u64(&self.agents, agent) {
            self.agents.push(agent);
            proof {
                assert forall|p: int, q: int|
                    #![trigger self.agents@[p], self.agents@[q]]
                    0 <= p < q < self.agents@.len() implies self.agents@[p] != self.agents@[q] by {
                    if q < self.agents@.len() - 1 {
                        assert(self.agents@[p] == old(self).agents@[p]);
                        assert(self.agents@[q] == old(self).agents@[q]);
                    } else {
                        assert(self.agents@[p] == old(self).agents@[p]);
                        assert(self.agents@[q] == agent);
                        assert(!old(self).agents@.contains(agent));
                    }
                }
                assert forall|a: u64|
                    self.agents@.contains(a) == (old(self).agents@.contains(a) || a == agent) by {
                    lemma_contains_push(old(self).agents@, agent, a);
                }
            }
        }
        self.events.push(Event::AgentRegistered { agent, admin });
        Ok(())
    }

    /// Removes `agent` from the payout-agent registry. Requires the stored
    /// admin's authorization; emits an agent-removed event.
    pub fn remove_agent(&mut self, auth: &AuthContext, agent: u64) -> (r: Result<
        (),
        ContractError,
    >)
        requires
            old(self).wf(),
        ensures
            final(self).wf(),
            r == Err::<(), ContractError>(ContractError::NotInitialized) <==> !old(
                self,
            ).initialized,
            (old(self).initialized ==> (r == Err::<(), ContractError>(ContractError::Unauthorized)
                <==> !auth.permits(old(self).admin))),
            r is Ok <==> old(self).initialized && auth.permits(old(self).admin),
            r is Err ==> *final(self) == *old(self),
            r is Ok ==> (*final(self) == (SwiftRemitContract {
                agents: final(self).agents,
                events: final(self).events,
                ..*old(self)
            })),
            r is Ok ==> (forall|a: u64|
                final(self).agent_is_registered(a) == (old(self).agent_is_registered(a) && a
                    != agent)),
            r is Ok ==> final(self).events@ == old(self).events@.push(
                (Event::AgentRemoved { agent, admin: old(self).admin }),
            ),
            old(self).balanced() ==> final(self).balanced(),
            old(self).fees_match_marks() ==> final(self).fees_match_marks(),
    {
        if !self.initialized {
            return Err(ContractError::NotInitialized);
        }
        let admin = self.admin;
        if !auth.allows(admin) {
            return Err(ContractError::Unauthorized);
        }
        let n = self.agents.len();
        let mut i: usize = 0;
        while i < n
            invariant
                old(self).wf(),
                old(self).initialized,
                auth.permits(old(self).admin),
                n == self.agents@.len(),
                0 <= i <= n,
                *self == *old(self),
                admin == old(self).admin,
                forall|k: int| 0 <= k < i ==> self.agents@[k] != agent,
            decreases n - i,
        {
            if self.agents[i] == agent {
                self.agents.remove(i);
                proof {
                    let pre = old(self).agents@;
                    let post = self.agents@;
                    let i0 = i as int;
                    pre.remove_ensures(i0);
                    assert(post == pre.remove(i0));
                    assert forall|k: int| 0 <= k < i0 implies #[trigger] post[k] == pre[k] by {
                        assert(pre.remove(i0)[k] == pre[k]);
                    }
                    assert forall|k: int|
                        i0 <= k < post.len() implies #[trigger] post[k] == pre[k + 1] by {
                        assert(pre.remove(i0)[k] == pre[k + 1]);
                    }
                    assert(pre[i0] == agent);
                    assert forall|p: int, q: int|
                        #![trigger post[p], post[q]]
                        0 <= p < q < post.len() implies post[p] != post[q] by {
                        let p0: int = if p < i0 {
                            p
                        } else {
                            p + 1
                        };
                        let q0: int = if q < i0 {
                            q
                        } else {
                            q + 1
                        };
                        assert(post[p] == pre[p0]);
                        assert(post[q] == pre[q0]);
                    }
                    assert forall|a: u64|
                        post.contains(a) == (pre.contains(a) && a != agent) by {
                        if post.contains(a) {
                            let k = choose|k: int| 0 <= k < post.len() && post[k] == a;
                            if k < i0 {
                                assert(pre[k] == a);
                                if a == agent {
                                    assert(pre[k] == pre[i0]);
                                }
                            } else {
                                assert(pre[k + 1] == a);
                                if a == agent {
                                    assert(pre[k + 1] == pre[i0]);
                                }
                            }
                            assert(pre.contains(a));
                        }
                        if pre.contains(a) && a != agent {
                            let k = choose|k: int| 0 <= k < pre.len() && pre[k] == a;
                            if k < i0 {
                                assert(post[k] == a);
                            } else {
                                assert(k != i0);
                                assert(post[k - 1] == a);
                            }
                        }
                    }
                }
                self.events.push(Event::AgentRemoved { agent, admin });
                return Ok(());
            }
            i = i + 1;
        }
        self.events.push(Event::AgentRemoved { agent, admin });
        Ok(())
    }

    /// Changes the platform fee rate. Requires the stored admin's
    /// authorization; fails with `InvalidFeeBps` above 10000 basis points;
    /// emits the old and the new rate.
    pub fn update_fee(&mut self, auth: &AuthContext, fee_bps: u32) -> (r: Result<
        (),
        ContractError,
    >)
        requires
            old(self).wf(),
        ensures
            final(self).wf(),
            r == Err::<(), ContractError>(ContractError::NotInitialized) <==> !old(
                self,
            ).initialized,
            (old(self).initialized ==> (r == Err::<(), ContractError>(ContractError::Unauthorized)
                <==> !auth.permits(old(self).admin))),
            (old(self).initialized && auth.permits(old(self).admin) ==> (r == Err::<
                (),
                ContractError,
            >(ContractError::InvalidFeeBps) <==> fee_bps > 10000)),
            r is Ok <==> old(self).initialized && auth.permits(old(self).admin) && fee_bps <= 10000,
            r is Err ==> *final(self) == *old(self),
            r is Ok ==> (*final(self) == (SwiftRemitContract {
                fee_bps,
                events: final(self).events,
                ..*old(self)
            })),
            r is Ok ==> final(self).events@ == old(self).events@.push(
                (Event::FeeUpdated {
                    admin: old(self).admin,
                    old_fee: old(self).fee_bps,
                    new_fee: fee_bps,
                }),
            ),
            old(self).balanced() ==> final(self).balanced(),
            old(self).fees_match_marks() ==> final(self).fees_match_marks(),
    {
        if !self.initialized {
            return Err(ContractError::NotInitialized);
        }
        let admin = self.admin;
        if !auth.allows(admin) {
            return Err(ContractError::Unauthorized);
        }
        if fee_bps > 10000 {
            return Err(ContractError::InvalidFeeBps);
        }
        let old_fee = self.fee_bps;
        self.fee_bps = fee_bps;
        self.events.push(Event::FeeUpdated { admin, old_fee, new_fee: fee_bps });
        Ok(())
    }

    /// Sets the global pause switch. Requires the stored admin's
    /// authorization; emits a paused event.
    pub fn pause(&mut self, auth: &AuthContext) -> (r: Result<(), ContractError>)
        requires
            old(self).wf(),
        ensures
            final(self).wf(),
            r == Err::<(), ContractError>(ContractError::NotInitialized) <==> !old(
                self,
            ).initialized,
            (old(self).initialized ==> (r == Err::<(), ContractError>(ContractError::Unauthorized)
                <==> !auth.permits(old(self).admin))),
            r is Ok <==> old(self).initialized && auth.permits(old(self).admin),
            r is Err ==> *final(self) == *old(self),
            r is Ok ==> (*final(self) == (SwiftRemitContract {
                paused: true,
                events: final(self).events,
                ..*old(self)
            })),
            r is Ok ==> final(self).events@ == old(self).events@.push(
                (Event::Paused { admin: old(self).admin }),
            ),
            old(self).balanced() ==> final(self).balanced(),
            old(self).fees_match_marks() ==> final(self).fees_match_marks(),
    {
        if !self.initialized {
            return Err(ContractError::NotInitialized);
        }
        let admin = self.admin;
        if !auth.allows(admin) {
            return Err(ContractError::Unauthorized);
        }
        self.paused = true;
        self.events.push(Event::Paused { admin });
        Ok(())
    }

    /// Clears the global pause switch. Requires the stored admin's
    /// authorization; emits an unpaused event.
    pub fn unpause(&mut self, auth: &AuthContext) -> (r: Result<(), ContractError>)
        requires
            old(self).wf(),
        ensures
            final(self).wf(),
            r == Err::<(), ContractError>(ContractError::NotInitialized) <==> !old(
                self,
            ).initialized,
            (old(self).initialized ==> (r == Err::<(), ContractError>(ContractError::Unauthorized)
                <==> !auth.permits(old(self).admin))),
            r is Ok <==> old(self).initialized && auth.permits(old(self).admin),
            r is Err ==> *final(self) == *old(self),
            r is Ok ==> (*final(self) == (SwiftRemitContract {
                paused: false,
                events: final(self).events,
                ..*old(self)
            })),
            r is Ok ==> final(self).events@ == old(self).events@.push(
                (Event::Unpaused { admin: old(self).admin }),
            ),
            old(self).balanced() ==> final(self).balanced(),
            old(self).fees_match_marks() ==> final(self).fees_match_marks(),
    {
        if !self.initialized {
            return Err(ContractError::NotInitialized);
        }
        let admin = self.admin;
        if !auth.allows(admin) {
            return Err(ContractError::Unauthorized);
        }
        self.paused = false;
        self.events.push(Event::Unpaused { admin });
        Ok(())
    }

    /// Transfers the whole accumulated fee balance from custody to `to` and
    /// zeroes it. Requires the stored admin's authorization; fails with
    /// `NoFeesToWithdraw` while nothing is accumulated.
    pub fn withdraw_fees(&mut self, auth: &AuthContext, to: u64) -> (r: Result<(), ContractError>)
        requires
            old(self).wf(),
        ensures
            final(self).wf(),
            r == Err::<(), ContractError>(ContractError::NotInitialized) <==> !old(
                self,
            ).initialized,
            (old(self).initialized ==> (r == Err::<(), ContractError>(ContractError::Unauthorized)
                <==> !auth.permits(old(self).admin))),
            (old(self).initialized && auth.permits(old(self).admin) ==> (r == Err::<
                (),
                ContractError,
            >(ContractError::InvalidAddress) <==> !valid_address(to))),
            (old(self).initialized && auth.permits(old(self).admin) && valid_address(to) ==> (r
                == Err::<(), ContractError>(ContractError::NoFeesToWithdraw) <==> old(
                self,
            ).accumulated_fees <= 0)),
            r is Ok <==> old(self).initialized && auth.permits(old(self).admin) && valid_address(to)
                && old(self).accumulated_fees > 0,
            r is Err ==> *final(self) == *old(self),
            r is Ok ==> (*final(self) == (SwiftRemitContract {
                accumulated_fees: 0,
                transfers: final(self).transfers,
                events: final(self).events,
                ..*old(self)
            })),
            r is Ok ==> final(self).transfers@ == old(self).transfers@.push(
                (Transfer {
                    from: old(self).contract_address,
                    to,
                    amount: old(self).accumulated_fees,
                }),
            ),
            r is Ok ==> final(self).events@ == old(self).events@.push(
                (Event::FeesWithdrawn {
                    admin: old(self).admin,
                    to,
                    token: old(self).usdc_token,
                    amount: old(self).accumulated_fees,
                }),
            ),
            old(self).balanced() && to != old(self).contract_address ==> final(self).balanced(),
    {
        if !self.initialized {
            return Err(ContractError::NotInitialized);
        }
        let admin = self.admin;
        if !auth.allows(admin) {
            return Err(ContractError::Unauthorized);
        }
        if to == 0 {
            return Err(ContractError::InvalidAddress);
        }
        let fees = self.accumulated_fees;
        if fees <= 0 {
            return Err(ContractError::NoFeesToWithdraw);
        }
        let custody = self.contract_address;
        let outgoing = Transfer { from: custody, to, amount: fees };
        proof {
            lemma_balance_push(self.transfers@, outgoing, custody);
        }
        self.transfers.push(outgoing);
        self.accumulated_fees = 0;
        self.events.push(
            Event::FeesWithdrawn { admin, to, token: self.usdc_token, amount: fees },
        );
        Ok(())
    }

    /// Whether `agent` is currently registered. Readable before
    /// initialization, where no agent is registered.
    pub fn is_agent_registered(&self, agent: u64) -> (r: bool)
        ensures
            r == self.agent_is_registered(agent),
    {
        contains_u64(&self.agents, agent)
    }

    /// The accumulated, not yet withdrawn fee balance.
    pub fn get_accumulated_fees(&self) -> (r: Result<i128, ContractError>)
        ensures
            r is Ok <==> self.initialized,
            r matches Ok(f) ==> f == self.accumulated_fees,
            r is Err ==> r == Err::<i128, ContractError>(ContractError::NotInitialized),
    {
        if !self.initialized {
            return Err(ContractError::NotInitialized);
        }
        Ok(self.accumulated_fees)
    }

    /// The configured platform fee rate in basis points.
    pub fn get_platform_fee_bps(&self) -> (r: Result<u32, ContractError>)
        ensures
            r is Ok <==> self.initialized,
            r matches Ok(f) ==> f == self.fee_bps,
            r is Err ==> r == Err::<u32, ContractError>(ContractError::NotInitialized),
    {
        if !self.initialized {
            return Err(ContractError::NotInitialized);
        }
        Ok(self.fee_bps)
    }

    /// Whether the contract is paused.
    pub fn is_paused(&self) -> (r: bool)
        ensures
            r == self.paused,
    {
        self.paused
    }

    /// Sets or replaces the rolling-window cap for `(currency, country)`.
    /// Requires the stored admin's authorization; fails with
    /// `InvalidAmount` for a negative cap.
    pub fn set_daily_limit(
        &mut self,
        auth: &AuthContext,
        currency: u32,
        country: u32,
        limit: i128,
    ) -> (r: Result<(), ContractError>)
        requires
            old(self).wf(),
        ensures
            final(self).wf(),
            r == Err::<(), ContractError>(ContractError::NotInitialized) <==> !old(
                self,
            ).initialized,
            (old(self).initialized ==> (r == Err::<(), ContractError>(ContractError::Unauthorized)
                <==> !auth.permits(old(self).admin))),
            (old(self).initialized && auth.permits(old(self).admin) ==> (r == Err::<
                (),
                ContractError,
            >(ContractError::InvalidAmount) <==> limit < 0)),
            r is Ok <==> old(self).initialized && auth.permits(old(self).admin) && limit >= 0,
            r is Err ==> *final(self) == *old(self),
            r is Ok ==> (*final(self) == (SwiftRemitContract {
                limits: final(self).limits,
                ..*old(self)
            })),
            r is Ok ==> cap_for(final(self).limits.caps@, currency, country) == Some(limit),
            r is Ok ==> (forall|c2: u32, y2: u32|
                !(c2 == currency && y2 == country) ==> cap_for(final(self).limits.caps@, c2, y2)
                    == cap_for(old(self).limits.caps@, c2, y2)),
            r is Ok ==> final(self).limits.history@ == old(self).limits.history@,
            old(self).balanced() ==> final(self).balanced(),
            old(self).fees_match_marks() ==> final(self).fees_match_marks(),
    {
        if !self.initialized {
            return Err(ContractError::NotInitialized);
        }
        let admin = self.admin;
        if !auth.allows(admin) {
            return Err(ContractError::Unauthorized);
        }
        if limit < 0 {
            return Err(ContractError::InvalidAmount);
        }
        self.limits.set_cap(currency, country, limit);
        Ok(())
    }

    /// The cap row stored for `(currency, country)`, if any; `None` means
    /// the corridor is uncapped.
    pub fn get_daily_limit(&self, currency: u32, country: u32) -> (r: Option<DailyLimit>)
        ensures
            match r {
                Some(d) => d.currency == currency && d.country == country && cap_for(
                    self.limits.caps@,
                    currency,
                    country,
                ) == Some(d.limit),
                None => cap_for(self.limits.caps@, currency, country) is None,
            },
    {
        self.limits.find_cap(currency, country)
    }
}

} // verus!
