//! The rules that proposals are made under: adding them, and allowing
//! and disallowing them.

use vstd::prelude::*;
use crate::events::Event;
use crate::events::ProposalRulesAdded;
use crate::events::RulesAllowed;
use crate::govern::engine::Governor;
use crate::govern::errors::GovernError;
use crate::govern::storage::GovernStorage;
use crate::govern::structs::ProposalRules;
use crate::govern::structs::RulesId;
use crate::stake::errors::OwnableError;
use crate::types::AccountId;

verus! {

impl Governor {
    /// What adding `rules` answers: the identifier that they get.
    pub open spec fn spec_add_proposal_rules(&self, caller: AccountId, rules: ProposalRules) -> Result<
        RulesId,
        GovernError,
    > {
        if caller != self.stakes().spec_owner() {
            Err(GovernError::OwnableError(OwnableError::CallerIsNotOwner))
        } else {
            self.gov().spec_add_new_rule(rules)
        }
    }

    /// Stores new rules under the next identifier. They are not allowed
    /// until the owner allows them.
    pub fn _add_new_rule(&mut self, events: &mut Vec<Event>, rules: &ProposalRules) -> (res: Result<
        (),
        GovernError,
    >)
        requires
            old(self).wf(),
        ensures
            final(self).wf(),
            final(self).stakes() == old(self).stakes(),
            final(self).gov_reward() == old(self).gov_reward(),
            match old(self).gov().spec_add_new_rule(*rules) {
                Ok(rules_id) => {
                    &&& res is Ok
                    &&& final(self).gov() == (GovernStorage {
                        rules: final(self).gov().rules,
                        next_rule_id: (rules_id + 1) as RulesId,
                        ..old(self).gov()
                    })
                    &&& final(self).gov().rules@ == old(self).gov().rules@.insert(rules_id, *rules)
                    &&& !final(self).gov().spec_rule_allowed(rules_id)
                    &&& final(events)@ == old(events)@.push(
                        Event::ProposalRulesAdded(ProposalRulesAdded { rules_id, rules: *rules }),
                    )
                },
                Err(error) => res == Err::<(), GovernError>(error) && *final(self) == *old(self)
                    && final(events)@ == old(events)@,
            },
    {
        match self.gov.add_new_rule(rules) {
            Ok(rules_id) => {
                events.push(
                    Event::ProposalRulesAdded(ProposalRulesAdded { rules_id, rules: *rules }),
                );
                Ok(())
            },
            Err(error) => Err(error),
        }
    }

    /// Adds `rules`, which are not allowed until the owner allows them.
    /// Only the owner may.
    pub fn add_proposal_rules(
        &mut self,
        events: &mut Vec<Event>,
        caller: AccountId,
        rules: ProposalRules,
    ) -> (res: Result<(), GovernError>)
        requires
            old(self).wf(),
        ensures
            final(self).wf(),
            final(self).stakes() == old(self).stakes(),
            final(self).gov_reward() == old(self).gov_reward(),
            match old(self).spec_add_proposal_rules(caller, rules) {
                Ok(rules_id) => {
                    &&& res is Ok
                    &&& final(self).gov() == (GovernStorage {
                        rules: final(self).gov().rules,
                        next_rule_id: (rules_id + 1) as RulesId,
                        ..old(self).gov()
                    })
                    &&& final(self).gov().rules@ == old(self).gov().rules@.insert(rules_id, rules)
                    &&& !final(self).gov().spec_rule_allowed(rules_id)
                    &&& final(events)@ == old(events)@.push(
                        Event::ProposalRulesAdded(ProposalRulesAdded { rules_id, rules }),
                    )
                },
                Err(error) => res == Err::<(), GovernError>(error) && *final(self) == *old(self)
                    && final(events)@ == old(events)@,
            },
    {
        if let Err(error) = self.staker.only_owner(&caller) {
            return Err(GovernError::OwnableError(error));
        }
        self._add_new_rule(events, &rules)
    }

    /// Allows or disallows rules for new proposals. Rules that are as asked
    /// stay as they are, and nothing is said of it.
    pub fn _allow_rules(&mut self, events: &mut Vec<Event>, rules_id: &RulesId, allow: &bool) -> (res:
        Result<(), GovernError>)
        requires
            old(self).wf(),
        ensures
            final(self).wf(),
            final(self).stakes() == old(self).stakes(),
            final(self).gov_reward() == old(self).gov_reward(),
            res == (if old(self).gov().spec_rule(*rules_id) is None {
                Err::<(), GovernError>(GovernError::NoSuchRule)
            } else {
                Ok::<(), GovernError>(())
            }),
            !old(self).gov().spec_allow_rules_changes(*rules_id, *allow) ==> *final(self) == *old(self) && final(events)@ == old(events)@,
            old(self).gov().spec_allow_rules_changes(*rules_id, *allow) ==> {
                &&& final(self).gov() == (GovernStorage {
                    allowed_rules: final(self).gov().allowed_rules,
                    ..old(self).gov()
                })
                &&& final(self).gov().allowed_rules@ == if *allow {
                    old(self).gov().allowed_rules@.insert(*rules_id, ())
                } else {
                    old(self).gov().allowed_rules@.remove(*rules_id)
                }
                &&& final(events)@ == old(events)@.push(
                    Event::RulesAllowed(RulesAllowed { rules_id: *rules_id, allowed: *allow }),
                )
            },
            res is Ok ==> final(self).gov().spec_rule_allowed(*rules_id) == *allow,
    {
        if self._rule(rules_id).is_none() {
            return Err(GovernError::NoSuchRule);
        }
        if self._rule_allowed(rules_id) == *allow {
            return Ok(());
        }
        self.gov.allow_rules(rules_id, allow).unwrap();
        events.push(Event::RulesAllowed(RulesAllowed { rules_id: *rules_id, allowed: *allow }));
        Ok(())
    }

    /// Whether `self` and `logged` are what `before` and `log` become, and
    /// `res` is what is answered, when `caller` asks to allow or to
    /// disallow the rules `rules_id`. Rules that are as asked stay as they
    /// are, and the log gets nothing.
    pub open spec fn allow_rules_settled(
        &self,
        before: &Self,
        log: Seq<Event>,
        logged: Seq<Event>,
        caller: AccountId,
        rules_id: RulesId,
        allow: bool,
        res: Result<(), GovernError>,
    ) -> bool {
        &&& res == (if caller != before.stakes().spec_owner() {
            Err::<(), GovernError>(GovernError::OwnableError(OwnableError::CallerIsNotOwner))
        } else if before.gov().spec_rule(rules_id) is None {
            Err::<(), GovernError>(GovernError::NoSuchRule)
        } else {
            Ok::<(), GovernError>(())
        })
        &&& if res is Ok && before.gov().spec_allow_rules_changes(rules_id, allow) {
            &&& self.stakes() == before.stakes()
            &&& self.gov_reward() == before.gov_reward()
            &&& self.gov() == (GovernStorage {
                allowed_rules: self.gov().allowed_rules,
                ..before.gov()
            })
            &&& self.gov().allowed_rules@ == if allow {
                before.gov().allowed_rules@.insert(rules_id, ())
            } else {
                before.gov().allowed_rules@.remove(rules_id)
            }
            &&& logged == log.push(Event::RulesAllowed(RulesAllowed { rules_id, allowed: allow }))
        } else {
            *self == *before && logged == log
        }
    }

    /// Allows or disallows rules for new proposals. Only the owner may.
    pub fn allow_rules(
        &mut self,
        events: &mut Vec<Event>,
        caller: AccountId,
        rules_id: RulesId,
        allow: bool,
    ) -> (res: Result<(), GovernError>)
        requires
            old(self).wf(),
        ensures
            final(self).wf(),
            final(self).allow_rules_settled(
                old(self),
                old(events)@,
                final(events)@,
                caller,
                rules_id,
                allow,
                res,
            ),
            res is Ok ==> final(self).gov().spec_rule_allowed(rules_id) == allow,
    {
        if let Err(error) = self.staker.only_owner(&caller) {
            return Err(GovernError::OwnableError(error));
        }
        self._allow_rules(events, &rules_id, &allow)
    }
}

} // verus!
