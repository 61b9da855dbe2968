//! Executing a proposal that succeeded.

use vstd::prelude::*;
use crate::events::Event;
use crate::events::ProposalExecuted;
use crate::govern::chain::Chain;
use crate::govern::engine::Governor;
use crate::govern::errors::GovernError;
use crate::govern::hashing::encodable;
use crate::govern::hashing::spec_hash_proposal;
use crate::govern::structs::Proposal;
use crate::govern::structs::ProposalId;
use crate::govern::structs::ProposalState;
use crate::govern::structs::ProposalStatus;
use crate::govern::structs::Transaction;
use crate::trace::Call;
use crate::trace::Traced;
use crate::trace::all_went_through;
use crate::trace::invoked_in_order;
use crate::trace::went_through;

verus! {

/// Makes the calls of a proposal, one after the other, and stops at the
/// first one that fails. The answer says whether all of them went through.
pub fn run_transactions<C: Chain>(chain: &mut Traced<C>, transactions: &Vec<Transaction>) -> (res:
    bool)
    ensures
        final(chain).extends(old(chain)),
        invoked_in_order(final(chain).asked_since(old(chain)), transactions@),
        res == all_went_through(final(chain).asked_since(old(chain)), transactions@),
{
    let mut i: usize = 0;
    assert(chain.asked_since(old(chain)) =~= Seq::<Call>::empty());
    while i < transactions.len()
        invariant
            i <= transactions@.len(),
            chain.extends(old(chain)),
            chain.asked_since(old(chain)).len() == i,
            invoked_in_order(chain.asked_since(old(chain)), transactions@.take(i as int)),
            all_went_through(chain.asked_since(old(chain)), transactions@.take(i as int)),
        decreases transactions@.len() - i,
    {
        let ghost before = *chain;
        let went = chain.invoke(&transactions[i]);
        proof {
            let calls = chain.asked_since(old(chain));
            assert(calls =~= before.asked_since(old(chain)).push(chain.last_call()));
            assert(chain.trace() =~= old(chain).trace() + calls);
            assert forall|k: int| 0 <= k < calls.len() implies #[trigger] calls[k] == (
            Call::Invoke { transaction: transactions@[k], went_through: went_through(calls[k]) }) by {
                if k < i {
                    assert(calls[k] == before.asked_since(old(chain))[k]);
                    assert(transactions@.take(i as int)[k] == transactions@[k]);
                }
            }
            assert forall|k: int| 0 <= k < calls.len() - 1 implies went_through(
                #[trigger] calls[k],
            ) by {
                assert(calls[k] == before.asked_since(old(chain))[k]);
            }
        }
        if !went {
            return false;
        }
        i += 1;
        proof {
            let calls = chain.asked_since(old(chain));
            assert forall|k: int| 0 <= k < calls.len() implies #[trigger] calls[k] == (
            Call::Invoke {
                transaction: transactions@.take(i as int)[k],
                went_through: went_through(calls[k]),
            }) by {}
            assert forall|k: int| 0 <= k < calls.len() implies went_through(
                #[trigger] calls[k],
            ) by {}
        }
    }
    assert(transactions@.take(i as int) =~= transactions@);
    true
}

impl Governor {
    /// Whether `proposal_id` can be executed: it is known and has
    /// succeeded.
    pub open spec fn spec_executable(&self, proposal_id: ProposalId) -> Result<(), GovernError> {
        match self.gov().spec_state_of(proposal_id) {
            None => Err(GovernError::ProposalDoesntExist),
            Some(state) => if state.status != ProposalStatus::Succeeded {
                Err(GovernError::WrongStatus)
            } else {
                Ok(())
            },
        }
    }

    /// What executing `proposal_id` answers where `went_through` says
    /// whether all of its calls went through.
    pub open spec fn spec_execute(&self, proposal_id: ProposalId, went_through: bool) -> Result<
        (),
        GovernError,
    > {
        if self.spec_executable(proposal_id) is Err {
            self.spec_executable(proposal_id)
        } else if !went_through {
            Err(GovernError::UnderlyingTransactionReverted)
        } else {
            Ok(())
        }
    }

    /// Whether `self` and `logged` are what `before` and `log` become, and
    /// `res` is what is answered, when `proposal_id` is executed and
    /// `went_through` says whether all of its calls went through. A proposal
    /// whose calls did not all go through stays as it was: succeeded, and not
    /// executed.
    pub open spec fn execute_settled(
        &self,
        before: &Self,
        log: Seq<Event>,
        logged: Seq<Event>,
        proposal_id: ProposalId,
        went_through: bool,
        res: Result<(), GovernError>,
    ) -> bool {
        &&& res == before.spec_execute(proposal_id, went_through)
        &&& if res is Ok {
            &&& self.stakes() == before.stakes()
            &&& self.gov_reward() == before.gov_reward()
            &&& self.gov().state@ == before.gov().state@.insert(
                proposal_id,
                ProposalState {
                    status: ProposalStatus::Executed,
                    ..before.gov().state@[proposal_id]
                },
            )
            &&& self.gov().state.keys() == before.gov().state.keys()
            &&& self.gov().votes == before.gov().votes
            &&& self.gov().same_rules(&before.gov())
            &&& self.gov().same_counters(&before.gov())
            &&& logged == log.push(Event::ProposalExecuted(ProposalExecuted { proposal_id }))
        } else {
            *self == *before && logged == log
        }
    }

    pub fn check_executable(&self, proposal_id: &ProposalId) -> (res: Result<(), GovernError>)
        requires
            self.wf(),
        ensures
            res == self.spec_executable(*proposal_id),
    {
        let state = match self._state_of(proposal_id) {
            Some(state) => state,
            None => {
                return Err(GovernError::ProposalDoesntExist);
            },
        };
        if state.status != ProposalStatus::Succeeded {
            return Err(GovernError::WrongStatus);
        }
        Ok(())
    }

    /// Marks `proposal_id` as executed once its calls were made and
    /// `went_through` says whether all of them went through.
    pub fn settle_execute(
        &mut self,
        events: &mut Vec<Event>,
        proposal_id: &ProposalId,
        went_through: bool,
    ) -> (res: Result<(), GovernError>)
        requires
            old(self).wf(),
        ensures
            final(self).wf(),
            final(self).execute_settled(
                old(self),
                old(events)@,
                final(events)@,
                *proposal_id,
                went_through,
                res,
            ),
    {
        let mut state = match self._state_of(proposal_id) {
            Some(state) => state,
            None => {
                return Err(GovernError::ProposalDoesntExist);
            },
        };
        if state.status != ProposalStatus::Succeeded {
            return Err(GovernError::WrongStatus);
        }
        if !went_through {
            return Err(GovernError::UnderlyingTransactionReverted);
        }
        state.status = ProposalStatus::Executed;
        self.gov.state.insert(*proposal_id, state);
        events.push(Event::ProposalExecuted(ProposalExecuted { proposal_id: *proposal_id }));
        Ok(())
    }

    /// Whether the chain was asked what executing the proposal
    /// `proposal_id` with the calls `transactions` asks of it: to make the
    /// calls in their order, up to the first one that fails; or nothing
    /// where the proposal cannot be executed.
    pub open spec fn execute_asked<C>(
        &self,
        chain_before: &Traced<C>,
        chain: &Traced<C>,
        proposal_id: ProposalId,
        transactions: Seq<Transaction>,
    ) -> bool {
        if self.spec_executable(proposal_id) is Err {
            chain.not_asked(chain_before)
        } else {
            chain.extends(chain_before) && invoked_in_order(
                chain.asked_since(chain_before),
                transactions,
            )
        }
    }

    /// Makes the calls of the proposal `proposal_id`, which must have
    /// succeeded, and marks it as executed where all of them went through.
    /// Where one of them fails the later ones are not made, and the
    /// proposal stays as it was. The engine changes nothing before the last
    /// call has gone through: whoever looks at it while the calls are made
    /// sees it as it was before them.
    pub fn _execute<C: Chain>(
        &mut self,
        chain: &mut Traced<C>,
        events: &mut Vec<Event>,
        proposal_id: &ProposalId,
        proposal: &Proposal,
    ) -> (res: Result<(), GovernError>)
        requires
            old(self).wf(),
        ensures
            final(self).wf(),
            old(self).execute_asked(old(chain), final(chain), *proposal_id, proposal.transactions@),
            final(self).execute_settled(
                old(self),
                old(events)@,
                final(events)@,
                *proposal_id,
                all_went_through(final(chain).asked_since(old(chain)), proposal.transactions@),
                res,
            ),
    {
        if let Err(error) = self.check_executable(proposal_id) {
            return Err(error);
        }
        let went_through = run_transactions(chain, &proposal.transactions);
        self.settle_execute(events, proposal_id, went_through)
    }

    /// Executes `proposal`, whose description has the digest
    /// `description_hash`, as [`Self::_execute`] does.
    pub fn execute<C: Chain>(
        &mut self,
        chain: &mut Traced<C>,
        events: &mut Vec<Event>,
        proposal: Proposal,
        description_hash: [u8; 32],
    ) -> (res: Result<(), GovernError>)
        requires
            old(self).wf(),
            encodable(proposal),
        ensures
            final(self).wf(),
            exists|proposal_id: ProposalId|
                proposal_id.0@ == spec_hash_proposal(proposal, description_hash@) && old(self).execute_asked(old(chain), final(chain), proposal_id, proposal.transactions@)
                    && #[trigger] final(self).execute_settled(
                    old(self),
                    old(events)@,
                    final(events)@,
                    proposal_id,
                    all_went_through(final(chain).asked_since(old(chain)), proposal.transactions@),
                    res,
                ),
    {
        let proposal_id = crate::govern::hashing::hash_proposal(&proposal, &description_hash);
        let res = self._execute(chain, events, &proposal_id, &proposal);
        assert(self.execute_settled(
            old(self),
            old(events)@,
            events@,
            proposal_id,
            all_went_through(chain.asked_since(old(chain)), proposal.transactions@),
            res,
        ));
        res
    }
}

} // verus!
