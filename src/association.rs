use vstd::prelude::*;
use crate::retry::{RetryPolicy, bump, bumped};

verus! {

/// Where the device stands with respect to the access point.
#[derive(Clone, Copy, Debug, PartialEq, Eq, Structural)]
pub enum AssociationState {
    Disconnected,
    Joining,
    Associated,
    Abandoned,
}

/// What the caller is to do next.
#[derive(Clone, Copy, Debug, PartialEq, Eq, Structural)]
pub enum JoinAction {
    /// Try to join the network (again).
    Attempt,
    /// The device is associated: go on with the network stack.
    Proceed,
    /// The retry policy is spent.
    GiveUp,
}

/// Joins the access point, retrying failed attempts as its policy allows.
#[derive(Clone, Copy, Debug, PartialEq, Eq, Structural)]
pub struct AssociationManager {
    pub state: AssociationState,
    /// Failed join attempts so far (stops at the largest `u64`).
    pub failures: u64,
    pub policy: RetryPolicy,
}

/// The action that belongs to a state.
pub open spec fn join_action_of(s: AssociationState) -> JoinAction {
    match s {
        AssociationState::Associated => JoinAction::Proceed,
        AssociationState::Abandoned => JoinAction::GiveUp,
        _ => JoinAction::Attempt,
    }
}

impl AssociationManager {
    pub open spec fn wf(self) -> bool {
        &&& self.state is Disconnected ==> self.failures == 0
        &&& self.state is Joining ==> self.policy.allows_spec(self.failures)
        &&& self.state is Abandoned ==> !self.policy.allows_spec(self.failures)
    }

    /// The manager after `start` on `self`.
    pub open spec fn started(self) -> Self {
        if self.state is Disconnected {
            AssociationManager { state: AssociationState::Joining, failures: 0, policy: self.policy }
        } else {
            self
        }
    }

    /// The manager after the outcome `ok` of a join attempt.
    pub open spec fn after_join(self, ok: bool) -> Self {
        if self.state is Joining {
            if ok {
                AssociationManager { state: AssociationState::Associated, ..self }
            } else if self.policy.allows_spec(bumped(self.failures)) {
                AssociationManager { failures: bumped(self.failures), ..self }
            } else {
                AssociationManager {
                    state: AssociationState::Abandoned,
                    failures: bumped(self.failures),
                    ..self
                }
            }
        } else {
            self
        }
    }

    pub open spec fn new_spec(policy: RetryPolicy) -> Self {
        AssociationManager { state: AssociationState::Disconnected, failures: 0, policy }
    }

    /// A fresh manager, not yet associated.
    pub fn new(policy: RetryPolicy) -> (r: Self)
        ensures
            r == Self::new_spec(policy),
            r.wf(),
    {
        AssociationManager { state: AssociationState::Disconnected, failures: 0, policy }
    }

    /// Begins joining; the first attempt is always allowed.
    pub fn start(&mut self) -> (r: JoinAction)
        requires
            old(self).wf(),
        ensures
            *final(self) == old(self).started(),
            final(self).wf(),
            r == join_action_of(final(self).state),
    {
        if let AssociationState::Disconnected = self.state {
            self.state = AssociationState::Joining;
            self.failures = 0;
        }
        self.action()
    }

    /// Records the outcome of a join attempt and says what to do next.
    /// Outside of `Joining` the outcome is ignored.
    pub fn on_join_result(&mut self, ok: bool) -> (r: JoinAction)
        requires
            old(self).wf(),
        ensures
            *final(self) == old(self).after_join(ok),
            final(self).wf(),
            r == join_action_of(final(self).state),
    {
        if let AssociationState::Joining = self.state {
            if ok {
                self.state = AssociationState::Associated;
            } else {
                self.failures = bump(self.failures);
                if !self.policy.allows(self.failures) {
                    self.state = AssociationState::Abandoned;
                }
            }
        }
        self.action()
    }

    /// The action that the current state asks for.
    pub fn action(&self) -> (r: JoinAction)
        ensures
            r == join_action_of(self.state),
    {
        match self.state {
            AssociationState::Associated => JoinAction::Proceed,
            AssociationState::Abandoned => JoinAction::GiveUp,
            _ => JoinAction::Attempt,
        }
    }
}

/// The manager after each outcome of `outcomes` has been recorded in turn.
pub open spec fn join_run(m: AssociationManager, outcomes: Seq<bool>) -> AssociationManager
    decreases outcomes.len(),
{
    if outcomes.len() == 0 {
        m
    } else {
        join_run(m, outcomes.drop_last()).after_join(outcomes.last())
    }
}

/// Once joining has begun, no sequence of join outcomes brings the manager
/// back to `Disconnected`, and each step keeps it well formed.
pub proof fn lemma_never_disconnected_again(m: AssociationManager, outcomes: Seq<bool>)
    requires
        m.wf(),
        !(m.state is Disconnected),
    ensures
        !(join_run(m, outcomes).state is Disconnected),
        join_run(m, outcomes).wf(),
    decreases outcomes.len(),
{
    if outcomes.len() > 0 {
        lemma_never_disconnected_again(m, outcomes.drop_last());
    }
}

/// `Associated` is final: later outcomes change nothing.
pub proof fn lemma_associated_stays(m: AssociationManager, outcomes: Seq<bool>)
    requires
        m.state is Associated,
    ensures
        join_run(m, outcomes) == m,
    decreases outcomes.len(),
{
    if outcomes.len() > 0 {
        lemma_associated_stays(m, outcomes.drop_last());
    }
}

/// Under the policy that never gives up, a manager that has started joining
/// is associated after a run of join outcomes exactly when one of them
/// succeeded, and is still joining otherwise: it waits for as long as the
/// access point stays out of reach.
pub proof fn lemma_joins_exactly_on_success(policy: RetryPolicy, outcomes: Seq<bool>)
    requires
        policy.max_retries is None,
    ensures
        ({
            let r = join_run(AssociationManager::new_spec(policy).started(), outcomes);
            &&& r.state is Associated <==> exists|i: int| 0 <= i < outcomes.len() && outcomes[i]
            &&& !(r.state is Associated) ==> r.state is Joining
            &&& r.policy == policy
        }),
    decreases outcomes.len(),
{
    let m = AssociationManager::new_spec(policy).started();
    if outcomes.len() > 0 {
        let pre = outcomes.drop_last();
        lemma_joins_exactly_on_success(policy, pre);
        let p = join_run(m, pre);
        if p.state is Associated {
            let i = choose|i: int| 0 <= i < pre.len() && pre[i];
            assert(outcomes[i]);
        } else {
            assert(outcomes[outcomes.len() - 1] == outcomes.last());
            if !outcomes.last() {
                assert forall|i: int| 0 <= i < outcomes.len() implies !outcomes[i] by {
                    if i < pre.len() {
                        assert(outcomes[i] == pre[i]);
                    }
                }
            }
        }
    }
}

} // verus!
