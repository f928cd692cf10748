//! Termination bookkeeping: the "steps since termination" counter and the
//! post-termination reward policy shared by the physics models.

use vstd::prelude::*;

verus! {

/// The counter after one step whose done flag is `done`: unset while the
/// episode runs, set on the exact step the done condition first holds, and
/// incremented on every step called after that. A step with `done` false
/// leaves it as it stands.
pub open spec fn next_status(c: Option<nat>, done: bool) -> Option<nat> {
    if !done {
        c
    } else {
        match c {
            None => Some(0nat),
            Some(k) => Some((k + 1) as nat),
        }
    }
}

/// Whether a step still earns the live reward: yes while the done condition
/// does not hold, yes on the exact step it first holds, no on every step
/// called after termination.
pub open spec fn full_reward(c: Option<nat>, done: bool) -> bool {
    !done || c is None
}

/// The counter after a whole run of steps with the given done flags,
/// starting from a fresh episode.
pub open spec fn status_after(dones: Seq<bool>) -> Option<nat>
    decreases dones.len(),
{
    if dones.len() == 0 {
        None
    } else {
        next_status(status_after(dones.drop_last()), dones.last())
    }
}

/// The counter stays unset exactly as long as no step has reported the done
/// condition.
pub proof fn lemma_status_unset_iff_never_done(dones: Seq<bool>)
    ensures
        (status_after(dones) is None) <==> (forall|j: int| 0 <= j < dones.len() ==> !dones[j]),
    decreases dones.len(),
{
    if dones.len() > 0 {
        lemma_status_unset_iff_never_done(dones.drop_last());
        assert(forall|j: int| 0 <= j < dones.len() - 1 ==> dones.drop_last()[j] == dones[j]);
    }
}

/// The reward sequence of an episode: a step earns the live reward exactly
/// when its own done flag is off, or when no step before it reported done —
/// so every step earns it while the episode runs, the exact step on which
/// done first holds still earns it, and every step called after that earns
/// none.
pub proof fn lemma_reward_sequence(dones: Seq<bool>, i: int)
    requires
        0 <= i < dones.len(),
    ensures
        full_reward(status_after(dones.take(i)), dones[i]) == (!dones[i] || (forall|j: int|
            0 <= j < i ==> !dones[j])),
{
    lemma_status_unset_iff_never_done(dones.take(i));
    assert(forall|j: int| 0 <= j < i ==> dones.take(i)[j] == dones[j]);
}

/// With a done flag that never falls back once raised — the episodes the
/// physics models produce — a step earns the live reward exactly when no
/// step before it reported done: every step while the episode runs, the
/// exact step on which done first holds, and none called after that.
pub proof fn lemma_reward_sequence_monotone(dones: Seq<bool>, i: int)
    requires
        0 <= i < dones.len(),
        forall|a: int, b: int| 0 <= a <= b < dones.len() && dones[a] ==> dones[b],
    ensures
        full_reward(status_after(dones.take(i)), dones[i]) <==> (forall|j: int|
            0 <= j < i ==> !dones[j]),
{
    lemma_reward_sequence(dones, i);
    if exists|j: int| 0 <= j < i && dones[j] {
        let j = choose|j: int| 0 <= j < i && dones[j];
        assert(dones[i]);
    }
}

/// The number of steps taken after the episode was terminated, unset until
/// the first step on which the done condition holds.
#[derive(Debug, Clone, PartialEq, Eq)]
pub struct TerminationStatus {
    /// The counter itself; `None` while the episode runs.
    pub steps_beyond_terminated: Option<u64>,
}

impl TerminationStatus {
    /// The counter as a mathematical value.
    pub open spec fn status(self) -> Option<nat> {
        match self.steps_beyond_terminated {
            Some(k) => Some(k as nat),
            None => None,
        }
    }

    /// A fresh episode: the counter is unset.
    pub fn new() -> (r: TerminationStatus)
        ensures
            r.status() is None,
    {
        TerminationStatus { steps_beyond_terminated: None }
    }

    /// Clears the counter; only a reset does so.
    pub fn reset(&mut self)
        ensures
            final(self).status() is None,
    {
        self.steps_beyond_terminated = None;
    }

    /// Books one step of the episode and reports whether the step still
    /// earns the live reward. A `false` result marks a discouraged
    /// post-termination step, for which the caller emits its non-fatal
    /// diagnostic.
    pub fn on_step(&mut self, done: bool) -> (full: bool)
        requires
            old(self).status() != Some(u64::MAX as nat),
        ensures
            final(self).status() == next_status(old(self).status(), done),
            full == full_reward(old(self).status(), done),
    {
        if !done {
            true
        } else {
            match self.steps_beyond_terminated {
                None => {
                    self.steps_beyond_terminated = Some(0);
                    true
                },
                Some(k) => {
                    self.steps_beyond_terminated = Some(k + 1);
                    false
                },
            }
        }
    }
}

} // verus!
