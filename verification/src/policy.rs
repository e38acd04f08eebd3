//! The cluster-wide choice of how tasks reach executors.

use vstd::prelude::*;

use crate::text::equal;

verus! {

/// How work reaches the executors of a cluster. The value is fixed for a run; it selects a
/// code path and leaves the states that a task goes through unchanged.
#[derive(Clone, Copy, Debug, PartialEq, Eq, Structural)]
pub enum TaskSchedulingPolicy {
    /// Executors ask the scheduler for their next task.
    PullStaged,
    /// The scheduler hands tasks to executors with free slots.
    PushStaged,
}

impl TaskSchedulingPolicy {
    /// The policy that a configured name selects: `PushStaged` for exactly that name,
    /// `PullStaged` for every other text.
    pub open spec fn named(name: Seq<char>) -> TaskSchedulingPolicy {
        if name == "PushStaged"@ {
            TaskSchedulingPolicy::PushStaged
        } else {
            TaskSchedulingPolicy::PullStaged
        }
    }

    /// Reads the policy from its configured name. Names are case-sensitive, and a name
    /// that is not recognized falls back to `PullStaged`.
    pub fn from_name(name: &str) -> (policy: TaskSchedulingPolicy)
        ensures
            policy == Self::named(name@),
    {
        if equal(name, "PushStaged") {
            TaskSchedulingPolicy::PushStaged
        } else {
            TaskSchedulingPolicy::PullStaged
        }
    }

    /// The name under which the policy is configured.
    pub fn name(self) -> (name: &'static str)
        ensures
            name@ == self.spec_name(),
    {
        match self {
            TaskSchedulingPolicy::PullStaged => "PullStaged",
            TaskSchedulingPolicy::PushStaged => "PushStaged",
        }
    }

    /// The name under which the policy is configured.
    pub open spec fn spec_name(self) -> Seq<char> {
        match self {
            TaskSchedulingPolicy::PullStaged => "PullStaged"@,
            TaskSchedulingPolicy::PushStaged => "PushStaged"@,
        }
    }

    /// Every name other than `PushStaged` selects `PullStaged`.
    pub proof fn unrecognized_name_is_pull_staged(name: Seq<char>)
        requires
            name != "PushStaged"@,
        ensures
            Self::named(name) == TaskSchedulingPolicy::PullStaged,
    {
    }

    /// Reading the name of a policy gives the policy again.
    pub proof fn name_round_trip(policy: TaskSchedulingPolicy)
        ensures
            Self::named(policy.spec_name()) == policy,
    {
        reveal_strlit("PullStaged");
        reveal_strlit("PushStaged");
        if policy == TaskSchedulingPolicy::PullStaged {
            assert("PullStaged"@[1] == 'u');
            assert("PushStaged"@[2] == 's');
            assert("PullStaged"@[2] == 'l');
        }
    }
}

} // verus!
