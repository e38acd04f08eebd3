use hetu::policy::TaskSchedulingPolicy;

#[test]
fn push_staged_is_recognized() {
    assert_eq!(
        TaskSchedulingPolicy::from_name("PushStaged"),
        TaskSchedulingPolicy::PushStaged
    );
}

#[test]
fn pull_staged_is_recognized() {
    assert_eq!(
        TaskSchedulingPolicy::from_name("PullStaged"),
        TaskSchedulingPolicy::PullStaged
    );
}

#[test]
fn unrecognized_policy_falls_back_to_pull_staged() {
    for name in ["", "pushstaged", "PUSHSTAGED", "PushStaged ", "Push", "RoundRobin", "推"] {
        assert_eq!(
            TaskSchedulingPolicy::from_name(name),
            TaskSchedulingPolicy::PullStaged
        );
    }
}

#[test]
fn policy_names_round_trip() {
    for policy in [TaskSchedulingPolicy::PullStaged, TaskSchedulingPolicy::PushStaged] {
        assert_eq!(TaskSchedulingPolicy::from_name(policy.name()), policy);
    }
}
