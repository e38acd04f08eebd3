use hetu::error::HetuError;
use hetu::query::cleanup::{
    check_modified_time_at, check_modified_time_in_dirs, clean_shuffle_data_at,
    clean_shuffle_data_loop, Child, ChildKind, Listing, Timestamp, Visit,
};

fn at(secs: i64, nanos: u32) -> Timestamp {
    Timestamp { secs, nanos }
}

fn file(secs: i64, nanos: u32) -> Visit {
    Visit::File {
        modified: at(secs, nanos),
    }
}

fn job_dir(path: &str, walk: Vec<Visit>) -> Child {
    Child {
        path: path.to_string(),
        kind: ChildKind::JobDir { walk },
    }
}

fn listing(children: Vec<Child>) -> Listing {
    Listing {
        children,
        failure: None,
    }
}

#[test]
fn test_executor_clean_up() {
    // One job directory with one file; the sweep runs two seconds after the file was
    // written, with a time to live of one second.
    let since_epoch = std::time::SystemTime::now()
        .duration_since(std::time::UNIX_EPOCH)
        .unwrap();
    let written = at(since_epoch.as_secs() as i64 - 2, since_epoch.subsec_nanos());
    let work_dir = listing(vec![job_dir(
        "job_id",
        vec![Visit::File { modified: written }],
    )]);
    let count1 = work_dir.children.len();
    assert_eq!(count1, 1);
    let to_delete = clean_shuffle_data_loop(&work_dir, 1).unwrap();
    let count2 = work_dir.children.len() - to_delete.len();
    assert_eq!(to_delete, vec!["job_id".to_string()]);
    assert_eq!(count2, 0);
}

#[test]
fn sweep_two_seconds_after_the_write_deletes_the_directory() {
    let written = at(1_700_000_000, 250_000_000);
    let work_dir = listing(vec![job_dir(
        "job_id",
        vec![Visit::File { modified: written }],
    )]);
    let to_delete = clean_shuffle_data_at(&work_dir, at(1_700_000_002, 250_000_000), 1).unwrap();
    assert_eq!(to_delete, vec!["job_id".to_string()]);
}

#[test]
fn file_written_just_before_the_sweep_keeps_the_directory() {
    let since_epoch = std::time::SystemTime::now()
        .duration_since(std::time::UNIX_EPOCH)
        .unwrap();
    let old = at(since_epoch.as_secs() as i64 - 2, since_epoch.subsec_nanos());
    let new = at(since_epoch.as_secs() as i64, since_epoch.subsec_nanos());
    let work_dir = listing(vec![job_dir(
        "job_id",
        vec![Visit::File { modified: old }, Visit::File { modified: new }],
    )]);
    assert_eq!(clean_shuffle_data_loop(&work_dir, 1).unwrap(), Vec::<String>::new());
}

#[test]
fn fresh_file_keeps_the_whole_directory() {
    let now = at(1_700_000_002, 0);
    let work_dir = listing(vec![job_dir(
        "job_id",
        vec![file(1_700_000_000, 0), file(1_700_000_001, 999_999_999)],
    )]);
    let to_delete = clean_shuffle_data_at(&work_dir, now, 1).unwrap();
    assert_eq!(to_delete, Vec::<String>::new());
}

#[test]
fn file_at_the_cutoff_is_old() {
    let now = at(100, 500);
    assert_eq!(check_modified_time_at(&vec![file(90, 500)], now, 10), Ok(true));
    assert_eq!(check_modified_time_at(&vec![file(90, 501)], now, 10), Ok(false));
    assert_eq!(check_modified_time_at(&vec![file(90, 499)], now, 10), Ok(true));
    assert_eq!(check_modified_time_at(&vec![file(89, 999_999_999)], now, 10), Ok(true));
    assert_eq!(check_modified_time_at(&vec![file(91, 0)], now, 10), Ok(false));
}

#[test]
fn empty_directory_is_stale() {
    assert_eq!(check_modified_time_at(&vec![], at(0, 0), 0), Ok(true));
    let work_dir = listing(vec![job_dir("empty", vec![])]);
    assert_eq!(
        clean_shuffle_data_at(&work_dir, at(5, 0), 604800).unwrap(),
        vec!["empty".to_string()]
    );
}

#[test]
fn first_decisive_entry_of_a_walk_decides() {
    let now = at(1000, 0);
    let failure = Visit::Failure {
        cause: "permission denied".to_string(),
    };
    assert_eq!(
        check_modified_time_at(&vec![file(1, 0), failure.clone(), file(999, 0)], now, 10),
        Err(HetuError::IoError("permission denied".to_string()))
    );
    assert_eq!(
        check_modified_time_at(&vec![file(1, 0), file(999, 0), failure.clone()], now, 10),
        Ok(false)
    );
    assert_eq!(
        check_modified_time_at(&vec![file(1, 0), file(2, 0)], now, 10),
        Ok(true)
    );
}

#[test]
fn extreme_times_do_not_overflow() {
    let now = at(i64::MAX, u32::MAX);
    assert_eq!(check_modified_time_at(&vec![file(i64::MIN, 0)], now, i64::MIN), Ok(true));
    assert_eq!(check_modified_time_at(&vec![file(i64::MAX, 0)], now, i64::MAX), Ok(false));
    assert_eq!(
        check_modified_time_at(&vec![file(i64::MAX, u32::MAX)], at(i64::MIN, 0), i64::MIN),
        Ok(false)
    );
    assert_eq!(
        check_modified_time_at(&vec![file(i64::MIN, 0)], at(i64::MIN, 0), 0),
        Ok(true)
    );
    // A negative time to live puts the cutoff in the future.
    assert_eq!(check_modified_time_at(&vec![file(100, 0)], at(100, 0), -1), Ok(true));
    assert_eq!(check_modified_time_at(&vec![file(101, 1)], at(100, 0), -1), Ok(false));
}

#[test]
fn sweep_deletes_only_stale_job_directories() {
    let now = at(10_000, 0);
    let work_dir = listing(vec![
        job_dir("a", vec![file(1, 0), file(2, 0)]),
        Child {
            path: "notes.txt".to_string(),
            kind: ChildKind::File,
        },
        job_dir("b", vec![file(1, 0), file(9_999, 0)]),
        Child {
            path: "lost".to_string(),
            kind: ChildKind::NoMetadata,
        },
        job_dir(
            "c",
            vec![Visit::Failure {
                cause: "gone".to_string(),
            }],
        ),
        job_dir("d", vec![file(9_000, 0)]),
    ]);
    assert_eq!(
        clean_shuffle_data_at(&work_dir, now, 1000).unwrap(),
        vec!["a".to_string(), "d".to_string()]
    );
}

#[test]
fn sweep_fails_when_a_directory_cannot_be_opened() {
    let now = at(10_000, 0);
    let work_dir = Listing {
        children: vec![
            job_dir("a", vec![file(1, 0)]),
            Child {
                path: "b".to_string(),
                kind: ChildKind::Unopened {
                    cause: "first".to_string(),
                },
            },
            Child {
                path: "c".to_string(),
                kind: ChildKind::Unopened {
                    cause: "second".to_string(),
                },
            },
        ],
        failure: Some("listing".to_string()),
    };
    assert_eq!(
        clean_shuffle_data_at(&work_dir, now, 1),
        Err(HetuError::IoError("first".to_string()))
    );
}

#[test]
fn sweep_fails_when_the_listing_stopped() {
    let work_dir = Listing {
        children: vec![job_dir("a", vec![file(1, 0)])],
        failure: Some("input/output error".to_string()),
    };
    assert_eq!(
        clean_shuffle_data_at(&work_dir, at(10_000, 0), 1),
        Err(HetuError::IoError("input/output error".to_string()))
    );
}

#[test]
fn sweep_reads_the_clock() {
    // Files from the first second of 1970 are older than a day, whatever the clock says
    // today; files from the far future are not.
    let work_dir = listing(vec![
        job_dir("old", vec![file(0, 0)]),
        job_dir("new", vec![file(i64::MAX, 0)]),
    ]);
    assert_eq!(
        clean_shuffle_data_loop(&work_dir, 86_400).unwrap(),
        vec!["old".to_string()]
    );
    assert_eq!(check_modified_time_in_dirs(&vec![file(0, 0)], 86_400), Ok(true));
    assert_eq!(check_modified_time_in_dirs(&vec![file(i64::MAX, 0)], 86_400), Ok(false));
}
