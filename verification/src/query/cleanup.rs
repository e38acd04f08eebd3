//! The collector of stale shuffle data. One sweep looks at every job directory under
//! the work directory and names for deletion those in which no file was modified within
//! the time to live. A job directory is deleted whole or left whole.

use vstd::prelude::*;

use crate::error::{HetuError, HetuErrorView};

verus! {

/// A point in time: seconds and nanoseconds since the Unix epoch.
#[derive(Clone, Copy, Debug, PartialEq, Eq, Structural)]
pub struct Timestamp {
    pub secs: i64,
    pub nanos: u32,
}

impl Timestamp {
    /// The point in time as nanoseconds since the Unix epoch.
    pub open spec fn instant(self) -> int {
        self.secs * 1_000_000_000 + self.nanos
    }
}

/// The instant before which, or at which, a file counts as old: `ttl_seconds` before `now`.
pub open spec fn cutoff(now: Timestamp, ttl_seconds: i64) -> int {
    now.instant() - ttl_seconds * 1_000_000_000
}

/// Whether a file modified at `modified` is still within its time to live at `now`.
pub open spec fn is_fresh(modified: Timestamp, now: Timestamp, ttl_seconds: i64) -> bool {
    modified.instant() > cutoff(now, ttl_seconds)
}

/// What the walk of a job directory met at one entry of the subtree: a file with its time
/// of last modification, or an entry that could not be read.
#[derive(Debug, Clone, PartialEq, Eq)]
pub enum Visit {
    File { modified: Timestamp },
    Failure { cause: String },
}

/// What a walk says of a job directory.
pub enum Finding {
    /// Every entry was read, and no file is fresh: the directory can go.
    Stale,
    /// A file is fresh: the directory stays.
    Fresh,
    /// An entry could not be read before any fresh file was met.
    Unreadable(Seq<char>),
}

/// The finding of a walk: that of its first entry which is a fresh file or a failure, and
/// `Stale` where there is no such entry.
pub open spec fn finding(walk: Seq<Visit>, now: Timestamp, ttl_seconds: i64) -> Finding
    decreases walk.len(),
{
    if walk.len() == 0 {
        Finding::Stale
    } else {
        match walk[0] {
            Visit::File { modified } => if is_fresh(modified, now, ttl_seconds) {
                Finding::Fresh
            } else {
                finding(walk.drop_first(), now, ttl_seconds)
            },
            Visit::Failure { cause } => Finding::Unreadable(cause@),
        }
    }
}

/// Whether a result reports a finding: `Ok(true)` for a stale directory, `Ok(false)` for a
/// fresh one, and the I/O error with the cause for one that could not be read.
pub open spec fn reports(r: Result<bool, HetuError>, finding: Finding) -> bool {
    match finding {
        Finding::Stale => r == Ok::<bool, HetuError>(true),
        Finding::Fresh => r == Ok::<bool, HetuError>(false),
        Finding::Unreadable(cause) => r matches Err(e) && e@ == HetuErrorView::IoError(cause),
    }
}

/// Reads the clock.
///
/// Trusted: calls `chrono::Utc::now` and hands on the seconds and the nanoseconds of what
/// it returned. Nothing is claimed of the time that comes back.
#[verifier::external_body]
fn utc_now() -> (now: Timestamp) {
    let now = chrono::Utc::now();
    Timestamp { secs: now.timestamp(), nanos: now.timestamp_subsec_nanos() }
}

fn fresh(modified: Timestamp, now: Timestamp, ttl_seconds: i64) -> (r: bool)
    ensures
        r == is_fresh(modified, now, ttl_seconds),
{
    let modified_at: i128 = (modified.secs as i128) * 1_000_000_000 + (modified.nanos as i128);
    let now_at: i128 = (now.secs as i128) * 1_000_000_000 + (now.nanos as i128);
    let ttl: i128 = (ttl_seconds as i128) * 1_000_000_000;
    modified_at > now_at - ttl
}

/// Says whether every file in the walk of a job directory is old at `now`: `Ok(true)`
/// where all are, `Ok(false)` where a file is fresh, and the I/O error of an entry
/// that could not be read where the walk met one before any fresh file.
pub fn check_modified_time_at(walk: &Vec<Visit>, now: Timestamp, ttl_seconds: i64) -> (r: Result<
    bool,
    HetuError,
>)
    ensures
        reports(r, finding(walk@, now, ttl_seconds)),
{
    let mut i: usize = 0;
    assert(walk@.skip(0) =~= walk@);
    while i < walk.len()
        invariant
            i <= walk.len(),
            finding(walk@, now, ttl_seconds) == finding(walk@.skip(i as int), now, ttl_seconds),
        decreases walk.len() - i,
    {
        let ghost rest = walk@.skip(i as int);
        assert(rest[0] == walk@[i as int]);
        assert(rest.drop_first() =~= walk@.skip(i + 1));
        match &walk[i] {
            Visit::File { modified } => {
                if fresh(*modified, now, ttl_seconds) {
                    return Ok(false);
                }
            },
            Visit::Failure { cause } => {
                return Err(HetuError::IoError(cause.clone()));
            },
        }
        i += 1;
    }
    Ok(true)
}

/// Says whether every file in the walk of a job directory is older than `ttl_seconds`,
/// measured from the time at which the function is called. The answer is that of
/// [`check_modified_time_at`] for the time that the clock gave.
pub fn check_modified_time_in_dirs(walk: &Vec<Visit>, ttl_seconds: i64) -> (r: Result<
    bool,
    HetuError,
>)
    ensures
        exists|now: Timestamp| reports(r, #[trigger] finding(walk@, now, ttl_seconds)),
{
    let now = utc_now();
    check_modified_time_at(walk, now, ttl_seconds)
}

/// A walk is stale exactly where each of its entries is a file that is not fresh.
pub proof fn stale_means_every_file_is_old(walk: Seq<Visit>, now: Timestamp, ttl_seconds: i64)
    ensures
        finding(walk, now, ttl_seconds) is Stale <==> forall|i: int|
            0 <= i < walk.len() ==> (#[trigger] walk[i] matches Visit::File { modified }
                && !is_fresh(modified, now, ttl_seconds)),
    decreases walk.len(),
{
    if walk.len() > 0 {
        let rest = walk.drop_first();
        stale_means_every_file_is_old(rest, now, ttl_seconds);
        if finding(walk, now, ttl_seconds) is Stale {
            assert forall|i: int| 0 <= i < walk.len() implies (#[trigger] walk[i] matches Visit::File {
                modified,
            } && !is_fresh(modified, now, ttl_seconds)) by {
                if i > 0 {
                    assert(walk[i] == rest[i - 1]);
                }
            }
        } else {
            if forall|i: int|
                0 <= i < walk.len() ==> (#[trigger] walk[i] matches Visit::File { modified }
                    && !is_fresh(modified, now, ttl_seconds)) {
                assert(walk[0] is File);
                assert forall|i: int| 0 <= i < rest.len() implies (#[trigger] rest[i] matches Visit::File {
                    modified,
                } && !is_fresh(modified, now, ttl_seconds)) by {
                    assert(rest[i] == walk[i + 1]);
                }
            }
        }
    }
}

/// One fresh file keeps its directory: a walk that holds a file modified within the time
/// to live is not stale.
pub proof fn fresh_file_keeps_directory(
    walk: Seq<Visit>,
    now: Timestamp,
    ttl_seconds: i64,
    i: int,
)
    requires
        0 <= i < walk.len(),
        walk[i] matches Visit::File { modified } && is_fresh(modified, now, ttl_seconds),
    ensures
        !(finding(walk, now, ttl_seconds) is Stale),
{
    stale_means_every_file_is_old(walk, now, ttl_seconds);
}

/// What the sweep found of one entry directly under the work directory.
#[derive(Debug, Clone, PartialEq, Eq)]
pub enum ChildKind {
    /// The entry's metadata could not be read. The entry is left alone.
    NoMetadata,
    /// The entry is not a directory. The sweep never deletes such an entry.
    File,
    /// A job directory, with the walk of its subtree.
    JobDir { walk: Vec<Visit> },
    /// A directory that could not be opened. The sweep ends with this error.
    Unopened { cause: String },
}

/// One entry directly under the work directory.
#[derive(Debug, Clone, PartialEq, Eq)]
pub struct Child {
    pub path: String,
    pub kind: ChildKind,
}

/// What a sweep read of the work directory: its entries in the order in which they were
/// read and, where reading stopped on an error, the cause.
#[derive(Debug, Clone, PartialEq, Eq)]
pub struct Listing {
    pub children: Vec<Child>,
    pub failure: Option<String>,
}

/// Whether the sweep deletes an entry: a job directory whose walk is stale.
pub open spec fn is_doomed(child: Child, now: Timestamp, ttl_seconds: i64) -> bool {
    child.kind matches ChildKind::JobDir { walk } && finding(walk@, now, ttl_seconds) is Stale
}

/// The paths of the entries that the sweep deletes, in the order of the listing.
pub open spec fn doomed_paths(children: Seq<Child>, now: Timestamp, ttl_seconds: i64) -> Seq<
    Seq<char>,
>
    decreases children.len(),
{
    if children.len() == 0 {
        Seq::empty()
    } else {
        let earlier = doomed_paths(children.drop_last(), now, ttl_seconds);
        if is_doomed(children.last(), now, ttl_seconds) {
            earlier.push(children.last().path@)
        } else {
            earlier
        }
    }
}

/// The error that ends a sweep before anything is deleted: the cause of the first
/// directory that could not be opened or, where there is none, the cause for which the
/// listing of the work directory stopped. `None` where the sweep goes through.
pub open spec fn sweep_failure(listing: Listing) -> Option<Seq<char>> {
    if exists|i: int| 0 <= i < listing.children@.len() && listing.children@[i].kind is Unopened {
        let first = choose|i: int|
            0 <= i < listing.children@.len() && listing.children@[i].kind is Unopened && forall|
                j: int,
            |
                0 <= j < i ==> !(listing.children@[j].kind is Unopened);
        Some(listing.children@[first].kind->cause@)
    } else {
        match listing.failure {
            Some(cause) => Some(cause@),
            None => None,
        }
    }
}

/// The paths of a list of strings.
pub open spec fn texts(paths: Seq<String>) -> Seq<Seq<char>> {
    Seq::new(paths.len(), |i: int| paths[i]@)
}

/// One sweep at the time `now`: says which job directories to delete. Where a directory
/// cannot be opened, or the listing of the work directory stopped on an error, the sweep
/// fails with that I/O error and nothing is to be deleted. Otherwise the answer holds the
/// path of each job directory whose walk is stale, in the order of the listing. Plain
/// files under the work directory, entries without metadata, and job directories with a
/// fresh file or an unreadable entry are left alone.
pub fn clean_shuffle_data_at(listing: &Listing, now: Timestamp, ttl_seconds: i64) -> (r: Result<
    Vec<String>,
    HetuError,
>)
    ensures
        match sweep_failure(*listing) {
            Some(cause) => r matches Err(e) && e@ == HetuErrorView::IoError(cause),
            None => r matches Ok(paths) && texts(paths@) == doomed_paths(
                listing.children@,
                now,
                ttl_seconds,
            ),
        },
{
    let mut to_delete: Vec<String> = Vec::new();
    let mut i: usize = 0;
    assert(listing.children@.take(0) =~= Seq::<Child>::empty());
    while i < listing.children.len()
        invariant
            i <= listing.children.len(),
            forall|j: int| 0 <= j < i ==> !(listing.children@[j].kind is Unopened),
            texts(to_delete@) == doomed_paths(listing.children@.take(i as int), now, ttl_seconds),
        decreases listing.children.len() - i,
    {
        let child = &listing.children[i];
        let ghost before = to_delete@;
        assert(listing.children@.take(i + 1).drop_last() =~= listing.children@.take(i as int));
        assert(listing.children@.take(i + 1).last() == *child);
        match &child.kind {
            ChildKind::JobDir { walk } => {
                match check_modified_time_at(walk, now, ttl_seconds) {
                    Ok(true) => {
                        to_delete.push(child.path.clone());
                        assert(texts(to_delete@) =~= texts(before).push(child.path@));
                    },
                    Ok(false) => {},
                    Err(_) => {},
                }
            },
            ChildKind::Unopened { cause } => {
                proof {
                    let first = choose|k: int|
                        0 <= k < listing.children@.len() && listing.children@[k].kind is Unopened
                            && forall|j: int|
                            0 <= j < k ==> !(listing.children@[j].kind is Unopened);
                    assert(listing.children@[i as int].kind is Unopened);
                    assert(first == i);
                }
                return Err(HetuError::IoError(cause.clone()));
            },
            ChildKind::NoMetadata => {},
            ChildKind::File => {},
        }
        i += 1;
    }
    assert(listing.children@.take(i as int) =~= listing.children@);
    match &listing.failure {
        Some(cause) => Err(HetuError::IoError(cause.clone())),
        None => Ok(to_delete),
    }
}

/// One sweep at the time at which the function is called. The answer is that of
/// [`clean_shuffle_data_at`] for the time that the clock gave, read once for the sweep.
pub fn clean_shuffle_data_loop(listing: &Listing, ttl_seconds: i64) -> (r: Result<
    Vec<String>,
    HetuError,
>)
    ensures
        match sweep_failure(*listing) {
            Some(cause) => r matches Err(e) && e@ == HetuErrorView::IoError(cause),
            None => r matches Ok(paths) && exists|now: Timestamp|
                texts(paths@) == #[trigger] doomed_paths(listing.children@, now, ttl_seconds),
        },
{
    let now = utc_now();
    clean_shuffle_data_at(listing, now, ttl_seconds)
}

/// A sweep deletes a job directory in which every file is old: its path is among the
/// paths that the sweep names.
pub proof fn stale_directory_is_deleted(
    children: Seq<Child>,
    now: Timestamp,
    ttl_seconds: i64,
    i: int,
)
    requires
        0 <= i < children.len(),
        is_doomed(children[i], now, ttl_seconds),
    ensures
        doomed_paths(children, now, ttl_seconds).contains(children[i].path@),
    decreases children.len(),
{
    let earlier = doomed_paths(children.drop_last(), now, ttl_seconds);
    if i == children.len() - 1 {
        assert(earlier.push(children[i].path@).last() == children[i].path@);
    } else {
        stale_directory_is_deleted(children.drop_last(), now, ttl_seconds, i);
        let k = choose|k: int| 0 <= k < earlier.len() && earlier[k] == children[i].path@;
        assert(doomed_paths(children, now, ttl_seconds)[k] == children[i].path@);
    }
}

/// A sweep names nothing but job directories in which every file is old: each path that
/// it names is the path of such an entry of the listing.
pub proof fn only_stale_directories_are_deleted(
    children: Seq<Child>,
    now: Timestamp,
    ttl_seconds: i64,
    path: Seq<char>,
)
    requires
        doomed_paths(children, now, ttl_seconds).contains(path),
    ensures
        exists|i: int|
            0 <= i < children.len() && #[trigger] children[i].path@ == path && is_doomed(
                children[i],
                now,
                ttl_seconds,
            ),
    decreases children.len(),
{
    if children.len() > 0 {
        let earlier = doomed_paths(children.drop_last(), now, ttl_seconds);
        if earlier.contains(path) {
            only_stale_directories_are_deleted(children.drop_last(), now, ttl_seconds, path);
            let i = choose|i: int|
                0 <= i < children.drop_last().len() && #[trigger] children.drop_last()[i].path@
                    == path && is_doomed(children.drop_last()[i], now, ttl_seconds);
            assert(children[i].path@ == path);
        } else {
            let last = children.len() - 1;
            assert(is_doomed(children[last], now, ttl_seconds) && children[last].path@ == path);
        }
    }
}

/// The entries of a directory bear different paths.
pub open spec fn paths_are_distinct(children: Seq<Child>) -> bool {
    forall|i: int, j: int|
        0 <= i < j < children.len() ==> (#[trigger] children[i]).path@ != (#[trigger] children[j]).path@
}

impl Listing {
    /// What holds of every listing that was read from a directory: no two of its entries
    /// bear the same path.
    pub open spec fn wf(&self) -> bool {
        paths_are_distinct(self.children@)
    }
}

/// A sweep leaves alone every entry that is not a stale job directory: in a listing of a
/// directory, the path of such an entry is not among the paths that the sweep names. The
/// sweep names whole entries of the work directory and nothing below them, so such an
/// entry stays with everything in it.
pub proof fn kept_entry_survives(children: Seq<Child>, now: Timestamp, ttl_seconds: i64, i: int)
    requires
        paths_are_distinct(children),
        0 <= i < children.len(),
        !is_doomed(children[i], now, ttl_seconds),
    ensures
        !doomed_paths(children, now, ttl_seconds).contains(children[i].path@),
{
    let path = children[i].path@;
    if doomed_paths(children, now, ttl_seconds).contains(path) {
        only_stale_directories_are_deleted(children, now, ttl_seconds, path);
        let j = choose|j: int|
            0 <= j < children.len() && #[trigger] children[j].path@ == path && is_doomed(
                children[j],
                now,
                ttl_seconds,
            );
        if j < i {
            assert(children[j].path@ != children[i].path@);
        }
        if i < j {
            assert(children[i].path@ != children[j].path@);
        }
    }
}

/// A job directory with one file touched within the time to live survives the sweep: its
/// path is not among the paths that the sweep names.
pub proof fn directory_with_fresh_file_survives(
    children: Seq<Child>,
    now: Timestamp,
    ttl_seconds: i64,
    i: int,
    k: int,
)
    requires
        paths_are_distinct(children),
        0 <= i < children.len(),
        children[i].kind matches ChildKind::JobDir { walk } && 0 <= k < walk@.len() && (
        walk@[k] matches Visit::File { modified } && is_fresh(modified, now, ttl_seconds)),
    ensures
        !doomed_paths(children, now, ttl_seconds).contains(children[i].path@),
{
    match children[i].kind {
        ChildKind::JobDir { walk } => {
            fresh_file_keeps_directory(walk@, now, ttl_seconds, k);
        },
        _ => {},
    }
    kept_entry_survives(children, now, ttl_seconds, i);
}

} // verus!
