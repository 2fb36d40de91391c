//! The per-entry decisions of a run over a source tree: what to build for an
//! entry, where it goes, which filesystem step comes next, and the tally of
//! outcomes. The caller performs each step and reports back what happened.
use vstd::prelude::*;
use vstd::string::StringExecFns;
use crate::bucket::DateTimeError;
use crate::bucket::TemporalBucket;
use crate::bucket::bucket_for;
use crate::bucket::bucket_spec;
use crate::media::IneligibleReason;
use crate::media::MediaCategory;
use crate::resolve::destination_dir;
use crate::resolve::destination_path;
use crate::resolve::resolve;
use crate::resolve::resolve_dir;

verus! {

/// The settings of one run.
#[derive(Clone, Debug)]
pub struct RunConfig {
    /// The canonical root of the archive.
    pub destination_root: String,
    /// The owner's name, a path segment between category and year.
    pub owner: String,
    /// Report planned moves without touching the filesystem.
    pub dry_run: bool,
}

/// An entry that is to be relocated.
#[derive(Clone, Debug)]
pub struct Target {
    pub category: MediaCategory,
    pub bucket: TemporalBucket,
    /// The entry's file name, kept in the archive.
    pub name: String,
}

impl Target {
    /// The target of an entry of `category` named `name` whose modification
    /// time is `mtime_secs` seconds since the Unix epoch.
    pub fn build(category: MediaCategory, name: &str, mtime_secs: i64) -> (r: Result<
        Target,
        DateTimeError,
    >)
        ensures
            match r {
                Ok(t) => t.category == category && t.name@ == name@ && bucket_spec(
                    mtime_secs as int,
                ) == Some(t.bucket@),
                Err(_) => bucket_spec(mtime_secs as int) is None,
            },
    {
        match bucket_for(mtime_secs) {
            Ok(bucket) => Ok(Target { category, bucket, name: String::from_str(name) }),
            Err(e) => Err(e),
        }
    }
}

/// Where a target goes: the directory to make and the file's new path.
#[derive(Clone, Debug)]
pub struct Plan {
    pub directory: String,
    pub destination: String,
}

/// The directory a target goes to under a run's settings.
pub open spec fn plan_directory(config: RunConfig, target: Target) -> Seq<char> {
    destination_dir(
        config.destination_root@,
        target.category,
        config.owner@,
        target.bucket.year@,
        target.bucket.month@,
    )
}

/// The path a target goes to under a run's settings.
pub open spec fn plan_destination(config: RunConfig, target: Target) -> Seq<char> {
    destination_path(
        config.destination_root@,
        target.category,
        config.owner@,
        target.bucket.year@,
        target.bucket.month@,
        target.name@,
    )
}

/// The directory and path that a target goes to.
pub fn plan(config: &RunConfig, target: &Target) -> (r: Plan)
    ensures
        r.directory@ == plan_directory(*config, *target),
        r.destination@ == plan_destination(*config, *target),
{
    let directory = resolve_dir(
        config.destination_root.as_str(),
        target.category,
        config.owner.as_str(),
        &target.bucket,
    );
    let destination = resolve(
        config.destination_root.as_str(),
        target.category,
        config.owner.as_str(),
        &target.bucket,
        target.name.as_str(),
    );
    Plan { directory, destination }
}

/// Kinds of failure that end the handling of one entry.
#[derive(Clone, Copy, Debug, PartialEq, Eq, Structural)]
pub enum FailureKind {
    /// The walk could not read the entry.
    Traversal,
    /// Reading metadata, resolving the path, making the directory or moving
    /// the file failed.
    Io,
    /// The modification time is not a calendar date.
    DateTime,
}

/// How the handling of one entry ended.
#[derive(Clone, Copy, Debug, PartialEq, Eq, Structural)]
pub enum Outcome {
    /// Dry run: the move was computed and reported, nothing was touched.
    Planned,
    /// The file was moved to its destination.
    Moved,
    /// The entry is not one to relocate.
    Ineligible(IneligibleReason),
    /// The destination is taken; the source was left in place.
    Collision,
    /// The entry was skipped after a failure.
    Failed(FailureKind),
}

/// The next step for a target whose plan has been made.
#[derive(Clone, Copy, Debug, PartialEq, Eq, Structural)]
pub enum Action {
    /// Make the plan's directory and its missing parents.
    CreateDirectory,
    /// Find out whether the plan's destination is taken.
    CheckDestination,
    /// Rename the source to the plan's destination.
    Move,
    /// Nothing more to do for this entry.
    Finish(Outcome),
}

/// What making the destination directory came to.
#[derive(Clone, Copy, Debug, PartialEq, Eq, Structural)]
pub enum DirCreation {
    Created,
    AlreadyExists,
    Failed,
}

/// Whether an action changes the filesystem.
pub open spec fn mutates(a: Action) -> bool {
    a is CreateDirectory || a is Move
}

/// The first step for a planned target.
pub open spec fn first_action(dry_run: bool) -> Action {
    if dry_run {
        Action::Finish(Outcome::Planned)
    } else {
        Action::CreateDirectory
    }
}

/// The step after making the destination directory.
pub open spec fn action_after_directory(r: DirCreation) -> Action {
    match r {
        DirCreation::Failed => Action::Finish(Outcome::Failed(FailureKind::Io)),
        _ => Action::CheckDestination,
    }
}

/// The step after looking at the destination.
pub open spec fn action_after_check(occupied: bool) -> Action {
    if occupied {
        Action::Finish(Outcome::Collision)
    } else {
        Action::Move
    }
}

/// The outcome of the rename.
pub open spec fn outcome_of_move(moved: bool) -> Outcome {
    if moved {
        Outcome::Moved
    } else {
        Outcome::Failed(FailureKind::Io)
    }
}

/// The first step for a planned target: in a dry run, report it and stop.
pub fn start(config: &RunConfig) -> (r: Action)
    ensures
        r == first_action(config.dry_run),
{
    if config.dry_run {
        Action::Finish(Outcome::Planned)
    } else {
        Action::CreateDirectory
    }
}

/// The step after making the destination directory: a directory that was
/// there already is no failure.
pub fn after_directory(r: DirCreation) -> (a: Action)
    ensures
        a == action_after_directory(r),
{
    match r {
        DirCreation::Failed => Action::Finish(Outcome::Failed(FailureKind::Io)),
        _ => Action::CheckDestination,
    }
}

/// The step after looking at the destination: a taken destination is never
/// overwritten.
pub fn after_check(occupied: bool) -> (a: Action)
    ensures
        a == action_after_check(occupied),
{
    if occupied {
        Action::Finish(Outcome::Collision)
    } else {
        Action::Move
    }
}

/// The outcome of the rename.
pub fn after_move(moved: bool) -> (o: Outcome)
    ensures
        o == outcome_of_move(moved),
{
    if moved {
        Outcome::Moved
    } else {
        Outcome::Failed(FailureKind::Io)
    }
}

/// The outcome of an entry whose modification time is not a date.
pub fn date_failure(e: DateTimeError) -> (o: Outcome)
    ensures
        o == Outcome::Failed(FailureKind::DateTime),
{
    Outcome::Failed(FailureKind::DateTime)
}

/// The counts of outcomes over a run.
#[derive(Clone, Copy, Debug, PartialEq, Eq, Structural)]
pub struct RunReport {
    pub planned: u64,
    pub moved: u64,
    pub skipped: u64,
    pub failed: u64,
}

/// A count raised by one, held at its largest value.
pub open spec fn bump(n: u64) -> u64 {
    if n < u64::MAX {
        (n + 1) as u64
    } else {
        n
    }
}

/// The report after one more outcome.
pub open spec fn recorded(r: RunReport, o: Outcome) -> RunReport {
    match o {
        Outcome::Planned => RunReport { planned: bump(r.planned), ..r },
        Outcome::Moved => RunReport { moved: bump(r.moved), ..r },
        Outcome::Ineligible(_) | Outcome::Collision => RunReport { skipped: bump(r.skipped), ..r },
        Outcome::Failed(_) => RunReport { failed: bump(r.failed), ..r },
    }
}

/// The report over a sequence of outcomes, from an empty one.
pub open spec fn report_of(outcomes: Seq<Outcome>) -> RunReport
    decreases outcomes.len(),
{
    if outcomes.len() == 0 {
        RunReport { planned: 0, moved: 0, skipped: 0, failed: 0 }
    } else {
        recorded(report_of(outcomes.drop_last()), outcomes.last())
    }
}

fn bump_count(n: u64) -> (r: u64)
    ensures
        r == bump(n),
{
    if n < u64::MAX {
        n + 1
    } else {
        n
    }
}

impl RunReport {
    /// A report with nothing counted.
    pub fn new() -> (r: RunReport)
        ensures
            r == report_of(Seq::empty()),
    {
        RunReport { planned: 0, moved: 0, skipped: 0, failed: 0 }
    }

    /// Counts one more outcome.
    pub fn record(&mut self, o: Outcome)
        ensures
            *final(self) == recorded(*old(self), o),
    {
        match o {
            Outcome::Planned => self.planned = bump_count(self.planned),
            Outcome::Moved => self.moved = bump_count(self.moved),
            Outcome::Ineligible(_) | Outcome::Collision => self.skipped = bump_count(self.skipped),
            Outcome::Failed(_) => self.failed = bump_count(self.failed),
        }
    }

    /// The report over a sequence of outcomes.
    pub fn tally(outcomes: &Vec<Outcome>) -> (r: RunReport)
        ensures
            r == report_of(outcomes@),
    {
        let mut r = RunReport::new();
        let mut i: usize = 0;
        while i < outcomes.len()
            invariant
                i <= outcomes@.len(),
                r == report_of(outcomes@.subrange(0, i as int)),
            decreases outcomes@.len() - i,
        {
            assert(outcomes@.subrange(0, i + 1).drop_last() =~= outcomes@.subrange(0, i as int));
            r.record(outcomes[i]);
            i = i + 1;
        }
        assert(outcomes@.subrange(0, i as int) =~= outcomes@);
        r
    }
}

} // verus!
