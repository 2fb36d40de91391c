use media_sorter::engine::after_check;
use media_sorter::engine::after_directory;
use media_sorter::engine::after_move;
use media_sorter::engine::date_failure;
use media_sorter::engine::plan;
use media_sorter::engine::start;
use media_sorter::engine::Action;
use media_sorter::engine::DirCreation;
use media_sorter::engine::FailureKind;
use media_sorter::engine::Outcome;
use media_sorter::engine::RunConfig;
use media_sorter::engine::RunReport;
use media_sorter::engine::Target;
use media_sorter::bucket::DateTimeError;
use media_sorter::media::classify;
use media_sorter::media::IneligibleReason;
use media_sorter::media::MediaCategory;

fn config(dry_run: bool) -> RunConfig {
    RunConfig { destination_root: "destination".to_string(), owner: "bob".to_string(), dry_run }
}

/// Runs the decisions for one entry against a simulated filesystem step.
fn run_entry(cfg: &RunConfig, name: &str, mtime: i64, occupied: bool, moves: &mut Vec<String>) -> Outcome {
    let category = match classify(false, Some(name)) {
        Ok(c) => c,
        Err(r) => return Outcome::Ineligible(r),
    };
    let target = match Target::build(category, name, mtime) {
        Ok(t) => t,
        Err(e) => return date_failure(e),
    };
    let p = plan(cfg, &target);
    let mut action = start(cfg);
    loop {
        action = match action {
            Action::CreateDirectory => after_directory(DirCreation::Created),
            Action::CheckDestination => after_check(occupied),
            Action::Move => {
                moves.push(p.destination.clone());
                return after_move(true);
            }
            Action::Finish(o) => return o,
        }
    }
}

#[test]
fn end_to_end_scenario() {
    let cfg = config(false);
    let mut moves = Vec::new();
    let mut report = RunReport::new();
    for (name, mtime) in [("photo.heic", 1657454400), ("clip.mov", 1657540800), ("notes.txt", 1657540800)] {
        let o = run_entry(&cfg, name, mtime, false, &mut moves);
        report.record(o);
    }
    assert_eq!(
        moves,
        vec![
            "destination/pictures/bob/2022/july/photo.heic".to_string(),
            "destination/videos/bob/2022/july/clip.mov".to_string(),
        ]
    );
    assert_eq!(report, RunReport { planned: 0, moved: 2, skipped: 1, failed: 0 });
}

#[test]
fn dry_run_plans_without_moving_and_repeats() {
    let cfg = config(true);
    let mut first = Vec::new();
    let mut second = Vec::new();
    for round in 0..2 {
        let mut moves = Vec::new();
        let mut plans = Vec::new();
        for (name, mtime) in [("photo.heic", 1657454400), ("clip.mov", 1657540800)] {
            let o = run_entry(&cfg, name, mtime, false, &mut moves);
            assert_eq!(o, Outcome::Planned);
            let t = Target::build(classify(false, Some(name)).unwrap(), name, mtime).unwrap();
            plans.push(plan(&cfg, &t).destination);
        }
        assert!(moves.is_empty());
        if round == 0 { first = plans } else { second = plans }
    }
    assert_eq!(first, second);
    assert_eq!(start(&cfg), Action::Finish(Outcome::Planned));
}

#[test]
fn taken_destination_is_not_moved() {
    let cfg = config(false);
    let mut moves = Vec::new();
    let o = run_entry(&cfg, "photo.heic", 1657454400, true, &mut moves);
    assert_eq!(o, Outcome::Collision);
    assert!(moves.is_empty());
    assert_eq!(after_check(true), Action::Finish(Outcome::Collision));
    assert_eq!(after_check(false), Action::Move);
}

#[test]
fn nested_entries_resolve_like_top_level_ones() {
    let cfg = config(false);
    let t = Target::build(MediaCategory::Image, "photo.heic", 1657454400).unwrap();
    let p = plan(&cfg, &t);
    assert_eq!(p.directory, "destination/pictures/bob/2022/july");
    assert_eq!(p.destination, "destination/pictures/bob/2022/july/photo.heic");
}

#[test]
fn directory_steps() {
    assert_eq!(start(&config(false)), Action::CreateDirectory);
    assert_eq!(after_directory(DirCreation::Created), Action::CheckDestination);
    assert_eq!(after_directory(DirCreation::AlreadyExists), Action::CheckDestination);
    assert_eq!(after_directory(DirCreation::Failed), Action::Finish(Outcome::Failed(FailureKind::Io)));
    assert_eq!(after_move(false), Outcome::Failed(FailureKind::Io));
    assert_eq!(after_move(true), Outcome::Moved);
}

#[test]
fn bad_mtime_fails_the_entry() {
    assert!(Target::build(MediaCategory::Video, "x.mp4", i64::MAX).is_err());
    assert_eq!(date_failure(DateTimeError), Outcome::Failed(FailureKind::DateTime));
}

#[test]
fn report_counts_each_outcome() {
    let outcomes = vec![
        Outcome::Moved,
        Outcome::Planned,
        Outcome::Collision,
        Outcome::Ineligible(IneligibleReason::IsDirectory),
        Outcome::Failed(FailureKind::Traversal),
        Outcome::Moved,
    ];
    let r = RunReport::tally(&outcomes);
    assert_eq!(r, RunReport { planned: 1, moved: 2, skipped: 2, failed: 1 });
    let mut full = RunReport { planned: u64::MAX, moved: 0, skipped: 0, failed: 0 };
    full.record(Outcome::Planned);
    assert_eq!(full.planned, u64::MAX);
}
