use progress_tracking::{Progress, Task, TaskProgress};

/// The completion ratio of the last finished frame as a float, computed from
/// the exact fraction the library reports.
fn ratio_f32(p: &Progress) -> f32 {
    let (done, tasks) = p.progress_ratio();
    done as f32 / tasks as f32
}

#[test]
fn correctly_tracks_persistent_tasks() {
    let mut progress = Progress::default();
    progress.persist_tasks(3);
    progress.persist_done(1);
    progress.persist_done_tasks(3);
    assert_eq!(progress.current, TaskProgress::default());
    assert_eq!(progress.previous, TaskProgress::default());

    progress.finish_frame();
    assert_eq!(ratio_f32(&progress), 4. / 6.);
    assert_eq!(progress.current, TaskProgress::default());
    assert_eq!(progress.previous, TaskProgress { tasks: 6, done: 4 });

    progress.finish_frame();
    assert_eq!(ratio_f32(&progress), 4. / 6.);
}

#[test]
fn register_then_finish_reports_exact_fraction() {
    let mut progress = Progress::default();
    progress.track(3, 2);
    progress.finish_frame();
    assert_eq!(progress.progress_ratio(), (2, 3));
    assert_eq!(ratio_f32(&progress), 2. / 3.);
}

#[test]
fn reporting_is_idempotent() {
    let mut progress = Progress::default();
    progress.track(5, 2);
    progress.finish_frame();
    let first = progress.progress_ratio();
    let second = progress.progress_ratio();
    let third = progress.progress_ratio();
    assert_eq!(first, (2, 5));
    assert_eq!(second, first);
    assert_eq!(third, first);
}

#[test]
fn persisted_baseline_reapplies_every_frame() {
    let mut progress = Progress::default();
    progress.persist_done_tasks(42);

    progress.finish_frame();
    assert_eq!(progress.progress_ratio(), (42, 42));
    assert_eq!(ratio_f32(&progress), 1.0);

    progress.finish_frame();
    assert_eq!(progress.progress_ratio(), (42, 42));
    assert_eq!(ratio_f32(&progress), 1.0);
}

#[test]
fn registrations_after_finish_do_not_move_the_snapshot() {
    let mut progress = Progress::default();
    progress.track(4, 1);
    progress.finish_frame();
    assert_eq!(progress.progress_ratio(), (1, 4));

    progress.track(10, 10);
    progress.task(Task::Done);
    assert_eq!(progress.previous, TaskProgress { tasks: 4, done: 1 });
    assert_eq!(progress.progress_ratio(), (1, 4));

    progress.finish_frame();
    assert_eq!(progress.progress_ratio(), (11, 11));
}

#[test]
fn overshooting_done_is_clamped_to_one() {
    let mut progress = Progress::default();
    progress.track(2, 5);
    progress.finish_frame();
    assert_eq!(progress.progress_ratio(), (2, 2));
    assert_eq!(ratio_f32(&progress), 1.0);
}

#[test]
fn clear_resets_every_horizon() {
    let mut progress = Progress::default();
    progress.track(7, 3);
    progress.persist_done_tasks(9);
    progress.finish_frame();
    progress.clear();
    assert_eq!(progress.current, TaskProgress::default());
    assert_eq!(progress.previous, TaskProgress::default());
    assert_eq!(progress.persisted, TaskProgress::default());

    progress.finish_frame();
    assert_eq!(progress.progress_ratio(), (0, 0));
}

#[test]
fn single_tasks_count_one_each() {
    let mut progress = Progress::default();
    progress.task(Task::Done);
    progress.task(Task::InProgress);
    assert_eq!(progress.current, TaskProgress { tasks: 2, done: 1 });
    progress.finish_frame();
    assert_eq!(progress.progress_ratio(), (1, 2));
    assert_eq!(ratio_f32(&progress), 0.5);
}

#[test]
fn pending_baseline_reports_zero_progress() {
    let mut progress = Progress::default();
    progress.persist_tasks(8);
    progress.finish_frame();
    assert_eq!(progress.progress_ratio(), (0, 8));
    assert_eq!(ratio_f32(&progress), 0.0);
}

#[test]
fn fresh_ledger_reports_the_degenerate_snapshot() {
    let mut progress = Progress::default();
    assert_eq!(progress.progress_ratio(), (0, 0));
    progress.finish_frame();
    assert_eq!(progress.progress_ratio(), (0, 0));
}
