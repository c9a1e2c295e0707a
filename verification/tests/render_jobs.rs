use maestro::render_jobs::{
    outcome_status, output_dir, pool_threads, JobRegistry, RenderJob, RenderOutcome, RenderPhase,
    RenderStatus,
};

#[test]
fn jobs_stay_in_order() {
    let mut r = JobRegistry::new();
    r.push(RenderJob::scanning(3, "c.mid".to_string()));
    r.push(RenderJob::scanning(1, "a.mid".to_string()));
    r.push(RenderJob::scanning(2, "b.mid".to_string()));
    let ids: Vec<u64> = (0..r.len()).map(|i| r.get(i).id).collect();
    assert_eq!(ids, vec![1, 2, 3]);
    assert_eq!(r.get(0).stats, "Scanning MIDI…");
    assert!(r.get(0).indeterminate);
}

#[test]
fn jobs_are_updated_and_removed_by_id() {
    let mut r = JobRegistry::new();
    r.push(RenderJob::scanning(1, "a.mid".to_string()));
    r.push(RenderJob::scanning(2, "b.mid".to_string()));
    r.set_stats(2, "Scanning… track 1 of 4");
    assert_eq!(r.get(1).stats, "Scanning… track 1 of 4");
    assert_eq!(r.get(0).stats, "Scanning MIDI…");
    r.start_rendering(2);
    assert_eq!(r.get(1).phase, RenderPhase::Rendering);
    assert!(!r.get(1).indeterminate);
    assert_eq!(r.get(1).stats, "Starting render…");
    r.set_progress(2, 0.5f32.to_bits(), "half");
    assert_eq!(f32::from_bits(r.get(1).progress_bits), 0.5);
    r.remove(1);
    assert_eq!(r.len(), 1);
    assert_eq!(r.get(0).id, 2);
    r.remove(9);
    assert_eq!(r.len(), 1);
}

#[test]
fn worker_counts() {
    assert_eq!(pool_threads(0, 5), None);
    assert_eq!(pool_threads(3, 5), Some(3));
    assert_eq!(pool_threads(8, 5), Some(5));
    assert_eq!(pool_threads(8, 0), None);
}

#[test]
fn output_folders() {
    assert_eq!(output_dir("", "/music/a.mid"), "/music");
    assert_eq!(output_dir("  \t", "/music/a.mid"), "/music");
    assert_eq!(output_dir("/out", "/music/a.mid"), "/out");
    assert_eq!(output_dir("", "a.mid"), "");
    assert_eq!(output_dir("", "/"), ".");
}

#[test]
fn a_render_outcome_sets_the_entry_status() {
    assert_eq!(outcome_status(RenderOutcome::Finished), (RenderStatus::Done, true));
    assert_eq!(outcome_status(RenderOutcome::Failed), (RenderStatus::Failed, true));
    assert_eq!(outcome_status(RenderOutcome::SetupFailed), (RenderStatus::Failed, true));
    assert_eq!(outcome_status(RenderOutcome::Unwound), (RenderStatus::Pending, false));
}
