use mpv_sponsorblock::worker::{WorkerAction, WorkerEvent};
use mpv_sponsorblock::{
    Action, Category, Config, LookupError, ResultCache, Segment, Worker, WorkerState,
};

fn segment(action: Action, start: i64, end: i64, uuid: &str) -> Segment {
    Segment { category: Category::Sponsor, action, segment: [start, end], uuid: uuid.to_string() }
}

fn path(id: &str) -> String {
    format!("https://www.youtube.com/watch?v={}", id)
}

#[test]
fn a_new_worker_knows_nothing() {
    let worker = Worker::new();
    assert!(matches!(worker.state, WorkerState::Absent));
    assert_eq!(worker.generation, 0);
    assert!(!worker.fetched());
    assert_eq!(worker.get_skip_segment(0), None);
    assert_eq!(worker.get_mute_segment(0), None);
    assert_eq!(worker.get_video_poi(), None);
    assert_eq!(worker.get_video_category(), None);
}

#[test]
fn a_result_makes_the_worker_ready() {
    let mut worker = Worker::new();
    let generation = worker.start();
    assert_eq!(generation, 1);
    assert!(matches!(worker.state, WorkerState::Pending));
    assert!(worker.publish(generation, Ok(vec![segment(Action::Skip, 0, 1_000_000, "s")])));
    assert!(worker.fetched());
    assert_eq!(worker.get_skip_segment(500_000).map(|s| s.uuid), Some("s".to_string()));
}

#[test]
fn no_segments_and_errors_leave_the_worker_without() {
    for outcome in [
        Ok(Vec::new()),
        Err(LookupError::NotFound),
        Err(LookupError::Transient("timeout".to_string())),
        Err(LookupError::Malformed("not json".to_string())),
    ] {
        let mut worker = Worker::new();
        let generation = worker.start();
        assert!(!worker.publish(generation, outcome));
        assert!(matches!(worker.state, WorkerState::Absent));
    }
}

#[test]
fn a_cancelled_lookup_writes_nothing() {
    let mut worker = Worker::new();
    let generation = worker.start();
    assert!(!worker.publish(generation, Err(LookupError::Cancelled)));
    assert!(matches!(worker.state, WorkerState::Pending));
}

#[test]
fn a_late_result_is_dropped() {
    let mut worker = Worker::new();
    let first = worker.start();
    let second = worker.start();
    assert_ne!(first, second);
    assert!(!worker.publish(first, Ok(vec![segment(Action::Skip, 0, 1_000_000, "old")])));
    assert!(matches!(worker.state, WorkerState::Pending));
    assert!(worker.publish(second, Ok(vec![segment(Action::Skip, 0, 1_000_000, "new")])));
    assert!(!worker.publish(first, Ok(vec![segment(Action::Skip, 0, 1_000_000, "old")])));
    assert_eq!(worker.get_skip_segment(1).map(|s| s.uuid), Some("new".to_string()));
}

#[test]
fn a_result_is_taken_once() {
    let mut worker = Worker::new();
    let generation = worker.start();
    assert!(worker.publish(generation, Ok(vec![segment(Action::Skip, 0, 1_000_000, "one")])));
    assert!(!worker.publish(generation, Ok(vec![segment(Action::Skip, 0, 1_000_000, "two")])));
    assert!(!worker.publish(generation, Err(LookupError::NotFound)));
    assert_eq!(worker.get_skip_segment(1).map(|s| s.uuid), Some("one".to_string()));
}

#[test]
fn nothing_is_written_after_a_stop() {
    let mut worker = Worker::new();
    let generation = worker.start();
    worker.stop();
    assert!(matches!(worker.state, WorkerState::Absent));
    assert!(!worker.publish(generation, Ok(vec![segment(Action::Skip, 0, 1_000_000, "s")])));
    assert!(matches!(worker.state, WorkerState::Absent));
}

#[test]
fn the_generation_wraps() {
    let mut worker = Worker { state: WorkerState::Absent, generation: u64::MAX };
    assert_eq!(worker.start(), 0);
}

#[test]
fn a_video_path_starts_a_lookup() {
    let mut worker = Worker::new();
    let mut cache = ResultCache::new();
    let config = Config::default();
    let action = worker.handle(&mut cache, &config, WorkerEvent::Path(path("dQw4w9WgXcQ")));
    assert_eq!(
        action,
        WorkerAction::Fetch {
            generation: 1,
            id: "dQw4w9WgXcQ".to_string(),
            request: "https://sponsor.ajay.app/api/skipSegments?videoID=dQw4w9WgXcQ".to_string(),
        }
    );
    assert!(matches!(worker.state, WorkerState::Pending));
}

#[test]
fn another_path_starts_nothing() {
    let mut worker = Worker::new();
    let mut cache = ResultCache::new();
    let config = Config::default();
    worker.start();
    let action = worker.handle(
        &mut cache,
        &config,
        WorkerEvent::Path("file:///home/me/videos/some_video_file.mkv".to_string()),
    );
    assert_eq!(action, WorkerAction::Wait);
    assert!(matches!(worker.state, WorkerState::Absent));
}

#[test]
fn a_result_is_published_and_cached() {
    let mut worker = Worker::new();
    let mut cache = ResultCache::new();
    let config = Config::default();
    worker.handle(&mut cache, &config, WorkerEvent::Path(path("dQw4w9WgXcQ")));
    let action = worker.handle(
        &mut cache,
        &config,
        WorkerEvent::Fetched {
            generation: 1,
            id: "dQw4w9WgXcQ".to_string(),
            outcome: Ok(vec![segment(Action::Skip, 0, 1_000_000, "s")]),
        },
    );
    assert_eq!(action, WorkerAction::Notify);
    assert!(worker.fetched());
    let again = worker.handle(&mut cache, &config, WorkerEvent::Path(path("dQw4w9WgXcQ")));
    assert_eq!(again, WorkerAction::Notify);
    assert_eq!(worker.generation, 2);
    assert_eq!(worker.get_skip_segment(1).map(|s| s.uuid), Some("s".to_string()));
}

#[test]
fn a_failed_lookup_is_asked_again() {
    let mut worker = Worker::new();
    let mut cache = ResultCache::new();
    let config = Config::default();
    worker.handle(&mut cache, &config, WorkerEvent::Path(path("dQw4w9WgXcQ")));
    let action = worker.handle(
        &mut cache,
        &config,
        WorkerEvent::Fetched {
            generation: 1,
            id: "dQw4w9WgXcQ".to_string(),
            outcome: Err(LookupError::Transient("connection reset".to_string())),
        },
    );
    assert_eq!(action, WorkerAction::Wait);
    assert!(matches!(worker.state, WorkerState::Absent));
    let again = worker.handle(&mut cache, &config, WorkerEvent::Path(path("dQw4w9WgXcQ")));
    assert!(matches!(again, WorkerAction::Fetch { generation: 2, .. }));
}

#[test]
fn a_result_for_the_video_before_is_cached_and_not_published() {
    let mut worker = Worker::new();
    let mut cache = ResultCache::new();
    let config = Config::default();
    worker.handle(&mut cache, &config, WorkerEvent::Path(path("aaaaaaaaaaa")));
    worker.handle(&mut cache, &config, WorkerEvent::Path(path("bbbbbbbbbbb")));
    let action = worker.handle(
        &mut cache,
        &config,
        WorkerEvent::Fetched {
            generation: 1,
            id: "aaaaaaaaaaa".to_string(),
            outcome: Ok(vec![segment(Action::Skip, 0, 1_000_000, "of-a")]),
        },
    );
    assert_eq!(action, WorkerAction::Wait);
    assert!(matches!(worker.state, WorkerState::Pending));
    assert_eq!(worker.get_skip_segment(1), None);
    assert_eq!(cache.get("aaaaaaaaaaa").map(|s| s.len()), Some(1));
}

#[test]
fn a_service_without_address_is_a_failed_lookup() {
    let mut worker = Worker::new();
    let mut cache = ResultCache::new();
    let mut config = Config::default();
    config.server_address = "not an address".to_string();
    let action = worker.handle(&mut cache, &config, WorkerEvent::Path(path("dQw4w9WgXcQ")));
    assert_eq!(action, WorkerAction::Wait);
    assert!(matches!(worker.state, WorkerState::Absent));
}

#[test]
fn cancel_ends_the_worker() {
    let mut worker = Worker::new();
    let mut cache = ResultCache::new();
    let config = Config::default();
    worker.handle(&mut cache, &config, WorkerEvent::Path(path("dQw4w9WgXcQ")));
    assert_eq!(worker.handle(&mut cache, &config, WorkerEvent::Cancel), WorkerAction::Exit);
    assert!(matches!(worker.state, WorkerState::Absent));
}
