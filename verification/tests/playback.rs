use audiopass::playback::{PlaybackCommand, PlaybackController, PlaybackWorker, Track};

fn tracks() -> Vec<Track> {
    vec![
        Track { id: 1, path: "/music/a.flac".to_string() },
        Track { id: 2, path: "/music/b.flac".to_string() },
        Track { id: 3, path: "/music/c.flac".to_string() },
    ]
}

#[test]
fn next_wraps_to_first() {
    let list = tracks();
    let mut c = PlaybackController::new();
    c.reset_and_new(list[2].clone());
    c.play_next(&list);
    assert_eq!(c.get_active_track().unwrap().id, 1);
    assert_eq!(c.get_active_track().unwrap().path, "/music/a.flac");
}

#[test]
fn previous_wraps_to_last() {
    let list = tracks();
    let mut c = PlaybackController::new();
    c.reset_and_new(list[0].clone());
    c.play_previous(&list);
    assert_eq!(c.get_active_track().unwrap().id, 3);
}

#[test]
fn next_then_previous_returns() {
    let list = tracks();
    let mut c = PlaybackController::new();
    c.reset_and_new(list[1].clone());
    c.play_next(&list);
    assert_eq!(c.get_active_track().unwrap().id, 3);
    c.play_previous(&list);
    assert_eq!(c.get_active_track().unwrap().id, 2);
}

#[test]
fn missing_active_track_is_dropped() {
    let list = tracks();
    let mut c = PlaybackController::new();
    c.reset_and_new(Track { id: 42, path: "/gone.flac".to_string() });
    c.play_next(&list);
    assert!(c.get_active_track().is_none());
}

#[test]
fn nothing_changes_without_tracks_or_active_track() {
    let mut c = PlaybackController::new();
    c.play_next(&tracks());
    assert!(c.get_active_track().is_none());
    c.reset_and_new(Track { id: 42, path: "/x.flac".to_string() });
    c.play_previous(&[]);
    assert_eq!(c.get_active_track().unwrap().id, 42);
    c.reset();
    assert!(c.get_active_track().is_none());
}

#[test]
fn worker_stops_on_shutdown() {
    let (sender, receiver) = std::sync::mpsc::channel();
    sender.send(PlaybackCommand::Shutdown).unwrap();
    let worker = PlaybackWorker::new(receiver);
    worker.run();
}

#[test]
fn worker_stops_when_senders_are_gone() {
    let (sender, receiver) = std::sync::mpsc::channel::<PlaybackCommand>();
    drop(sender);
    PlaybackWorker::new(receiver).run();
}

#[test]
fn successive_nexts_advance_by_count() {
    let list = tracks();
    let mut c = PlaybackController::new();
    c.reset_and_new(list[1].clone());
    for j in 1..=7usize {
        c.play_next(&list);
        assert_eq!(c.get_active_track().unwrap().id, list[(1 + j) % 3].id);
    }
}

#[test]
fn forgetting_the_active_track_stops_it() {
    let list = tracks();
    let mut c = PlaybackController::new();
    c.reset_and_new(list[0].clone());
    c.forget_track(2);
    assert_eq!(c.get_active_track().unwrap().id, 1);
    c.forget_track(1);
    assert!(c.get_active_track().is_none());
    c.forget_track(1);
    assert!(c.get_active_track().is_none());
}
