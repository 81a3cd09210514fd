use audiopass::datastore::{
    get_save_path, queue_outcome, DatastoreManager, SaveDebouncer, SaveWait, SaveWorkerEvent,
    SavedData, SAVE_DEBOUNCE_MILLIS,
};
use audiopass::playback::Track;

fn runtime() -> tokio::runtime::Runtime {
    tokio::runtime::Builder::new_current_thread().build().unwrap()
}

fn datastore_with(paths: &[(u128, &str)]) -> (DatastoreManager, tokio::sync::watch::Receiver<Option<Vec<u8>>>) {
    let data = SavedData {
        track_list: paths.iter().map(|(id, p)| Track { id: *id, path: p.to_string() }).collect(),
    };
    let (sender, receiver) = tokio::sync::watch::channel(None);
    (DatastoreManager::new(data, sender, runtime()), receiver)
}

/// A stand-in serializer: the low byte of each id, then each path's length.
fn ids_and_lengths(data: &SavedData) -> Result<Vec<u8>, String> {
    let mut bytes: Vec<u8> = data.track_list.iter().map(|t| t.id as u8).collect();
    bytes.extend(data.track_list.iter().map(|t| t.path.len() as u8));
    Ok(bytes)
}

fn failing(_: &SavedData) -> Result<Vec<u8>, String> {
    Err("no".to_string())
}

#[test]
fn remove_drops_every_track_with_the_id() {
    let (mut store, rx) = datastore_with(&[(1, "/a"), (2, "/b"), (1, "/c"), (3, "/d")]);
    assert_eq!(store.tracks().remove(1, ids_and_lengths), Ok(()));
    let ids: Vec<u128> = store.tracks().get().iter().map(|t| t.id).collect();
    assert_eq!(ids, vec![2, 3]);
    assert_eq!(*rx.borrow(), Some(vec![2, 3, 2, 2]));
    assert_eq!(store.tracks().remove(1, ids_and_lengths), Ok(()));
    assert_eq!(store.tracks().get().len(), 2);
    assert_eq!(
        store.tracks().remove(99, failing),
        Err("Failed to serialize preferences data: no".to_string())
    );
    assert_eq!(store.tracks().get().len(), 2);
    assert_eq!(*rx.borrow(), Some(vec![2, 3, 2, 2]));
}

#[test]
fn remove_keeps_its_change_when_the_worker_is_gone() {
    let (mut store, rx) = datastore_with(&[(1, "/a"), (2, "/b")]);
    drop(rx);
    assert_eq!(
        store.tracks().remove(1, ids_and_lengths),
        Err("Failed to queue AudioPass preferences save: save worker stopped".to_string())
    );
    assert_eq!(store.tracks().get().len(), 1);
}

#[test]
fn add_appends_tracks_with_fresh_ids() {
    let (mut store, rx) = datastore_with(&[(7, "/kept")]);
    assert_eq!(store.tracks().add(vec!["/x.ogg".to_string(), "/y.ogg".to_string()], ids_and_lengths), Ok(()));
    let tracks = store.tracks().get().to_vec();
    let expected: Vec<u8> = vec![7, tracks[1].id as u8, tracks[2].id as u8, 5, 6, 6];
    assert_eq!(*rx.borrow(), Some(expected));
    assert_eq!(tracks.len(), 3);
    assert_eq!(tracks[0].id, 7);
    assert_eq!(tracks[1].path, "/x.ogg");
    assert_eq!(tracks[2].path, "/y.ogg");
    assert_ne!(tracks[1].id, tracks[2].id);
    assert_ne!(tracks[1].id, 0);
    for t in &tracks[1..] {
        assert_eq!(t.id & 0xF000_0000_0000_0000_0000, 0x4000_0000_0000_0000_0000);
        assert_eq!(t.id & 0xC000_0000_0000_0000, 0x8000_0000_0000_0000);
        assert_eq!(uuid::Uuid::from_u128(t.id).get_version_num(), 4);
    }
}

#[test]
fn save_hands_snapshot_to_worker() {
    let (mut store, rx) = datastore_with(&[]);
    assert_eq!(store.debounced_save(Ok(vec![1, 2, 3])), Ok(()));
    assert_eq!(*rx.borrow(), Some(vec![1, 2, 3]));
    assert_eq!(store.debounced_save(Ok(vec![4])), Ok(()));
    assert_eq!(*rx.borrow(), Some(vec![4]));
}

#[test]
fn save_fails_when_worker_is_gone() {
    let (mut store, rx) = datastore_with(&[]);
    drop(rx);
    assert_eq!(
        store.debounced_save(Ok(vec![1])),
        Err("Failed to queue AudioPass preferences save: save worker stopped".to_string())
    );
}

#[test]
fn save_reports_serialization_failure() {
    let (mut store, rx) = datastore_with(&[]);
    assert_eq!(
        store.debounced_save(Err("bad".to_string())),
        Err("Failed to serialize preferences data: bad".to_string())
    );
    assert_eq!(*rx.borrow(), None);
}

#[test]
fn queue_outcome_values() {
    assert_eq!(queue_outcome(true), Ok(()));
    assert!(queue_outcome(false).is_err());
}

#[test]
fn save_path_prefers_xdg_config_home() {
    assert_eq!(get_save_path(Some("/xdg".to_string()), Some("/home/u".to_string())), "/xdg/audiopass/data.json");
    assert_eq!(get_save_path(Some("/xdg/".to_string()), None), "/xdg/audiopass/data.json");
}

#[test]
fn save_path_falls_back_to_home_then_working_directory() {
    assert_eq!(get_save_path(Some(String::new()), Some("/home/u".to_string())), "/home/u/.config/audiopass/data.json");
    assert_eq!(get_save_path(None, Some("/".to_string())), "/.config/audiopass/data.json");
    assert_eq!(get_save_path(None, Some(String::new())), ".config/audiopass/data.json");
    assert_eq!(get_save_path(None, None), ".config/audiopass/data.json");
}

#[test]
fn debouncer_writes_latest_snapshot_after_quiet_period() {
    let mut d = SaveDebouncer::new();
    assert_eq!(d.next_wait(), SaveWait::UntilChanged);
    assert_eq!(d.on_event(SaveWorkerEvent::Changed(Some(vec![1]))), None);
    assert_eq!(d.next_wait(), SaveWait::UntilChangedOrTimeout);
    assert_eq!(d.on_event(SaveWorkerEvent::Changed(Some(vec![2]))), None);
    assert_eq!(d.on_event(SaveWorkerEvent::Changed(None)), None);
    assert_eq!(d.on_event(SaveWorkerEvent::TimedOut), Some(vec![2]));
    assert_eq!(d.next_wait(), SaveWait::UntilChanged);
    assert_eq!(SAVE_DEBOUNCE_MILLIS, 500);
}

#[test]
fn debouncer_writes_pending_snapshot_when_sender_closes() {
    let mut d = SaveDebouncer::new();
    d.on_event(SaveWorkerEvent::Changed(Some(vec![5])));
    assert_eq!(d.on_event(SaveWorkerEvent::Closed), Some(vec![5]));
    assert_eq!(d.next_wait(), SaveWait::Finished);
    assert_eq!(d.on_event(SaveWorkerEvent::Changed(Some(vec![6]))), None);
}

#[test]
fn debouncer_ignores_empty_values_and_stops_quietly() {
    let mut d = SaveDebouncer::new();
    assert_eq!(d.on_event(SaveWorkerEvent::Changed(None)), None);
    assert_eq!(d.next_wait(), SaveWait::UntilChanged);
    assert_eq!(d.on_event(SaveWorkerEvent::Closed), None);
    assert_eq!(d.next_wait(), SaveWait::Finished);
}
