//! The saved track list, where it is saved, and when.
use vstd::prelude::*;
use vstd::string::StringExecFns;
use tokio::runtime::Runtime;
use tokio::sync::watch::Sender;

use crate::playback::{unique_track_ids, Track};

verus! {

#[verifier::external_type_specification]
#[verifier::external_body]
#[verifier::reject_recursive_types(T)]
pub struct ExWatchSender<T>(Sender<T>);

#[verifier::external_type_specification]
#[verifier::external_body]
pub struct ExRuntime(Runtime);

/// The value a watch channel holds now, as its sender sees it (`None`:
/// nothing to save). The datastore holds the channel's one sender and no
/// receiver writes, so the value changes only through `send_snapshot`.
pub uninterp spec fn watched_snapshot(sender: Sender<Option<Vec<u8>>>) -> Option<Seq<u8>>;

/// `tokio::sync::watch::Sender::send` with `Some(snapshot)`. When a receiver
/// exists it stores the snapshot as the channel's value and succeeds
/// (`true`); when every receiver is gone it fails (`false`) and the value
/// stays as it was. Whether a receiver exists is up to the save worker's
/// thread, so which of the two comes is not stated.
#[verifier::external_body]
fn send_snapshot(sender: &mut Sender<Option<Vec<u8>>>, snapshot: Vec<u8>) -> (sent: bool)
    ensures
        sent ==> watched_snapshot(*final(sender)) == Some(snapshot@),
        !sent ==> watched_snapshot(*final(sender)) == watched_snapshot(*old(sender)),
{
    sender.send(Some(snapshot)).is_ok()
}

/// Whether a 128-bit id has the marks of a random (version 4, RFC 4122
/// variant) UUID: its version nibble is 4 and its variant bits are `10`.
pub open spec fn is_random_uuid(id: u128) -> bool {
    &&& id & 0xF000_0000_0000_0000_0000u128 == 0x4000_0000_0000_0000_0000u128
    &&& id & 0xC000_0000_0000_0000u128 == 0x8000_0000_0000_0000u128
}

/// `uuid::Uuid::new_v4`, as its 128 bits (`Uuid::as_u128`): a fresh random
/// id with the version and variant bits set. Which id comes is up to the
/// random source, so only those bits are stated.
#[verifier::external_body]
fn new_track_id() -> (id: u128)
    ensures
        is_random_uuid(id),
{
    uuid::Uuid::new_v4().as_u128()
}

/// The bits of `k` (below 2^64) moved off the version and variant bits of
/// an id: its low 62 bits stay, its top two go to bits 64 and 65.
pub open spec fn spread_bits(k: u128) -> u128 {
    (k & 0x3FFF_FFFF_FFFF_FFFFu128) | ((k >> 62u128) << 64u128)
}

/// Distinct counts below 2^64 give distinct ids from one random id, and
/// every one of them keeps the random-id marks.
proof fn lemma_spread_ids(c: u128, a: u128, b: u128)
    requires
        a < 0x1_0000_0000_0000_0000u128,
        b < 0x1_0000_0000_0000_0000u128,
    ensures
        a != b ==> c ^ spread_bits(a) != c ^ spread_bits(b),
        is_random_uuid(c) ==> is_random_uuid(c ^ spread_bits(a)),
{
    assert(a != b ==> c ^ ((a & 0x3FFF_FFFF_FFFF_FFFFu128) | ((a >> 62u128) << 64u128)) != c ^ ((b
        & 0x3FFF_FFFF_FFFF_FFFFu128) | ((b >> 62u128) << 64u128))) by (bit_vector)
        requires
            a < 0x1_0000_0000_0000_0000u128,
            b < 0x1_0000_0000_0000_0000u128,
    ;
    assert((c & 0xF000_0000_0000_0000_0000u128 == 0x4000_0000_0000_0000_0000u128 && c
        & 0xC000_0000_0000_0000u128 == 0x8000_0000_0000_0000u128) ==> ((c ^ ((a & 0x3FFF_FFFF_FFFF_FFFFu128) | ((a
        >> 62u128) << 64u128))) & 0xF000_0000_0000_0000_0000u128 == 0x4000_0000_0000_0000_0000u128 && (c ^ ((a
        & 0x3FFF_FFFF_FFFF_FFFFu128) | ((a >> 62u128) << 64u128))) & 0xC000_0000_0000_0000u128
        == 0x8000_0000_0000_0000u128)) by (bit_vector)
        requires
            a < 0x1_0000_0000_0000_0000u128,
    ;
}

/// The ids of `tracks`, in order.
pub open spec fn saved_ids(tracks: Seq<Track>) -> Seq<u128> {
    tracks.map_values(|t: Track| t.id)
}

/// Whether some track of `tracks` has the id `id`.
fn holds_id(tracks: &Vec<Track>, id: u128) -> (found: bool)
    ensures
        found == saved_ids(tracks@).contains(id),
{
    let n = tracks.len();
    let mut i: usize = 0;
    while i < n
        invariant
            n == tracks@.len(),
            i <= n,
            forall|j: int| 0 <= j < i ==> tracks@[j].id != id,
        decreases n - i,
    {
        if tracks[i].id == id {
            assert(saved_ids(tracks@)[i as int] == id);
            return true;
        }
        i = i + 1;
    }
    assert forall|j: int| 0 <= j < saved_ids(tracks@).len() implies saved_ids(tracks@)[j] != id by {
        assert(tracks@[j].id != id);
    };
    false
}

/// An id that no track of `tracks` has: `candidate` itself when it is new,
/// else the first of `candidate ^ spread_bits(k)`, for `k = 1, 2, ...`, that
/// is new. Of the `n + 1` distinct ids for `k <= n`, at most `n` are taken.
fn fresh_track_id(tracks: &Vec<Track>, candidate: u128) -> (id: u128)
    requires
        is_random_uuid(candidate),
    ensures
        is_random_uuid(id),
        !saved_ids(tracks@).contains(id),
        !saved_ids(tracks@).contains(candidate) ==> id == candidate,
{
    let n = tracks.len();
    let ghost ids = saved_ids(tracks@);
    let mut k: u128 = 0;
    while k <= n as u128
        invariant
            n == tracks@.len(),
            ids == saved_ids(tracks@),
            k <= n + 1,
            is_random_uuid(candidate),
            forall|m: u128| m < k ==> ids.contains(#[trigger] (candidate ^ spread_bits(m))),
        decreases n + 1 - k,
    {
        let attempt: u128 = candidate ^ ((k & 0x3FFF_FFFF_FFFF_FFFFu128) | ((k >> 62u128) << 64u128));
        assert(attempt == candidate ^ spread_bits(k));
        if !holds_id(tracks, attempt) {
            proof {
                lemma_spread_ids(candidate, k, k);
                if k > 0 {
                    assert(candidate ^ spread_bits(0) == candidate) by (bit_vector);
                    assert(ids.contains(candidate ^ spread_bits(0)));
                } else {
                    assert(candidate ^ spread_bits(0) == candidate) by (bit_vector);
                }
            }
            return attempt;
        }
        k = k + 1;
    }
    proof {
        let tried = Seq::new((n + 1) as nat, |m: int| candidate ^ spread_bits(m as u128));
        assert forall|a: int, b: int| 0 <= a < tried.len() && 0 <= b < tried.len() && a != b implies tried[a]
            != tried[b] by {
            lemma_spread_ids(candidate, a as u128, b as u128);
        };
        assert(tried.no_duplicates());
        tried.unique_seq_to_set();
        ids.lemma_cardinality_of_set();
        assert forall|v: u128| tried.to_set().contains(v) implies ids.to_set().contains(v) by {
            let m = choose|m: int| 0 <= m < tried.len() && tried[m] == v;
            assert(ids.contains(candidate ^ spread_bits(m as u128)));
        };
        vstd::set_lib::lemma_len_subset(tried.to_set(), ids.to_set());
        assert(false);
    }
    candidate
}

/// The data that AudioPass keeps between runs.
pub struct SavedData {
    pub track_list: Vec<Track>,
}

impl Default for SavedData {
    /// No tracks.
    fn default() -> (d: Self)
        ensures
            d.track_list@ == Seq::<Track>::empty(),
    {
        SavedData { track_list: Vec::new() }
    }
}

/// `tracks` without the tracks whose id is `id`, in their order.
pub open spec fn tracks_without(tracks: Seq<Track>, id: u128) -> Seq<Track>
    decreases tracks.len(),
{
    if tracks.len() == 0 {
        tracks
    } else {
        let rest = tracks_without(tracks.drop_last(), id);
        if tracks.last().id != id {
            rest.push(tracks.last())
        } else {
            rest
        }
    }
}

/// The saved data, and the channel to the worker that writes it to disk.
pub struct DatastoreManager {
    data: SavedData,
    save_sender: Sender<Option<Vec<u8>>>,
    _runtime: Runtime,
}

/// The track list of a datastore, to read and change.
pub struct TracksManager<'a> {
    pub datastore: &'a mut DatastoreManager,
}

impl DatastoreManager {
    /// The tracks saved, in order.
    pub closed spec fn track_list(self) -> Seq<Track> {
        self.data.track_list@
    }

    /// The data kept, as it would be serialized.
    pub closed spec fn saved_data(self) -> SavedData {
        self.data
    }

    /// The snapshot the save worker is offered now: the value of the channel
    /// to it (`None`: nothing handed over yet).
    pub closed spec fn queued_snapshot(self) -> Option<Seq<u8>> {
        watched_snapshot(self.save_sender)
    }

    /// A datastore over `data` (what was read from disk, or nothing), whose
    /// snapshots go to the save worker through `save_sender`; `runtime` runs
    /// that worker and lives as long as the datastore.
    pub fn new(data: SavedData, save_sender: Sender<Option<Vec<u8>>>, runtime: Runtime) -> (d: Self)
        ensures
            d.track_list() == data.track_list@,
            d.queued_snapshot() == watched_snapshot(save_sender),
    {
        DatastoreManager { data, save_sender, _runtime: runtime }
    }

    /// The saved data, to serialize.
    pub fn data(&self) -> (d: &SavedData)
        ensures
            *d == self.saved_data(),
            d.track_list@ == self.track_list(),
    {
        &self.data
    }

    /// The track list, to read and change.
    pub fn tracks(&mut self) -> (t: TracksManager<'_>)
        ensures
            *t.datastore == *old(self),
            *final(self) == *final(t.datastore),
    {
        TracksManager { datastore: self }
    }

    /// Hands a snapshot of the saved data to the save worker, which writes the
    /// latest one it holds once no newer one has come for half a second.
    /// `serialized` is the outcome of serializing the data. On success the
    /// snapshot is the channel's value; on failure the value is unchanged.
    pub fn debounced_save(&mut self, serialized: Result<Vec<u8>, String>) -> (r: Result<(), String>)
        ensures
            final(self).track_list() == old(self).track_list(),
            final(self).saved_data() == old(self).saved_data(),
            save_outcome(serialized, r, old(self).queued_snapshot(), final(self).queued_snapshot()),
    {
        match serialized {
            Err(error) => {
                let mut message = String::from_str("Failed to serialize preferences data: ");
                message.append(error.as_str());
                proof {
                    reveal_strlit("Failed to serialize preferences data: ");
                }
                Err(message)
            },
            Ok(snapshot) => {
                let queued = send_snapshot(&mut self.save_sender, snapshot);
                queue_outcome(queued)
            },
        }
    }
}

/// What a save of `serialized` comes to: the result `r`, and the snapshot
/// queued for the save worker `before` and `after` it. A serialization error
/// is reported with its message; a serialized snapshot is either queued
/// (`Ok`) or refused because the save worker stopped, and then nothing is
/// queued.
pub open spec fn save_outcome(
    serialized: Result<Vec<u8>, String>,
    r: Result<(), String>,
    before: Option<Seq<u8>>,
    after: Option<Seq<u8>>,
) -> bool {
    &&& match serialized {
        Err(e) => (r matches Err(m) && m@ == serialize_failure_prefix() + e@),
        Ok(_) => r is Ok || (r matches Err(m) && m@ == queue_failure_message()),
    }
    &&& (r is Ok ==> serialized is Ok && after == Some(serialized->Ok_0@))
    &&& (r is Err ==> after == before)
}

/// The start of the message for data that could not be serialized.
pub open spec fn serialize_failure_prefix() -> Seq<char> {
    "Failed to serialize preferences data: "@
}

/// The message for a snapshot that the save worker could not take.
pub open spec fn queue_failure_message() -> Seq<char> {
    "Failed to queue AudioPass preferences save: save worker stopped"@
}

/// What a save comes to once the snapshot was (`true`) or was not handed to
/// the save worker.
pub fn queue_outcome(queued: bool) -> (r: Result<(), String>)
    ensures
        queued ==> r is Ok,
        !queued ==> (r matches Err(m) && m@ == queue_failure_message()),
{
    if queued {
        Ok(())
    } else {
        Err(String::from_str("Failed to queue AudioPass preferences save: save worker stopped"))
    }
}

impl<'a> TracksManager<'a> {
    /// The tracks, in order.
    pub fn get(&self) -> (t: &[Track])
        ensures
            t@ == old(self.datastore).track_list(),
    {
        self.datastore.data.track_list.as_slice()
    }

    /// Removes every track whose id is `uuid`, keeping the others in order,
    /// then hands the new list, serialized by `serialize`, to the save worker
    /// and returns what that save comes to (the removal stands either way).
    pub fn remove<F: Fn(&SavedData) -> Result<Vec<u8>, String>>(&mut self, uuid: u128, serialize: F) -> (r: Result<
        (),
        String,
    >)
        requires
            forall|d: &SavedData| #[trigger] serialize.requires((d,)),
        ensures
            final(self).datastore.track_list() == tracks_without(old(self).datastore.track_list(), uuid),
            final(self).datastore.track_list() == old(self).datastore.track_list().filter(|t: Track| t.id != uuid),
            exists|serialized: Result<Vec<u8>, String>|
                {
                    &&& serialize.ensures((&final(self).datastore.saved_data(),), serialized)
                    &&& save_outcome(
                        serialized,
                        r,
                        old(self).datastore.queued_snapshot(),
                        final(self).datastore.queued_snapshot(),
                    )
                },
    {
        proof {
            law_remove_keeps_other_tracks(self.datastore.track_list(), uuid);
        }
        self.remove_from_list(uuid);
        let serialized = serialize(&self.datastore.data);
        self.datastore.debounced_save(serialized)
    }

    /// Adds one track for each of `tracks_to_add`, in order, after the tracks
    /// already there, each with a fresh random id; then hands the new list,
    /// serialized by `serialize`, to the save worker and returns what that
    /// save comes to (the tracks stay added either way).
    pub fn add<F: Fn(&SavedData) -> Result<Vec<u8>, String>>(&mut self, tracks_to_add: Vec<String>, serialize: F) -> (r:
        Result<(), String>)
        requires
            forall|d: &SavedData| #[trigger] serialize.requires((d,)),
        ensures
            ({
                let before = old(self).datastore.track_list();
                let after = final(self).datastore.track_list();
                &&& after.len() == before.len() + tracks_to_add@.len()
                &&& after.take(before.len() as int) == before
                &&& forall|k: int|
                    0 <= k < tracks_to_add@.len() ==> #[trigger] after[before.len() + k].path
                        == tracks_to_add@[k]
                &&& forall|k: int|
                    0 <= k < tracks_to_add@.len() ==> is_random_uuid(#[trigger] after[before.len() + k].id)
                &&& forall|a: int, b: int|
                    #![trigger after[a], after[b]]
                    0 <= a < b < after.len() && b >= before.len() ==> after[a].id != after[b].id
                &&& unique_track_ids(before) ==> unique_track_ids(after)
            }),
            exists|serialized: Result<Vec<u8>, String>|
                {
                    &&& serialize.ensures((&final(self).datastore.saved_data(),), serialized)
                    &&& save_outcome(
                        serialized,
                        r,
                        old(self).datastore.queued_snapshot(),
                        final(self).datastore.queued_snapshot(),
                    )
                },
    {
        self.append_tracks(tracks_to_add);
        let serialized = serialize(&self.datastore.data);
        self.datastore.debounced_save(serialized)
    }

    /// Removes every track whose id is `uuid`; the others keep their order.
    fn remove_from_list(&mut self, uuid: u128)
        ensures
            final(self).datastore.track_list() == tracks_without(old(self).datastore.track_list(), uuid),
            final(self).datastore.queued_snapshot() == old(self).datastore.queued_snapshot(),
    {
        let mut remaining: Vec<Track> = Vec::new();
        std::mem::swap(&mut remaining, &mut self.datastore.data.track_list);
        let ghost initial = remaining@;
        let total: usize = remaining.len();
        let mut kept: Vec<Track> = Vec::new();
        let mut i: usize = 0;
        while remaining.len() > 0
            invariant
                initial.len() == total,
                i <= initial.len(),
                remaining@ == initial.skip(i as int),
                kept@ == tracks_without(initial.take(i as int), uuid),
            decreases remaining.len(),
        {
            let track = remaining.remove(0);
            assert(initial.take(i + 1).drop_last() =~= initial.take(i as int));
            assert(track == initial[i as int]);
            if track.id != uuid {
                kept.push(track);
            }
            i = i + 1;
            assert(remaining@ =~= initial.skip(i as int));
        }
        assert(initial.take(i as int) =~= initial);
        self.datastore.data.track_list = kept;
    }

    /// Adds one track for each of `tracks_to_add`, in order, after the tracks
    /// already there; each gets a fresh random id.
    fn append_tracks(&mut self, tracks_to_add: Vec<String>)
        ensures
            ({
                let before = old(self).datastore.track_list();
                let after = final(self).datastore.track_list();
                &&& after.len() == before.len() + tracks_to_add@.len()
                &&& after.take(before.len() as int) == before
                &&& forall|k: int|
                    0 <= k < tracks_to_add@.len() ==> #[trigger] after[before.len() + k].path
                        == tracks_to_add@[k]
                &&& forall|k: int|
                    0 <= k < tracks_to_add@.len() ==> is_random_uuid(#[trigger] after[before.len() + k].id)
                &&& forall|a: int, b: int|
                    #![trigger after[a], after[b]]
                    0 <= a < b < after.len() && b >= before.len() ==> after[a].id != after[b].id
                &&& unique_track_ids(before) ==> unique_track_ids(after)
            }),
            final(self).datastore.queued_snapshot() == old(self).datastore.queued_snapshot(),
    {
        let ghost before = self.datastore.data.track_list@;
        let ghost paths = tracks_to_add@;
        let mut pending = tracks_to_add;
        let total: usize = pending.len();
        let mut k: usize = 0;
        while pending.len() > 0
            invariant
                paths.len() == total,
                k <= paths.len(),
                pending@ == paths.skip(k as int),
                self.datastore.data.track_list@.len() == before.len() + k,
                self.datastore.data.track_list@.take(before.len() as int) == before,
                forall|m: int|
                    #![trigger self.datastore.data.track_list@[before.len() + m]]
                    0 <= m < k ==> self.datastore.data.track_list@[before.len() + m].path == paths[m]
                        && is_random_uuid(self.datastore.data.track_list@[before.len() + m].id),
                self.datastore.queued_snapshot() == old(self).datastore.queued_snapshot(),
                forall|a: int, b: int|
                    #![trigger self.datastore.data.track_list@[a], self.datastore.data.track_list@[b]]
                    0 <= a < b < self.datastore.data.track_list@.len() && b >= before.len()
                        ==> self.datastore.data.track_list@[a].id != self.datastore.data.track_list@[b].id,
            decreases pending.len(),
        {
            let path = pending.remove(0);
            assert(path == paths[k as int]);
            let ghost old_list = self.datastore.data.track_list@;
            let id = fresh_track_id(&self.datastore.data.track_list, new_track_id());
            self.datastore.data.track_list.push(Track { id, path });
            assert forall|a: int, b: int|
                #![trigger self.datastore.data.track_list@[a], self.datastore.data.track_list@[b]]
                0 <= a < b < self.datastore.data.track_list@.len() && b >= before.len()
                    implies self.datastore.data.track_list@[a].id != self.datastore.data.track_list@[b].id by {
                if b == old_list.len() {
                    assert(self.datastore.data.track_list@[a] == old_list[a]);
                    assert(saved_ids(old_list)[a] == old_list[a].id);
                } else {
                    assert(self.datastore.data.track_list@[a] == old_list[a]);
                    assert(self.datastore.data.track_list@[b] == old_list[b]);
                }
            };
            assert(self.datastore.data.track_list@[before.len() + k as int] == Track { id, path });
            assert forall|m: int|
                #![trigger self.datastore.data.track_list@[before.len() + m]]
                0 <= m <= k implies self.datastore.data.track_list@[before.len() + m].path == paths[m]
                    && is_random_uuid(self.datastore.data.track_list@[before.len() + m].id) by {
                if m < k {
                    assert(self.datastore.data.track_list@[before.len() + m] == old_list[before.len() + m]);
                }
            };
            k = k + 1;
            assert(pending@ =~= paths.skip(k as int));
            assert(self.datastore.data.track_list@.take(before.len() as int) =~= before);
        }
        let ghost after = self.datastore.track_list();
        assert(after.take(before.len() as int) == before);
        assert(unique_track_ids(before) ==> unique_track_ids(after)) by {
            if unique_track_ids(before) {
                assert forall|a: int, b: int| 0 <= a < b < after.len() implies after[a].id != after[b].id by {
                    if b < before.len() {
                        assert(after[a] == after.take(before.len() as int)[a]);
                        assert(after[b] == after.take(before.len() as int)[b]);
                    } else {
                        assert(after[a] == self.datastore.data.track_list@[a]);
                        assert(after[b] == self.datastore.data.track_list@[b]);
                    }
                };
            }
        };
        assert forall|m: int| #![trigger after[before.len() + m]] 0 <= m < paths.len() implies after[before.len()
            + m].path == paths[m] && is_random_uuid(after[before.len() + m].id) by {
            assert(after[before.len() + m] == self.datastore.data.track_list@[before.len() + m]);
        };
    }
}

/// `dir` with `name` appended as one more component (what `PathBuf::push`
/// does with a relative component): a separator goes between them unless
/// `dir` is empty or already ends with one.
pub open spec fn join_path(dir: Seq<char>, name: Seq<char>) -> Seq<char> {
    if dir.len() == 0 {
        name
    } else if dir.last() == '/' {
        dir + name
    } else {
        dir + seq!['/'] + name
    }
}

/// The directory that holds AudioPass's configuration: `$XDG_CONFIG_HOME`
/// when it is set and not empty, else `$HOME/.config` when `HOME` is set and
/// not empty, else `.config` (relative to the working directory).
pub open spec fn config_directory(xdg_config_home: Option<Seq<char>>, home: Option<Seq<char>>) -> Seq<char> {
    if xdg_config_home is Some && xdg_config_home->0.len() > 0 {
        xdg_config_home->0
    } else if home is Some && home->0.len() > 0 {
        join_path(home->0, ".config"@)
    } else {
        ".config"@
    }
}

/// The file that holds the saved data: `audiopass/data.json` under the
/// configuration directory.
pub open spec fn save_path(xdg_config_home: Option<Seq<char>>, home: Option<Seq<char>>) -> Seq<char> {
    join_path(join_path(config_directory(xdg_config_home, home), "audiopass"@), "data.json"@)
}

fn join_path_exec(dir: String, name: &str) -> (joined: String)
    ensures
        joined@ == join_path(dir@, name@),
{
    let len = dir.as_str().unicode_len();
    if len == 0 {
        String::from_str(name)
    } else if dir.as_str().get_char(len - 1) == '/' {
        dir.concat(name)
    } else {
        let with_separator = dir.concat("/");
        proof {
            reveal_strlit("/");
        }
        with_separator.concat(name)
    }
}

/// The text of an optional string.
pub open spec fn string_option_view(s: Option<String>) -> Option<Seq<char>> {
    match s {
        Some(x) => Some(x@),
        None => None,
    }
}

/// The file that holds the saved data, given the values of the environment
/// variables `XDG_CONFIG_HOME` and `HOME` (`None` when unset).
pub fn get_save_path(xdg_config_home: Option<String>, home: Option<String>) -> (path: String)
    ensures
        path@ == save_path(string_option_view(xdg_config_home), string_option_view(home)),
{
    let ghost xdg_view = string_option_view(xdg_config_home);
    let ghost home_view = string_option_view(home);
    let directory = match xdg_config_home {
        Some(x) if x.as_str().unicode_len() > 0 => x,
        _ => match home {
            Some(h) if h.as_str().unicode_len() > 0 => join_path_exec(h, ".config"),
            _ => String::from_str(".config"),
        },
    };
    assert(directory@ == config_directory(xdg_view, home_view));
    let app_directory = join_path_exec(directory, "audiopass");
    join_path_exec(app_directory, "data.json")
}

/// How long the save worker waits for a newer snapshot before it writes the
/// one it holds.
pub const SAVE_DEBOUNCE_MILLIS: u64 = 500u64;

/// What the save worker sees while it waits.
pub enum SaveWorkerEvent {
    /// The watched value changed; it is now this (`None`: nothing to save).
    Changed(Option<Vec<u8>>),
    /// The sending side is gone.
    Closed,
    /// No change came within the debounce delay.
    TimedOut,
}

/// How the save worker waits next.
#[derive(Debug, Clone, Copy, PartialEq, Eq)]
pub enum SaveWait {
    /// For the next change, however long it takes.
    UntilChanged,
    /// For the next change, at most the debounce delay.
    UntilChangedOrTimeout,
    /// Not at all: the worker is done.
    Finished,
}

/// The save worker's memory: whether it has stopped, and the snapshot it
/// holds and has not written yet.
pub struct SaveDebouncer {
    stopped: bool,
    pending: Option<Vec<u8>>,
}

/// One step of the save worker from (`stopped`, `pending`) on `event`: the
/// new (`stopped`, `pending`), and the snapshot to write now, if any.
pub open spec fn debounce_step(stopped: bool, pending: Option<Seq<u8>>, event: SaveWorkerEvent) -> (
    bool,
    Option<Seq<u8>>,
    Option<Seq<u8>>,
) {
    if stopped {
        (true, pending, None)
    } else {
        match event {
            SaveWorkerEvent::Changed(Some(snapshot)) => (false, Some(snapshot@), None),
            SaveWorkerEvent::Changed(None) => (false, pending, None),
            SaveWorkerEvent::Closed => (true, None, pending),
            SaveWorkerEvent::TimedOut => (false, None, pending),
        }
    }
}

impl SaveDebouncer {
    pub closed spec fn is_stopped(self) -> bool {
        self.stopped
    }

    /// The snapshot held and not written yet.
    pub closed spec fn pending_snapshot(self) -> Option<Seq<u8>> {
        match self.pending {
            Some(p) => Some(p@),
            None => None,
        }
    }

    /// A worker that holds nothing and waits for the first change.
    pub fn new() -> (d: Self)
        ensures
            !d.is_stopped(),
            d.pending_snapshot().is_none(),
    {
        SaveDebouncer { stopped: false, pending: None }
    }

    /// How the worker waits next: for a change when it holds nothing, for a
    /// change within the debounce delay when it holds a snapshot.
    pub fn next_wait(&self) -> (w: SaveWait)
        ensures
            self.is_stopped() ==> w == SaveWait::Finished,
            !self.is_stopped() && self.pending_snapshot().is_none() ==> w == SaveWait::UntilChanged,
            !self.is_stopped() && self.pending_snapshot().is_some() ==> w == SaveWait::UntilChangedOrTimeout,
    {
        if self.stopped {
            SaveWait::Finished
        } else if self.pending.is_some() {
            SaveWait::UntilChangedOrTimeout
        } else {
            SaveWait::UntilChanged
        }
    }

    /// Takes in what the worker saw, and returns the snapshot to write now:
    /// a newer snapshot replaces the one held; when the delay passes, or the
    /// sender goes away, the one held is written.
    pub fn on_event(&mut self, event: SaveWorkerEvent) -> (to_write: Option<Vec<u8>>)
        ensures
            ({
                let (stopped, pending, written) = debounce_step(
                    old(self).is_stopped(),
                    old(self).pending_snapshot(),
                    event,
                );
                &&& final(self).is_stopped() == stopped
                &&& final(self).pending_snapshot() == pending
                &&& match to_write {
                    Some(w) => written == Some(w@),
                    None => written.is_none(),
                }
            }),
    {
        if self.stopped {
            return None;
        }
        match event {
            SaveWorkerEvent::Changed(Some(snapshot)) => {
                self.pending = Some(snapshot);
                None
            },
            SaveWorkerEvent::Changed(None) => None,
            SaveWorkerEvent::Closed => {
                self.stopped = true;
                self.pending.take()
            },
            SaveWorkerEvent::TimedOut => self.pending.take(),
        }
    }
}

/// The snapshot held after a run of `events` from holding `pending`, when
/// every event of the run is a change: the latest snapshot among them, or
/// `pending` if none carried one.
pub open spec fn latest_snapshot(pending: Option<Seq<u8>>, events: Seq<SaveWorkerEvent>) -> Option<Seq<u8>>
    decreases events.len(),
{
    if events.len() == 0 {
        pending
    } else {
        match events.last() {
            SaveWorkerEvent::Changed(Some(s)) => Some(s@),
            _ => latest_snapshot(pending, events.drop_last()),
        }
    }
}

/// The state (`stopped`, `pending`) after `events`, one step at a time.
pub open spec fn debounce_run(stopped: bool, pending: Option<Seq<u8>>, events: Seq<SaveWorkerEvent>) -> (
    bool,
    Option<Seq<u8>>,
)
    decreases events.len(),
{
    if events.len() == 0 {
        (stopped, pending)
    } else {
        let (s, p) = debounce_run(stopped, pending, events.drop_last());
        let (s2, p2, _w) = debounce_step(s, p, events.last());
        (s2, p2)
    }
}

/// Debouncing keeps the latest snapshot: after a burst of changes, the write
/// that the delay triggers carries the newest snapshot of the burst (or the
/// one held before it, if the burst carried none), and nothing is written
/// during the burst.
pub proof fn law_timeout_writes_latest_snapshot(pending: Option<Seq<u8>>, events: Seq<SaveWorkerEvent>)
    requires
        forall|i: int| 0 <= i < events.len() ==> #[trigger] events[i] is Changed,
    ensures
        ({
            let (stopped, held) = debounce_run(false, pending, events);
            &&& !stopped
            &&& held == latest_snapshot(pending, events)
            &&& debounce_step(stopped, held, SaveWorkerEvent::TimedOut).2 == latest_snapshot(pending, events)
        }),
    decreases events.len(),
{
    if events.len() > 0 {
        let prefix = events.drop_last();
        assert forall|i: int| 0 <= i < prefix.len() implies #[trigger] prefix[i] is Changed by {
            assert(prefix[i] == events[i]);
        };
        law_timeout_writes_latest_snapshot(pending, prefix);
        assert(events.last() is Changed) by {
            assert(events[events.len() - 1] is Changed);
        };
    }
}

/// Removing an id keeps exactly the tracks whose id differs, in their
/// order: the list after removal is the list before filtered by
/// `id != removed`. So every track with another id stays, and every track
/// left has another id and was in the list before.
pub proof fn law_remove_keeps_other_tracks(tracks: Seq<Track>, id: u128)
    ensures
        tracks_without(tracks, id) == tracks.filter(|t: Track| t.id != id),
        forall|i: int|
            0 <= i < tracks.len() && tracks[i].id != id ==> tracks_without(tracks, id).contains(#[trigger] tracks[i]),
        forall|i: int|
            0 <= i < tracks_without(tracks, id).len() ==> tracks.contains(#[trigger] tracks_without(tracks, id)[i])
                && tracks_without(tracks, id)[i].id != id,
    decreases tracks.len(),
{
    broadcast use vstd::seq_lib::group_filter_ensures;

    reveal(Seq::filter);
    if tracks.len() > 0 {
        law_remove_keeps_other_tracks(tracks.drop_last(), id);
        assert(tracks.filter(|t: Track| t.id != id) == (if tracks.last().id != id {
            tracks.drop_last().filter(|t: Track| t.id != id).push(tracks.last())
        } else {
            tracks.drop_last().filter(|t: Track| t.id != id)
        }));
    }
}

/// A removed id is gone, and removing it again changes nothing.
pub proof fn law_removed_id_is_gone(tracks: Seq<Track>, id: u128)
    ensures
        forall|i: int|
            0 <= i < tracks_without(tracks, id).len() ==> #[trigger] tracks_without(tracks, id)[i].id != id,
        tracks_without(tracks_without(tracks, id), id) == tracks_without(tracks, id),
        tracks_without(tracks, id).len() <= tracks.len(),
    decreases tracks.len(),
{
    if tracks.len() > 0 {
        law_removed_id_is_gone(tracks.drop_last(), id);
        let rest = tracks_without(tracks.drop_last(), id);
        if tracks.last().id != id {
            let pushed = rest.push(tracks.last());
            assert(pushed.drop_last() =~= rest);
            assert(pushed.last() == tracks.last());
        }
    }
}

} // verus!
