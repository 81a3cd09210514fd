//! The playback cursor over the track list, and the worker that serves
//! playback commands.
use vstd::prelude::*;
use std::sync::mpsc::Receiver;

use crate::search::{first_position, lemma_first_position_at, lemma_first_position_none};

verus! {

/// A local audio file in the track list. `id` holds the bits of the track's
/// random UUID.
#[derive(Debug)]
pub struct Track {
    pub id: u128,
    pub path: String,
}

/// Two tracks that agree on every field.
pub open spec fn same_track(a: Track, b: Track) -> bool {
    a.id == b.id && a.path@ == b.path@
}

impl Clone for Track {
    fn clone(&self) -> (res: Self)
        ensures
            same_track(res, *self),
    {
        Track { id: self.id, path: self.path.clone() }
    }
}

/// Whether some track of `tracks` has the id `id`.
pub open spec fn has_track_id(tracks: Seq<Track>, id: u128) -> bool {
    exists|i: int| 0 <= i < tracks.len() && tracks[i].id == id
}

/// The ids of `tracks`, in order.
pub open spec fn track_ids(tracks: Seq<Track>) -> Seq<u128> {
    tracks.map_values(|t: Track| t.id)
}

/// The first place of `tracks` that holds the id `id`, if any.
pub open spec fn position_of_id(tracks: Seq<Track>, id: u128) -> Option<int> {
    first_position(track_ids(tracks), id)
}

/// The place after `idx` in a list of `len` tracks, wrapping to the first.
pub open spec fn next_index(idx: int, len: int) -> int {
    (idx + 1) % len
}

/// The place before `idx` in a list of `len` tracks, wrapping to the last.
pub open spec fn previous_index(idx: int, len: int) -> int {
    ((idx + len) - 1) % len
}

/// What the active track becomes when the cursor moves over `tracks` from
/// `active`, one place forward or backward: nothing changes over an empty
/// list or with no active track; an active track that is not in the list is
/// dropped; otherwise the cursor lands on the neighbour (wrapping) of the
/// first place that holds the active track's id.
pub open spec fn moved_active(active: Option<Track>, tracks: Seq<Track>, forward: bool) -> Option<int> {
    match active {
        Some(t) => match position_of_id(tracks, t.id) {
            Some(idx) => Some(
                if forward {
                    next_index(idx, tracks.len() as int)
                } else {
                    previous_index(idx, tracks.len() as int)
                },
            ),
            None => None,
        },
        None => None,
    }
}

/// The first place of `tracks` whose id is `id`, found by walking the list.
fn find_track(tracks: &[Track], id: u128) -> (r: Option<usize>)
    ensures
        match r {
            Some(i) => i < tracks@.len() && position_of_id(tracks@, id) == Some(i as int),
            None => position_of_id(tracks@, id).is_none(),
        },
{
    let len: usize = tracks.len();
    let mut i: usize = 0;
    while i < len
        invariant
            len == tracks@.len(),
            i <= len,
            forall|j: int| 0 <= j < i ==> tracks@[j].id != id,
        decreases len - i,
    {
        if tracks[i].id == id {
            proof {
                lemma_first_position_at(track_ids(tracks@), id, i as int);
            }
            return Some(i);
        }
        i = i + 1;
    }
    proof {
        lemma_first_position_none(track_ids(tracks@), id);
    }
    None
}

/// The track being played, if any, and the moves between tracks.
pub struct PlaybackController {
    active_track: Option<Track>,
}

impl PlaybackController {
    /// The active track.
    pub closed spec fn active(self) -> Option<Track> {
        self.active_track
    }

    /// A controller with no active track.
    pub fn new() -> (c: Self)
        ensures
            c.active().is_none(),
    {
        PlaybackController { active_track: None }
    }

    /// The active track, by reference.
    pub fn get_active_track(&self) -> (r: Option<&Track>)
        ensures
            r.is_some() == self.active().is_some(),
            r.is_some() ==> *r.unwrap() == self.active().unwrap(),
    {
        self.active_track.as_ref()
    }

    /// Makes `track` the active track.
    pub fn reset_and_new(&mut self, track: Track)
        ensures
            final(self).active() == Some(track),
    {
        self.active_track = Some(track);
    }

    /// Leaves no track active.
    pub fn reset(&mut self)
        ensures
            final(self).active().is_none(),
    {
        self.active_track = None;
    }

    /// The track with id `id` leaves the list: if it is the active one,
    /// no track is active any more; otherwise nothing changes.
    pub fn forget_track(&mut self, id: u128)
        ensures
            (old(self).active() matches Some(t) && t.id == id) ==> final(self).active().is_none(),
            !(old(self).active() matches Some(t) && t.id == id) ==> final(self).active() == old(self).active(),
    {
        let is_active = match &self.active_track {
            Some(t) => t.id == id,
            None => false,
        };
        if is_active {
            self.reset();
        }
    }

    /// Starts or resumes the active track (file playback has no output yet).
    pub fn start_or_resume(&self) {
    }

    /// Stops the active track (file playback has no output yet).
    pub fn stop(&self) {
    }

    /// Moves the cursor one place forward or backward over `track_list`.
    fn step(&mut self, track_list: &[Track], forward: bool)
        ensures
            track_list@.len() == 0 || old(self).active().is_none() ==> final(self).active() == old(self).active(),
            track_list@.len() > 0 && old(self).active().is_some() ==> match moved_active(
                old(self).active(),
                track_list@,
                forward,
            ) {
                Some(j) => final(self).active().is_some() && 0 <= j < track_list@.len() && same_track(
                    final(self).active().unwrap(),
                    track_list@[j],
                ),
                None => final(self).active().is_none(),
            },
    {
        let len: usize = track_list.len();
        if len == 0 {
            return;
        }
        let id: u128 = match &self.active_track {
            Some(active_track) => active_track.id,
            None => {
                return;
            },
        };
        match find_track(track_list, id) {
            Some(idx) => {
                let target: usize = if forward {
                    (idx + 1) % len
                } else if idx == 0 {
                    len - 1
                } else {
                    idx - 1
                };
                assert(target as int == if forward {
                    next_index(idx as int, len as int)
                } else {
                    previous_index(idx as int, len as int)
                }) by {
                    if !forward && idx > 0 {
                        assert(((idx + len) - 1) % (len as int) == idx - 1) by {
                            vstd::arithmetic::div_mod::lemma_mod_add_multiples_vanish(
                                (idx - 1) as int,
                                len as int,
                            );
                            vstd::arithmetic::div_mod::lemma_small_mod((idx - 1) as nat, len as nat);
                        };
                    }
                    if !forward && idx == 0 {
                        vstd::arithmetic::div_mod::lemma_small_mod((len - 1) as nat, len as nat);
                    }
                };
                self.reset_and_new(track_list[target].clone());
                self.start_or_resume();
            },
            None => {
                self.reset();
            },
        }
    }

    /// Plays the track after the active one in `track_list`, wrapping from the
    /// last to the first. An active track that is no longer in the list is
    /// dropped; with an empty list or no active track nothing changes.
    pub fn play_next(&mut self, track_list: &[Track])
        ensures
            track_list@.len() == 0 || old(self).active().is_none() ==> final(self).active() == old(self).active(),
            track_list@.len() > 0 && old(self).active().is_some() ==> match moved_active(
                old(self).active(),
                track_list@,
                true,
            ) {
                Some(j) => final(self).active().is_some() && 0 <= j < track_list@.len() && same_track(
                    final(self).active().unwrap(),
                    track_list@[j],
                ),
                None => final(self).active().is_none(),
            },
    {
        self.step(track_list, true);
    }

    /// Plays the track before the active one in `track_list`, wrapping from
    /// the first to the last. An active track that is no longer in the list
    /// is dropped; with an empty list or no active track nothing changes.
    pub fn play_previous(&mut self, track_list: &[Track])
        ensures
            track_list@.len() == 0 || old(self).active().is_none() ==> final(self).active() == old(self).active(),
            track_list@.len() > 0 && old(self).active().is_some() ==> match moved_active(
                old(self).active(),
                track_list@,
                false,
            ) {
                Some(j) => final(self).active().is_some() && 0 <= j < track_list@.len() && same_track(
                    final(self).active().unwrap(),
                    track_list@[j],
                ),
                None => final(self).active().is_none(),
            },
    {
        self.step(track_list, false);
    }
}

/// `std::sync::mpsc::Receiver`, declared so that the worker can hold one.
#[verifier::external_type_specification]
#[verifier::external_body]
#[verifier::reject_recursive_types(T)]
pub struct ExReceiver<T>(Receiver<T>);

/// A request to the playback worker.
#[derive(Debug, Clone, Copy, PartialEq, Eq)]
pub enum PlaybackCommand {
    Shutdown,
}

/// `Receiver::recv`: waits for the next command (`Some`), or for every sender
/// to be gone (`None`). Which of the two comes, and when, is up to the other
/// threads, so nothing is stated of it.
#[verifier::external_body]
fn receive_command(receiver: &Receiver<PlaybackCommand>) -> Option<PlaybackCommand> {
    receiver.recv().ok()
}

/// The thread that serves playback commands.
pub struct PlaybackWorker {
    command_receiver: Receiver<PlaybackCommand>,
}

impl PlaybackWorker {
    /// A worker that serves the commands arriving on `command_receiver`.
    pub fn new(command_receiver: Receiver<PlaybackCommand>) -> (w: Self)
        ensures
            w.receiver() == command_receiver,
    {
        PlaybackWorker { command_receiver }
    }

    /// The channel the worker serves.
    pub closed spec fn receiver(self) -> Receiver<PlaybackCommand> {
        self.command_receiver
    }

    /// Serves commands until a shutdown command arrives or every sender is gone.
    pub fn run(&self) {
        loop
            decreases 1nat,
        {
            let received = receive_command(&self.command_receiver);
            match received {
                Some(PlaybackCommand::Shutdown) => {
                    break;
                },
                None => {
                    break;
                },
            }
        }
    }
}

/// No two tracks of `tracks` share an id.
pub open spec fn unique_track_ids(tracks: Seq<Track>) -> bool {
    forall|i: int, j: int| 0 <= i < j < tracks.len() ==> tracks[i].id != tracks[j].id
}

/// In a list whose ids are unique, the first place of a track's id is its place.
pub proof fn lemma_position_of_unique(tracks: Seq<Track>, k: int)
    requires
        unique_track_ids(tracks),
        0 <= k < tracks.len(),
    ensures
        position_of_id(tracks, tracks[k].id) == Some(k),
{
    assert forall|j: int| 0 <= j < k implies track_ids(tracks)[j] != tracks[k].id by {
        assert(tracks[j].id != tracks[k].id);
    };
    lemma_first_position_at(track_ids(tracks), tracks[k].id, k);
}

/// The place one lands on from place `k` of `len` places, moving one way,
/// leads back to `k` moving the other way.
proof fn lemma_step_round_trip(k: int, n: int, forward: bool)
    requires
        0 <= k < n,
    ensures
        ({
            let j = if forward { next_index(k, n) } else { previous_index(k, n) };
            &&& 0 <= j < n
            &&& (if forward { previous_index(j, n) } else { next_index(j, n) }) == k
        }),
{
    vstd::arithmetic::div_mod::lemma_mod_bound(k + 1, n);
    vstd::arithmetic::div_mod::lemma_mod_bound((k + n) - 1, n);
    if forward {
        if k + 1 < n {
            vstd::arithmetic::div_mod::lemma_small_mod((k + 1) as nat, n as nat);
            vstd::arithmetic::div_mod::lemma_mod_add_multiples_vanish(k, n);
            vstd::arithmetic::div_mod::lemma_small_mod(k as nat, n as nat);
        } else {
            vstd::arithmetic::div_mod::lemma_mod_self_0(n);
            vstd::arithmetic::div_mod::lemma_small_mod((n - 1) as nat, n as nat);
        }
    } else {
        if k > 0 {
            vstd::arithmetic::div_mod::lemma_mod_add_multiples_vanish(k - 1, n);
            vstd::arithmetic::div_mod::lemma_small_mod((k - 1) as nat, n as nat);
            vstd::arithmetic::div_mod::lemma_small_mod(k as nat, n as nat);
        } else {
            vstd::arithmetic::div_mod::lemma_small_mod((n - 1) as nat, n as nat);
            vstd::arithmetic::div_mod::lemma_mod_self_0(n);
        }
    }
}

/// Over a list of unique ids, `play_next` followed by `play_previous` comes
/// back to the place of the track one started from.
pub proof fn law_next_then_previous_returns(tracks: Seq<Track>, active: Track)
    requires
        unique_track_ids(tracks),
        has_track_id(tracks, active.id),
    ensures
        match moved_active(Some(active), tracks, true) {
            Some(j) => 0 <= j < tracks.len() && forall|landed: Track|
                landed.id == tracks[j].id ==> #[trigger] moved_active(Some(landed), tracks, false)
                    == position_of_id(tracks, active.id),
            None => false,
        },
{
    let k = choose|i: int| 0 <= i < tracks.len() && tracks[i].id == active.id;
    lemma_position_of_unique(tracks, k);
    let n = tracks.len() as int;
    lemma_step_round_trip(k, n, true);
    lemma_position_of_unique(tracks, next_index(k, n));
}

/// Over a list of unique ids, `play_previous` followed by `play_next` comes
/// back to the place of the track one started from.
pub proof fn law_previous_then_next_returns(tracks: Seq<Track>, active: Track)
    requires
        unique_track_ids(tracks),
        has_track_id(tracks, active.id),
    ensures
        match moved_active(Some(active), tracks, false) {
            Some(j) => 0 <= j < tracks.len() && forall|landed: Track|
                landed.id == tracks[j].id ==> #[trigger] moved_active(Some(landed), tracks, true)
                    == position_of_id(tracks, active.id),
            None => false,
        },
{
    let k = choose|i: int| 0 <= i < tracks.len() && tracks[i].id == active.id;
    lemma_position_of_unique(tracks, k);
    let n = tracks.len() as int;
    lemma_step_round_trip(k, n, false);
    lemma_position_of_unique(tracks, previous_index(k, n));
}

/// The place of the active track after `j` calls of `play_next` over
/// `tracks`, starting from the track with id `id` (`None`: the cursor was
/// dropped).
pub open spec fn place_after_nexts(tracks: Seq<Track>, id: u128, j: nat) -> Option<int>
    decreases j,
{
    if j == 0 {
        position_of_id(tracks, id)
    } else {
        match place_after_nexts(tracks, id, (j - 1) as nat) {
            Some(p) => moved_active(Some(tracks[p]), tracks, true),
            None => None,
        }
    }
}

/// `j` calls of `play_next` from place `i` of a list with unique ids land
/// on place `(i + j) % n`.
proof fn lemma_nexts_land(tracks: Seq<Track>, i: int, j: nat)
    requires
        unique_track_ids(tracks),
        0 <= i < tracks.len(),
    ensures
        place_after_nexts(tracks, tracks[i].id, j) == Some((i + j) % (tracks.len() as int)),
    decreases j,
{
    let n = tracks.len() as int;
    if j == 0 {
        lemma_position_of_unique(tracks, i);
        vstd::arithmetic::div_mod::lemma_small_mod(i as nat, n as nat);
    } else {
        lemma_nexts_land(tracks, i, (j - 1) as nat);
        let p = (i + j - 1) % n;
        vstd::arithmetic::div_mod::lemma_mod_bound(i + j - 1, n);
        lemma_position_of_unique(tracks, p);
        assert((p + 1) % n == (i + j) % n) by {
            vstd::arithmetic::div_mod::lemma_add_mod_noop(i + j - 1, 1, n);
            vstd::arithmetic::div_mod::lemma_add_mod_noop(p, 1, n);
            vstd::arithmetic::div_mod::lemma_mod_twice(i + j - 1, n);
        };
    }
}

/// Over a list of `n` tracks with unique ids, `j` calls of `play_next` from
/// the track at place `i` land on place `(i + j) % n`; in particular `n`
/// calls come back to the starting track.
pub proof fn law_nexts_advance_by_count(tracks: Seq<Track>, i: int, j: nat)
    requires
        unique_track_ids(tracks),
        0 <= i < tracks.len(),
    ensures
        place_after_nexts(tracks, tracks[i].id, j) == Some((i + j) % (tracks.len() as int)),
        place_after_nexts(tracks, tracks[i].id, tracks.len()) == Some(i),
{
    let n = tracks.len() as int;
    lemma_nexts_land(tracks, i, j);
    lemma_nexts_land(tracks, i, tracks.len());
    vstd::arithmetic::div_mod::lemma_mod_add_multiples_vanish(i, n);
    vstd::arithmetic::div_mod::lemma_small_mod(i as nat, n as nat);
}

} // verus!
