//! The decisions of the user interface: startup, the playback mode, what the
//! PipeWire worker reports, and the track picker.
use vstd::prelude::*;

use std::collections::HashMap;

use crate::pipewire::{
    find_physical, physical_ids, physical_position, PipewireAppSource, PipewireCommand, PipewireEvent, PipewirePhysicalSource,
};
use crate::search::{first_position, lemma_first_position_at, lemma_first_position_holds, lemma_first_position_none};
use crate::state::{AboutState, ConsoleState, HelpCategory, HelpState, LegalDoc, MainScreen, PlaybackMode};
use crate::text::joined;

verus! {

/// `sources` without the virtual microphones of AudioPass, in order.
pub open spec fn without_audiopass_mics(sources: Seq<PipewirePhysicalSource>) -> Seq<PipewirePhysicalSource>
    decreases sources.len(),
{
    if sources.len() == 0 {
        sources
    } else {
        let rest = without_audiopass_mics(sources.drop_last());
        if !sources.last().is_audiopass_mic {
            rest.push(sources.last())
        } else {
            rest
        }
    }
}

/// The ids of `sources`, in order.
pub open spec fn app_ids(sources: Seq<PipewireAppSource>) -> Seq<u32> {
    sources.map_values(|s: PipewireAppSource| s.id)
}

/// The first place of `sources` that holds the id `id`.
pub open spec fn app_position(sources: Seq<PipewireAppSource>, id: u32) -> Option<int> {
    first_position(app_ids(sources), id)
}

/// `list` holds the application sources of `sources`, one for each key, in
/// some order: the order in which the map is walked, which is not fixed.
pub open spec fn lists_sources_of(list: Seq<PipewireAppSource>, sources: Map<u32, PipewireAppSource>) -> bool {
    exists|keys: Seq<u32>|
        {
            &&& keys.no_duplicates()
            &&& keys.to_set() == sources.dom()
            &&& keys.len() == list.len()
            &&& forall|i: int| 0 <= i < list.len() ==> #[trigger] list[i]@ == sources[keys[i]]@
        }
}

/// The node name of the selected physical source, if one is selected and offered.
pub open spec fn selected_physical_node(console: ConsoleState) -> Option<Seq<char>> {
    match console.selected_physical_source_id {
        Some(id) => match physical_position(console.physical_sources@, id) {
            Some(i) => Some(console.physical_sources@[i].node_name@),
            None => None,
        },
        None => None,
    }
}

/// The node name of the selected application source, if one is selected and offered.
pub open spec fn selected_app_node(console: ConsoleState) -> Option<Seq<char>> {
    match console.selected_app_source_id {
        Some(id) => match app_position(console.app_sources@, id) {
            Some(i) => Some(console.app_sources@[i].node_name@),
            None => None,
        },
        None => None,
    }
}

/// The commands that a capture from the node named `node` comes to.
pub open spec fn capture_commands(node: Option<Seq<char>>, cmds: Seq<PipewireCommand>) -> bool {
    match node {
        Some(n) => cmds.len() == 2 && cmds[0] is DropVirtualCapture && (cmds[1] matches PipewireCommand::CreateVirtualCapture {
            selected_node_name,
        } && selected_node_name@ == n),
        None => cmds.len() == 1 && cmds[0] is DropVirtualCapture,
    }
}

/// What a switch to the physical microphone mode asks of the worker, in
/// terms of the console's fields: drop the capture in force, then, when
/// the selected id is offered, capture from the node name of the first
/// offered source with that id, and ask nothing more.
pub open spec fn captures_offered_physical(console: ConsoleState, cmds: Seq<PipewireCommand>) -> bool {
    let sources = console.physical_sources@;
    &&& cmds.len() >= 1 && cmds[0] is DropVirtualCapture
    &&& forall|i: int|
        #![trigger sources[i]]
        0 <= i < sources.len() && console.selected_physical_source_id == Some(sources[i].id) && (forall|j: int|
            0 <= j < i ==> sources[j].id != sources[i].id) ==> cmds.len() == 2 && (cmds[1] matches PipewireCommand::CreateVirtualCapture {
            selected_node_name,
        } && selected_node_name@ == sources[i].node_name@)
    &&& (forall|i: int|
        0 <= i < sources.len() ==> Some(#[trigger] sources[i].id) != console.selected_physical_source_id) ==> cmds.len()
        == 1
}

/// What a switch to the application audio mode asks of the worker, in
/// terms of the console's fields: drop the capture in force, then, when
/// the selected id is offered, capture from the node name of the first
/// offered application source with that id, and ask nothing more.
pub open spec fn captures_offered_app(console: ConsoleState, cmds: Seq<PipewireCommand>) -> bool {
    let sources = console.app_sources@;
    &&& cmds.len() >= 1 && cmds[0] is DropVirtualCapture
    &&& forall|i: int|
        #![trigger sources[i]]
        0 <= i < sources.len() && console.selected_app_source_id == Some(sources[i].id) && (forall|j: int|
            0 <= j < i ==> sources[j].id != sources[i].id) ==> cmds.len() == 2 && (cmds[1] matches PipewireCommand::CreateVirtualCapture {
            selected_node_name,
        } && selected_node_name@ == sources[i].node_name@)
    &&& (forall|i: int|
        0 <= i < sources.len() ==> Some(#[trigger] sources[i].id) != console.selected_app_source_id) ==> cmds.len()
        == 1
}

/// Switching modes captures from the selected source's node: for any
/// console, the commands that the selected-node description of a physical
/// switch allows are exactly a drop and then a capture from the node name
/// of the first offered source with the selected id (only a drop when the
/// selected id is not offered); the same holds for application sources.
pub proof fn law_switch_captures_selected_node(console: ConsoleState, cmds: Seq<PipewireCommand>)
    ensures
        capture_commands(selected_physical_node(console), cmds) ==> captures_offered_physical(console, cmds),
        capture_commands(selected_app_node(console), cmds) ==> captures_offered_app(console, cmds),
{
    let ps = console.physical_sources@;
    if capture_commands(selected_physical_node(console), cmds) {
        if let Some(id) = console.selected_physical_source_id {
            lemma_first_position_holds(physical_ids(ps), id);
            assert forall|i: int|
                #![trigger ps[i]]
                0 <= i < ps.len() && console.selected_physical_source_id == Some(ps[i].id) && (forall|j: int|
                    0 <= j < i ==> ps[j].id != ps[i].id) implies cmds.len() == 2 && (cmds[1] matches PipewireCommand::CreateVirtualCapture {
                selected_node_name,
            } && selected_node_name@ == ps[i].node_name@) by {
                assert forall|j: int| 0 <= j < i implies physical_ids(ps)[j] != id by {
                    assert(ps[j].id != ps[i].id);
                };
                lemma_first_position_at(physical_ids(ps), id, i);
            };
            assert((forall|i: int| 0 <= i < ps.len() ==> Some(#[trigger] ps[i].id) != console.selected_physical_source_id)
                ==> cmds.len() == 1) by {
                if forall|i: int| 0 <= i < ps.len() ==> Some(#[trigger] ps[i].id) != console.selected_physical_source_id {
                    assert forall|j: int| 0 <= j < ps.len() implies physical_ids(ps)[j] != id by {
                        assert(Some(ps[j].id) != console.selected_physical_source_id);
                    };
                    lemma_first_position_none(physical_ids(ps), id);
                }
            };
        }
    }
    let aps = console.app_sources@;
    if capture_commands(selected_app_node(console), cmds) {
        if let Some(id) = console.selected_app_source_id {
            lemma_first_position_holds(app_ids(aps), id);
            assert forall|i: int|
                #![trigger aps[i]]
                0 <= i < aps.len() && console.selected_app_source_id == Some(aps[i].id) && (forall|j: int|
                    0 <= j < i ==> aps[j].id != aps[i].id) implies cmds.len() == 2 && (cmds[1] matches PipewireCommand::CreateVirtualCapture {
                selected_node_name,
            } && selected_node_name@ == aps[i].node_name@) by {
                assert forall|j: int| 0 <= j < i implies app_ids(aps)[j] != id by {
                    assert(aps[j].id != aps[i].id);
                };
                lemma_first_position_at(app_ids(aps), id, i);
            };
            assert((forall|i: int| 0 <= i < aps.len() ==> Some(#[trigger] aps[i].id) != console.selected_app_source_id)
                ==> cmds.len() == 1) by {
                if forall|i: int| 0 <= i < aps.len() ==> Some(#[trigger] aps[i].id) != console.selected_app_source_id {
                    assert forall|j: int| 0 <= j < aps.len() implies app_ids(aps)[j] != id by {
                        assert(Some(aps[j].id) != console.selected_app_source_id);
                    };
                    lemma_first_position_none(app_ids(aps), id);
                }
            };
        }
    }
}

/// The selection that a new list of sources leaves: kept when the selected
/// id is still offered, dropped otherwise.
pub open spec fn kept_selection(selected: Option<u32>, still_offered: bool) -> Option<u32> {
    if selected is Some && !still_offered {
        None
    } else {
        selected
    }
}

fn find_app(sources: &Vec<PipewireAppSource>, id: u32) -> (r: Option<usize>)
    ensures
        match r {
            Some(i) => i < sources@.len() && app_position(sources@, id) == Some(i as int),
            None => app_position(sources@, id).is_none(),
        },
{
    let n = sources.len();
    let mut i: usize = 0;
    while i < n
        invariant
            n == sources@.len(),
            i <= n,
            forall|j: int| 0 <= j < i ==> sources@[j].id != id,
        decreases n - i,
    {
        if sources[i].id == id {
            proof {
                lemma_first_position_at(app_ids(sources@), id, i as int);
            }
            return Some(i);
        }
        i = i + 1;
    }
    proof {
        lemma_first_position_none(app_ids(sources@), id);
    }
    None
}

/// The application sources of `sources`, one for each key, in the order
/// the map is walked.
fn app_sources_list(sources: &HashMap<u32, PipewireAppSource>) -> (list: Vec<PipewireAppSource>)
    ensures
        lists_sources_of(list@, sources@),
{
    let mut list: Vec<PipewireAppSource> = Vec::new();
    for k in it: sources.keys()
        invariant
            it.seq().unref().to_set() == sources@.dom(),
            it.seq().no_duplicates(),
            list@.len() == it.index(),
            forall|i: int| 0 <= i < it.index() ==> #[trigger] list@[i]@ == sources@[*it.seq()[i]]@,
    {
        match sources.get(k) {
            Some(source) => {
                list.push(source.clone());
            },
            None => {},
        }
    }
    list
}

/// The sources of `sources` that are not AudioPass virtual microphones.
fn drop_audiopass_mics(sources: Vec<PipewirePhysicalSource>) -> (kept: Vec<PipewirePhysicalSource>)
    ensures
        kept@ == without_audiopass_mics(sources@),
{
    let ghost initial = sources@;
    let mut remaining = sources;
    let total: usize = remaining.len();
    let mut kept: Vec<PipewirePhysicalSource> = Vec::new();
    let mut i: usize = 0;
    while remaining.len() > 0
        invariant
            initial.len() == total,
            i <= initial.len(),
            remaining@ == initial.skip(i as int),
            kept@ == without_audiopass_mics(initial.take(i as int)),
        decreases remaining.len(),
    {
        let source = remaining.remove(0);
        assert(initial.take(i + 1).drop_last() =~= initial.take(i as int));
        assert(source == initial[i as int]);
        if !source.is_audiopass_mic {
            kept.push(source);
        }
        i = i + 1;
        assert(remaining@ =~= initial.skip(i as int));
    }
    assert(initial.take(i as int) =~= initial);
    kept
}

/// The state of the user interface, apart from the handles to PipeWire and
/// to the saved data.
pub struct App {
    pub startup_complete: bool,
    pub startup_in_progress: bool,
    pub active_screen: Option<MainScreen>,
    pub playback_mode: PlaybackMode,
    pub console_state: ConsoleState,
    pub about_state: AboutState,
    pub help_state: HelpState,
    pub critical_error: Option<String>,
    /// Whether the PipeWire worker runs; audio routing is offered only then.
    pub worker_healthy: bool,
}

/// What always holds of the user interface: no AudioPass microphone is
/// offered as a physical source, each selection is one of the sources
/// offered, and a startup is never both under way and complete.
pub open spec fn ui_invariant(app: App) -> bool {
    &&& forall|i: int|
        0 <= i < app.console_state.physical_sources@.len() ==> !(
        #[trigger] app.console_state.physical_sources@[i]).is_audiopass_mic
    &&& (app.console_state.selected_physical_source_id matches Some(id) ==> physical_position(
        app.console_state.physical_sources@,
        id,
    ) is Some)
    &&& (app.console_state.selected_app_source_id matches Some(id) ==> app_position(
        app.console_state.app_sources@,
        id,
    ) is Some)
    &&& !(app.startup_complete && app.startup_in_progress)
}

/// The message when the PipeWire worker's channel is gone.
pub open spec fn disconnected_message() -> Seq<char> {
    "Error: Pipewire worker disconnected"@
}

/// The start of the message for a capture that could not be created.
pub open spec fn capture_failure_prefix() -> Seq<char> {
    "Failed to create virtual capture: "@
}

/// The start of the message for a virtual microphone that could not be created.
pub open spec fn mic_failure_prefix() -> Seq<char> {
    "Failed to create virtual microphone: "@
}

/// The text of an optional message.
pub open spec fn message(m: Option<String>) -> Option<Seq<char>> {
    match m {
        Some(s) => Some(s@),
        None => None,
    }
}

impl App {
    /// The startup screen: nothing started, no mode, no sources yet.
    pub fn new() -> (app: Self)
        ensures
            !app.startup_complete,
            !app.startup_in_progress,
            app.active_screen.is_none(),
            app.playback_mode == PlaybackMode::Silence,
            app.console_state.physical_sources@.len() == 0,
            app.console_state.selected_physical_source_id.is_none(),
            app.console_state.app_sources@.len() == 0,
            app.console_state.selected_app_source_id.is_none(),
            app.console_state.app_audio_gain == 100,
            app.critical_error.is_none(),
            app.worker_healthy,
            app.about_state.selected_doc == LegalDoc::License,
            app.help_state.selected_category == HelpCategory::General,
            ui_invariant(app),
    {
        App {
            startup_complete: false,
            startup_in_progress: false,
            active_screen: None,
            playback_mode: PlaybackMode::Silence,
            console_state: ConsoleState::default(),
            about_state: AboutState::default(),
            help_state: HelpState::default(),
            critical_error: None,
            worker_healthy: true,
        }
    }

    /// Whether the startup button may be pressed: no startup under way and no error.
    pub fn can_start(&self) -> (r: bool)
        ensures
            r == (!self.startup_in_progress && self.critical_error.is_none()),
    {
        !self.startup_in_progress && self.critical_error.is_none()
    }

    /// The startup button was pressed and the request for the virtual
    /// microphone was (`Ok`) or was not handed to the worker.
    pub fn on_virtual_mic_requested(&mut self, sent: Result<(), String>)
        ensures
            sent is Ok ==> *final(self) == (App { startup_in_progress: true, ..*old(self) }),
            sent matches Err(e) ==> *final(self) == (App { critical_error: Some(e), ..*old(self) }),
            ui_invariant(*old(self)) && !old(self).startup_complete ==> ui_invariant(*final(self)),
    {
        match sent {
            Ok(()) => {
                self.startup_in_progress = true;
            },
            Err(error) => {
                self.critical_error = Some(error);
            },
        }
    }

    /// Whether the console offers `mode`: only while the worker runs, and
    /// never local files (not available yet).
    pub fn mode_selectable(&self, mode: PlaybackMode) -> (r: bool)
        ensures
            r == (self.worker_healthy && mode != PlaybackMode::LocalFile),
    {
        self.worker_healthy && mode != PlaybackMode::LocalFile
    }

    /// Switches the playback mode. Switching to the mode in force does
    /// nothing. Otherwise the capture in force is dropped first, and a
    /// capture from the selected source of the new mode, if one is selected
    /// and offered, is asked for. Returns the commands for the worker, in order.
    pub fn set_playback_mode(&mut self, mode: PlaybackMode) -> (cmds: Vec<PipewireCommand>)
        ensures
            old(self).playback_mode == mode ==> cmds@.len() == 0 && *final(self) == *old(self),
            old(self).playback_mode != mode ==> *final(self) == (App { playback_mode: mode, ..*old(self) }),
            ui_invariant(*old(self)) ==> ui_invariant(*final(self)),
            old(self).playback_mode != mode && mode == PlaybackMode::PhysicalMic ==> captures_offered_physical(
                old(self).console_state,
                cmds@,
            ),
            old(self).playback_mode != mode && mode == PlaybackMode::ApplicationAudio ==> captures_offered_app(
                old(self).console_state,
                cmds@,
            ),
            old(self).playback_mode != mode ==> capture_commands(
                match mode {
                    PlaybackMode::PhysicalMic => selected_physical_node(old(self).console_state),
                    PlaybackMode::ApplicationAudio => selected_app_node(old(self).console_state),
                    _ => None,
                },
                cmds@,
            ),
    {
        let mut cmds: Vec<PipewireCommand> = Vec::new();
        if self.playback_mode == mode {
            return cmds;
        }
        cmds.push(PipewireCommand::DropVirtualCapture);
        match mode {
            PlaybackMode::PhysicalMic => {
                match self.console_state.selected_physical_source_id {
                    Some(selected) => {
                        match find_physical(&self.console_state.physical_sources, selected) {
                            Some(i) => {
                                let node = self.console_state.physical_sources[i].node_name.clone();
                                cmds.push(PipewireCommand::CreateVirtualCapture { selected_node_name: node });
                            },
                            None => {},
                        }
                    },
                    None => {},
                }
            },
            PlaybackMode::ApplicationAudio => {
                match self.console_state.selected_app_source_id {
                    Some(selected) => {
                        match find_app(&self.console_state.app_sources, selected) {
                            Some(i) => {
                                let node = self.console_state.app_sources[i].node_name.clone();
                                cmds.push(PipewireCommand::CreateVirtualCapture { selected_node_name: node });
                            },
                            None => {},
                        }
                    },
                    None => {},
                }
            },
            _ => {},
        }
        proof {
            law_switch_captures_selected_node(self.console_state, cmds@);
        }
        self.playback_mode = mode;
        cmds
    }

    /// Selects the physical source at place `index`. A new selection asks for
    /// a capture from it; selecting the selected source again does nothing.
    pub fn select_physical_source(&mut self, index: usize) -> (cmd: Option<PipewireCommand>)
        requires
            index < old(self).console_state.physical_sources@.len(),
        ensures
            ({
                let source = old(self).console_state.physical_sources@[index as int];
                &&& *final(self) == (App {
                    console_state: ConsoleState {
                        selected_physical_source_id: Some(source.id),
                        ..old(self).console_state
                    },
                    ..*old(self)
                })
                &&& old(self).console_state.selected_physical_source_id == Some(source.id) ==> cmd.is_none()
                &&& old(self).console_state.selected_physical_source_id != Some(source.id) ==> (cmd matches Some(
                    PipewireCommand::CreateVirtualCapture { selected_node_name },
                ) && selected_node_name@ == source.node_name@)
            }),
            ui_invariant(*old(self)) ==> ui_invariant(*final(self)),
    {
        let id = self.console_state.physical_sources[index].id;
        proof {
            assert(physical_ids(self.console_state.physical_sources@)[index as int] == id);
            lemma_first_position_holds(physical_ids(self.console_state.physical_sources@), id);
        }
        if self.console_state.selected_physical_source_id == Some(id) {
            return None;
        }
        self.console_state.selected_physical_source_id = Some(id);
        let node = self.console_state.physical_sources[index].node_name.clone();
        Some(PipewireCommand::CreateVirtualCapture { selected_node_name: node })
    }

    /// Selects the application source at place `index`. A new selection asks
    /// for a capture from it; selecting the selected source again does nothing.
    pub fn select_app_source(&mut self, index: usize) -> (cmd: Option<PipewireCommand>)
        requires
            index < old(self).console_state.app_sources@.len(),
        ensures
            ({
                let source = old(self).console_state.app_sources@[index as int];
                &&& *final(self) == (App {
                    console_state: ConsoleState { selected_app_source_id: Some(source.id), ..old(self).console_state },
                    ..*old(self)
                })
                &&& old(self).console_state.selected_app_source_id == Some(source.id) ==> cmd.is_none()
                &&& old(self).console_state.selected_app_source_id != Some(source.id) ==> (cmd matches Some(
                    PipewireCommand::CreateVirtualCapture { selected_node_name },
                ) && selected_node_name@ == source.node_name@)
            }),
            ui_invariant(*old(self)) ==> ui_invariant(*final(self)),
    {
        let id = self.console_state.app_sources[index].id;
        proof {
            assert(app_ids(self.console_state.app_sources@)[index as int] == id);
            lemma_first_position_holds(app_ids(self.console_state.app_sources@), id);
        }
        if self.console_state.selected_app_source_id == Some(id) {
            return None;
        }
        self.console_state.selected_app_source_id = Some(id);
        let node = self.console_state.app_sources[index].node_name.clone();
        Some(PipewireCommand::CreateVirtualCapture { selected_node_name: node })
    }

    /// Takes in one report of the PipeWire worker. New source lists replace
    /// the offered ones (AudioPass's own virtual microphones are never
    /// offered); a selection that is no longer offered is dropped, and when
    /// it fed the mode in force, so is the capture. A ready virtual
    /// microphone completes a startup under way and opens the console;
    /// failures stop the startup and become the error shown. Returns the
    /// commands for the worker.
    pub fn handle_pipewire_event(&mut self, event: PipewireEvent) -> (cmds: Vec<PipewireCommand>)
        ensures
            ui_invariant(*old(self)) ==> ui_invariant(*final(self)),
            match event {
                PipewireEvent::PhysicalSources { sources } => {
                    let offered = without_audiopass_mics(sources@);
                    let selected = old(self).console_state.selected_physical_source_id;
                    let still = selected is Some && physical_position(offered, selected->0) is Some;
                    let dropped = selected is Some && !still;
                    &&& final(self).console_state.physical_sources@ == offered
                    &&& *final(self) == (App {
                        console_state: ConsoleState {
                            physical_sources: final(self).console_state.physical_sources,
                            selected_physical_source_id: kept_selection(selected, still),
                            ..old(self).console_state
                        },
                        ..*old(self)
                    })
                    &&& (if dropped && old(self).playback_mode == PlaybackMode::PhysicalMic {
                        cmds@.len() == 1 && cmds@[0] is DropVirtualCapture
                    } else {
                        cmds@.len() == 0
                    })
                },
                PipewireEvent::AppSources { sources } => {
                    let listed = final(self).console_state.app_sources@;
                    let selected = old(self).console_state.selected_app_source_id;
                    let still = selected is Some && app_position(listed, selected->0) is Some;
                    let dropped = selected is Some && !still;
                    &&& lists_sources_of(listed, sources@)
                    &&& *final(self) == (App {
                        console_state: ConsoleState {
                            app_sources: final(self).console_state.app_sources,
                            selected_app_source_id: kept_selection(selected, still),
                            ..old(self).console_state
                        },
                        ..*old(self)
                    })
                    &&& (if dropped && old(self).playback_mode == PlaybackMode::ApplicationAudio {
                        cmds@.len() == 1 && cmds@[0] is DropVirtualCapture
                    } else {
                        cmds@.len() == 0
                    })
                },
                PipewireEvent::VirtualCaptureReady { state: Ok(()) } => {
                    &&& cmds@.len() == 0
                    &&& *final(self) == *old(self)
                },
                PipewireEvent::VirtualCaptureReady { state: Err(e) } => {
                    &&& cmds@.len() == 0
                    &&& message(final(self).critical_error) == Some(capture_failure_prefix() + e@)
                    &&& *final(self) == (App { critical_error: final(self).critical_error, ..*old(self) })
                },
                PipewireEvent::VirtualMicReady { state: Ok(()) } => {
                    &&& cmds@.len() == 0
                    &&& old(self).startup_in_progress ==> *final(self) == (App {
                        startup_in_progress: false,
                        startup_complete: true,
                        active_screen: Some(MainScreen::Console),
                        ..*old(self)
                    })
                    &&& !old(self).startup_in_progress ==> *final(self) == *old(self)
                },
                PipewireEvent::VirtualMicReady { state: Err(e) } => {
                    &&& cmds@.len() == 0
                    &&& message(final(self).critical_error) == Some(mic_failure_prefix() + e@)
                    &&& *final(self) == (App {
                        startup_in_progress: false,
                        critical_error: final(self).critical_error,
                        ..*old(self)
                    })
                },
                PipewireEvent::PipewireError { error } => {
                    &&& cmds@.len() == 0
                    &&& *final(self) == (App { startup_in_progress: false, critical_error: Some(error), ..*old(self) })
                },
                PipewireEvent::WorkerFailure { error } => {
                    &&& cmds@.len() == 0
                    &&& *final(self) == (App {
                        startup_in_progress: false,
                        worker_healthy: false,
                        critical_error: Some(error),
                        ..*old(self)
                    })
                },
            },
    {
        let mut cmds: Vec<PipewireCommand> = Vec::new();
        match event {
            PipewireEvent::PhysicalSources { sources } => {
                proof {
                    law_audiopass_mics_never_offered(sources@);
                }
                self.console_state.physical_sources = drop_audiopass_mics(sources);
                match self.console_state.selected_physical_source_id {
                    Some(selected) => {
                        if find_physical(&self.console_state.physical_sources, selected).is_none() {
                            self.console_state.selected_physical_source_id = None;
                            if self.playback_mode == PlaybackMode::PhysicalMic {
                                cmds.push(PipewireCommand::DropVirtualCapture);
                            }
                        }
                    },
                    None => {},
                }
            },
            PipewireEvent::AppSources { sources } => {
                self.console_state.app_sources = app_sources_list(&sources);
                match self.console_state.selected_app_source_id {
                    Some(selected) => {
                        if find_app(&self.console_state.app_sources, selected).is_none() {
                            self.console_state.selected_app_source_id = None;
                            if self.playback_mode == PlaybackMode::ApplicationAudio {
                                cmds.push(PipewireCommand::DropVirtualCapture);
                            }
                        }
                    },
                    None => {},
                }
            },
            PipewireEvent::VirtualCaptureReady { state: Ok(()) } => {},
            PipewireEvent::VirtualCaptureReady { state: Err(error) } => {
                self.critical_error = Some(joined("Failed to create virtual capture: ", error.as_str()));
            },
            PipewireEvent::VirtualMicReady { state: Ok(()) } => {
                if self.startup_in_progress {
                    self.startup_in_progress = false;
                    self.startup_complete = true;
                    self.active_screen = Some(MainScreen::Console);
                }
            },
            PipewireEvent::VirtualMicReady { state: Err(error) } => {
                self.startup_in_progress = false;
                self.critical_error = Some(joined("Failed to create virtual microphone: ", error.as_str()));
            },
            PipewireEvent::PipewireError { error } => {
                self.startup_in_progress = false;
                self.critical_error = Some(error);
            },
            PipewireEvent::WorkerFailure { error } => {
                self.startup_in_progress = false;
                self.worker_healthy = false;
                self.critical_error = Some(error);
            },
        }
        cmds
    }

    /// Opens one of the screens of the sidebar.
    pub fn open_screen(&mut self, screen: MainScreen)
        ensures
            *final(self) == (App { active_screen: Some(screen), ..*old(self) }),
            ui_invariant(*old(self)) ==> ui_invariant(*final(self)),
    {
        self.active_screen = Some(screen);
    }

    /// Shows `error` as the error of the moment.
    pub fn report_error(&mut self, error: String)
        ensures
            *final(self) == (App { critical_error: Some(error), ..*old(self) }),
            ui_invariant(*old(self)) ==> ui_invariant(*final(self)),
    {
        self.critical_error = Some(error);
    }

    /// The error shown was dismissed.
    pub fn dismiss_error(&mut self)
        ensures
            *final(self) == (App { critical_error: None, ..*old(self) }),
            ui_invariant(*old(self)) ==> ui_invariant(*final(self)),
    {
        self.critical_error = None;
    }

    /// The about screen shows `doc`.
    pub fn select_legal_doc(&mut self, doc: LegalDoc)
        ensures
            *final(self) == (App { about_state: AboutState { selected_doc: doc }, ..*old(self) }),
            ui_invariant(*old(self)) ==> ui_invariant(*final(self)),
    {
        self.about_state.selected_doc = doc;
    }

    /// The help screen shows `category`.
    pub fn select_help_category(&mut self, category: HelpCategory)
        ensures
            *final(self) == (App { help_state: HelpState { selected_category: category }, ..*old(self) }),
            ui_invariant(*old(self)) ==> ui_invariant(*final(self)),
    {
        self.help_state.selected_category = category;
    }

    /// The worker's channel is gone: startup stops, and the error says so
    /// unless an error is already shown.
    pub fn on_pipewire_disconnected(&mut self)
        ensures
            *final(self) == (App { startup_in_progress: false, critical_error: final(self).critical_error, ..*old(self) }),
            old(self).critical_error.is_some() ==> final(self).critical_error == old(self).critical_error,
            old(self).critical_error.is_none() ==> message(final(self).critical_error) == Some(
                disconnected_message(),
            ),
            ui_invariant(*old(self)) ==> ui_invariant(*final(self)),
    {
        self.startup_in_progress = false;
        if self.critical_error.is_none() {
            self.critical_error = Some(String::from_str("Error: Pipewire worker disconnected"));
        }
    }
}

/// What polling the track picker's channel gave.
pub enum PickerPoll {
    /// The picker answered: the files picked, or `None` when it was cancelled.
    Received(Option<Vec<String>>),
    /// No answer yet.
    Empty,
    /// The picker is gone.
    Disconnected,
}

/// What to do about the track picker.
pub enum PickerOutcome {
    /// Add these files to the track list.
    AddTracks(Vec<String>),
    /// Stop polling: the picker was cancelled or is gone.
    ClosePicker,
    /// Poll again later.
    KeepWaiting,
}

/// Decides what a poll of the track picker comes to: picked files are
/// added, a cancelled or vanished picker is closed, and no answer means wait.
pub fn process_picker_result(poll: PickerPoll) -> (outcome: PickerOutcome)
    ensures
        match poll {
            PickerPoll::Received(Some(paths)) => outcome matches PickerOutcome::AddTracks(p) && p == paths,
            PickerPoll::Received(None) => outcome is ClosePicker,
            PickerPoll::Empty => outcome is KeepWaiting,
            PickerPoll::Disconnected => outcome is ClosePicker,
        },
{
    match poll {
        PickerPoll::Received(Some(paths)) => PickerOutcome::AddTracks(paths),
        PickerPoll::Received(None) => PickerOutcome::ClosePicker,
        PickerPoll::Empty => PickerOutcome::KeepWaiting,
        PickerPoll::Disconnected => PickerOutcome::ClosePicker,
    }
}

/// AudioPass's own virtual microphones are never offered as physical
/// sources, and every other source is.
pub proof fn law_audiopass_mics_never_offered(sources: Seq<PipewirePhysicalSource>)
    ensures
        forall|i: int|
            0 <= i < without_audiopass_mics(sources).len() ==> !(
            #[trigger] without_audiopass_mics(sources)[i]).is_audiopass_mic,
        forall|i: int|
            0 <= i < sources.len() && !sources[i].is_audiopass_mic ==> without_audiopass_mics(sources).contains(
                #[trigger] sources[i],
            ),
    decreases sources.len(),
{
    if sources.len() > 0 {
        let prefix = sources.drop_last();
        law_audiopass_mics_never_offered(prefix);
        let rest = without_audiopass_mics(prefix);
        assert forall|i: int|
            0 <= i < sources.len() && !sources[i].is_audiopass_mic implies without_audiopass_mics(sources).contains(
                #[trigger] sources[i],
            ) by {
            if i < sources.len() - 1 {
                assert(sources[i] == prefix[i]);
                let k = choose|k: int| 0 <= k < rest.len() && rest[k] == prefix[i];
                if !sources.last().is_audiopass_mic {
                    assert(rest.push(sources.last())[k] == rest[k]);
                }
            } else {
                assert(rest.push(sources.last())[rest.len() as int] == sources.last());
            }
        };
    }
}

/// After a new list of sources, the selection is either gone or one of the
/// offered sources.
pub proof fn law_selection_stays_offered(selected: Option<u32>, offered: Seq<PipewirePhysicalSource>)
    ensures
        ({
            let still = selected is Some && physical_position(offered, selected->0) is Some;
            match kept_selection(selected, still) {
                Some(id) => exists|i: int| 0 <= i < offered.len() && offered[i].id == id,
                None => true,
            }
        }),
{
    if selected is Some && physical_position(offered, selected->0) is Some {
        let id = selected->0;
        assert(exists|i: int| 0 <= i < offered.len() && offered[i].id == id);
    }
}

} // verus!
