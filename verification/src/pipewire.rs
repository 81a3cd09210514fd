//! The model of the PipeWire side: the commands and events between the user
//! interface and the PipeWire worker, the audio sources that the registry
//! announces, and the worker's decisions.
#![allow(non_snake_case)]
use vstd::prelude::*;
use vstd::string::StringExecFns;

use std::collections::HashMap;

use crate::audio::AudioRing;
use crate::search::{first_position, lemma_first_position_at, lemma_first_position_none};
use crate::text::{contains_text, text_contains, text_is};

verus! {

/// A request from the user interface to the PipeWire worker.
pub enum PipewireCommand {
    CreateVirtualMic,
    CreateVirtualCapture { selected_node_name: String },
    DropVirtualCapture,
    Shutdown,
}

/// A microphone-like node (`Audio/Source`) that the registry announced.
#[derive(Debug)]
pub struct PipewirePhysicalSource {
    pub id: u32,
    pub node_name: String,
    pub description: String,
    /// The virtual microphone of some AudioPass instance; not offered as a source.
    pub is_audiopass_mic: bool,
}

/// The fields of a physical source, as plain values.
pub struct PhysicalSourceView {
    pub id: u32,
    pub node_name: Seq<char>,
    pub description: Seq<char>,
    pub is_audiopass_mic: bool,
}

impl View for PipewirePhysicalSource {
    type V = PhysicalSourceView;

    open spec fn view(&self) -> PhysicalSourceView {
        PhysicalSourceView {
            id: self.id,
            node_name: self.node_name@,
            description: self.description@,
            is_audiopass_mic: self.is_audiopass_mic,
        }
    }
}

impl Clone for PipewirePhysicalSource {
    fn clone(&self) -> (res: Self)
        ensures
            res@ == self@,
    {
        PipewirePhysicalSource {
            id: self.id,
            node_name: self.node_name.clone(),
            description: self.description.clone(),
            is_audiopass_mic: self.is_audiopass_mic,
        }
    }
}

/// An application's audio output stream (`Stream/Output/Audio`) that the
/// registry announced, with what its node reported since.
#[derive(Debug)]
pub struct PipewireAppSource {
    pub id: u32,
    pub node_name: String,
    pub info__props__application_name: String,
    pub info__props__media_name: Option<String>,
    /// Whether the node is running.
    pub info__state: bool,
    pub info__props__application_process_binary: Option<String>,
}

/// The text of an optional string.
pub open spec fn opt_text(s: Option<String>) -> Option<Seq<char>> {
    match s {
        Some(x) => Some(x@),
        None => None,
    }
}

/// The fields of an application source, as plain values.
pub struct AppSourceView {
    pub id: u32,
    pub node_name: Seq<char>,
    pub application_name: Seq<char>,
    pub media_name: Option<Seq<char>>,
    pub running: bool,
    pub process_binary: Option<Seq<char>>,
}

impl View for PipewireAppSource {
    type V = AppSourceView;

    open spec fn view(&self) -> AppSourceView {
        AppSourceView {
            id: self.id,
            node_name: self.node_name@,
            application_name: self.info__props__application_name@,
            media_name: opt_text(self.info__props__media_name),
            running: self.info__state,
            process_binary: opt_text(self.info__props__application_process_binary),
        }
    }
}

fn clone_opt_string(s: &Option<String>) -> (r: Option<String>)
    ensures
        opt_text(r) == opt_text(*s),
{
    match s {
        Some(x) => Some(x.clone()),
        None => None,
    }
}

impl Clone for PipewireAppSource {
    fn clone(&self) -> (res: Self)
        ensures
            res@ == self@,
    {
        PipewireAppSource {
            id: self.id,
            node_name: self.node_name.clone(),
            info__props__application_name: self.info__props__application_name.clone(),
            info__props__media_name: clone_opt_string(&self.info__props__media_name),
            info__state: self.info__state,
            info__props__application_process_binary: clone_opt_string(
                &self.info__props__application_process_binary,
            ),
        }
    }
}

/// A message from the PipeWire worker to the user interface.
#[allow(inconsistent_fields)]
pub enum PipewireEvent {
    PipewireError { error: String },
    WorkerFailure { error: String },
    VirtualMicReady { state: Result<(), String> },
    VirtualCaptureReady { state: Result<(), String> },
    PhysicalSources { sources: Vec<PipewirePhysicalSource> },
    /// The application sources, keyed by id.
    AppSources { sources: HashMap<u32, PipewireAppSource> },
}

/// The properties of a registry global that decide whether it is an audio
/// source, as plain values (`None`: the global does not carry the key, or
/// carries no properties at all).
pub struct GlobalNodeProps {
    pub id: u32,
    pub media_class: Option<String>,
    pub node_name: Option<String>,
    pub node_description: Option<String>,
    pub node_nick: Option<String>,
    pub application_name: Option<String>,
}

/// The mark that every AudioPass virtual microphone's node name carries.
pub open spec fn audiopass_mic_marker() -> Seq<char> {
    "audiopass.virtual-mic."@
}

/// The physical source that a global stands for: a node of class
/// `Audio/Source` with a name; its description is the node's description,
/// else its nick, else its name.
pub open spec fn physical_source_of(global: GlobalNodeProps) -> Option<PhysicalSourceView> {
    if opt_text(global.media_class) == Some("Audio/Source"@) && global.node_name is Some {
        let name = global.node_name->0@;
        Some(
            PhysicalSourceView {
                id: global.id,
                node_name: name,
                description: match global.node_description {
                    Some(d) => d@,
                    None => match global.node_nick {
                        Some(n) => n@,
                        None => name,
                    },
                },
                is_audiopass_mic: contains_text(name, audiopass_mic_marker()),
            },
        )
    } else {
        None
    }
}

/// The application source that a global stands for: a node of class
/// `Stream/Output/Audio` with a name; its application name is the one the
/// global gives, else the node name; it is not running yet.
pub open spec fn app_source_of(global: GlobalNodeProps) -> Option<AppSourceView> {
    if opt_text(global.media_class) == Some("Stream/Output/Audio"@) && global.node_name is Some {
        let name = global.node_name->0@;
        Some(
            AppSourceView {
                id: global.id,
                node_name: name,
                application_name: match global.application_name {
                    Some(a) => a@,
                    None => name,
                },
                media_name: None,
                running: false,
                process_binary: None,
            },
        )
    } else {
        None
    }
}

/// A registry global is a physical source exactly when its class is
/// `Audio/Source` and it carries a node name. The source keeps the global's
/// id and node name; its description is the global's `node.description`
/// whenever there is one (whatever the nick), else its `node.nick`, else
/// the node name; and it is an AudioPass microphone exactly when its node
/// name holds the AudioPass mark.
pub proof fn law_physical_source_fields(global: GlobalNodeProps)
    ensures
        physical_source_of(global) is Some <==> (opt_text(global.media_class) == Some("Audio/Source"@)
            && global.node_name is Some),
        physical_source_of(global) matches Some(v) ==> {
            &&& v.id == global.id
            &&& Some(v.node_name) == opt_text(global.node_name)
            &&& (global.node_description matches Some(d) ==> v.description == d@)
            &&& (global.node_description is None ==> (global.node_nick matches Some(n) ==> v.description
                == n@))
            &&& (global.node_description is None && global.node_nick is None ==> v.description
                == v.node_name)
            &&& v.is_audiopass_mic == contains_text(v.node_name, "audiopass.virtual-mic."@)
        },
{
}

/// A registry global is an application source exactly when its class is
/// `Stream/Output/Audio` and it carries a node name. The source keeps the
/// global's id and node name, takes the global's application name when
/// there is one and the node name otherwise, and starts not running, with
/// no media name and no process binary.
pub proof fn law_app_source_fields(global: GlobalNodeProps)
    ensures
        app_source_of(global) is Some <==> (opt_text(global.media_class) == Some("Stream/Output/Audio"@)
            && global.node_name is Some),
        app_source_of(global) matches Some(v) ==> {
            &&& v.id == global.id
            &&& Some(v.node_name) == opt_text(global.node_name)
            &&& (global.application_name matches Some(a) ==> v.application_name == a@)
            &&& (global.application_name is None ==> v.application_name == v.node_name)
            &&& !v.running
            &&& v.media_name is None
            &&& v.process_binary is None
        },
{
}

fn class_is(media_class: &Option<String>, class: &str) -> (r: bool)
    ensures
        r == (opt_text(*media_class) == Some(class@)),
{
    match media_class {
        Some(c) => text_is(c, class),
        None => false,
    }
}

/// The physical source that a registry global stands for, if any.
pub fn physical_source_from_global(global: &GlobalNodeProps) -> (r: Option<PipewirePhysicalSource>)
    ensures
        match r {
            Some(s) => physical_source_of(*global) == Some(s@),
            None => physical_source_of(*global).is_none(),
        },
        r matches Some(s) ==> (global.node_description matches Some(d) ==> s.description@ == d@),
        r matches Some(s) ==> Some(s.node_name@) == opt_text(global.node_name) && s.id == global.id,
{
    if !class_is(&global.media_class, "Audio/Source") {
        return None;
    }
    let node_name = match &global.node_name {
        Some(n) => n.clone(),
        None => {
            return None;
        },
    };
    let description = match &global.node_description {
        Some(d) => d.clone(),
        None => match &global.node_nick {
            Some(n) => n.clone(),
            None => node_name.clone(),
        },
    };
    let is_audiopass_mic = text_contains(node_name.as_str(), "audiopass.virtual-mic.");
    Some(PipewirePhysicalSource { id: global.id, node_name, description, is_audiopass_mic })
}

/// The application source that a registry global stands for, if any.
pub fn app_source_from_global(global: &GlobalNodeProps) -> (r: Option<PipewireAppSource>)
    ensures
        match r {
            Some(s) => app_source_of(*global) == Some(s@),
            None => app_source_of(*global).is_none(),
        },
{
    if !class_is(&global.media_class, "Stream/Output/Audio") {
        return None;
    }
    let node_name = match &global.node_name {
        Some(n) => n.clone(),
        None => {
            return None;
        },
    };
    let application_name = match &global.application_name {
        Some(a) => a.clone(),
        None => node_name.clone(),
    };
    Some(
        PipewireAppSource {
            id: global.id,
            node_name,
            info__props__application_name: application_name,
            info__props__media_name: None,
            info__state: false,
            info__props__application_process_binary: None,
        },
    )
}

/// The ids of `sources`, in order.
pub open spec fn physical_ids(sources: Seq<PipewirePhysicalSource>) -> Seq<u32> {
    sources.map_values(|s: PipewirePhysicalSource| s.id)
}

/// The first place of `sources` that holds the id `id`.
pub open spec fn physical_position(sources: Seq<PipewirePhysicalSource>, id: u32) -> Option<int> {
    first_position(physical_ids(sources), id)
}

/// The first place of `sources` whose id is `id`, found by walking the list.
pub fn find_physical(sources: &Vec<PipewirePhysicalSource>, id: u32) -> (r: Option<usize>)
    ensures
        match r {
            Some(i) => i < sources@.len() && physical_position(sources@, id) == Some(i as int),
            None => physical_position(sources@, id).is_none(),
        },
{
    let n = sources.len();
    let mut i: usize = 0;
    while i < n
        invariant
            n == sources@.len(),
            i <= n,
            forall|j: int| 0 <= j < i ==> sources@[j].id != id,
        decreases n - i,
    {
        if sources[i].id == id {
            proof {
                lemma_first_position_at(physical_ids(sources@), id, i as int);
            }
            return Some(i);
        }
        i = i + 1;
    }
    proof {
        lemma_first_position_none(physical_ids(sources@), id);
    }
    None
}

/// Every application source is filed under its own id.
pub open spec fn app_keys_match(sources: Map<u32, PipewireAppSource>) -> bool {
    forall|k: u32| #[trigger] sources.contains_key(k) ==> sources[k].id == k
}

/// What the registry has announced and not yet removed.
pub struct PipewireRegistryData {
    pub physical_sources: Vec<PipewirePhysicalSource>,
    /// Keyed by id.
    pub app_sources: HashMap<u32, PipewireAppSource>,
}

/// Which list of sources a removal changed.
#[derive(Debug, Clone, Copy, PartialEq, Eq)]
pub enum RemovedSource {
    App,
    Physical,
}

impl Default for PipewireRegistryData {
    /// Nothing announced yet.
    fn default() -> (d: Self)
        ensures
            d.wf(),
            d.physical_sources@ == Seq::<PipewirePhysicalSource>::empty(),
            d.app_sources@ == Map::<u32, PipewireAppSource>::empty(),
    {
        PipewireRegistryData { physical_sources: Vec::new(), app_sources: HashMap::new() }
    }
}

impl PipewireRegistryData {
    /// Well formed: every application source is filed under its id.
    pub open spec fn wf(self) -> bool {
        app_keys_match(self.app_sources@)
    }

    /// A physical source was announced: it goes last.
    pub fn add_physical_source(&mut self, source: PipewirePhysicalSource)
        ensures
            final(self).physical_sources@ == old(self).physical_sources@.push(source),
            final(self).app_sources@ == old(self).app_sources@,
    {
        self.physical_sources.push(source);
    }

    /// An application source was announced: it is filed under its id, in
    /// place of the one filed there, if any.
    pub fn insert_app_source(&mut self, source: PipewireAppSource)
        requires
            old(self).wf(),
        ensures
            final(self).wf(),
            final(self).app_sources@ == old(self).app_sources@.insert(source.id, source),
            final(self).physical_sources@ == old(self).physical_sources@,
    {
        let id = source.id;
        self.app_sources.insert(id, source);
    }

    /// The node of application source `id` changed state: it is now running
    /// or not. Returns whether there is such a source.
    pub fn set_app_running(&mut self, id: u32, running: bool) -> (found: bool)
        requires
            old(self).wf(),
        ensures
            final(self).wf(),
            found == old(self).app_sources@.contains_key(id),
            found ==> final(self).app_sources@ == old(self).app_sources@.insert(
                id,
                PipewireAppSource { info__state: running, ..old(self).app_sources@[id] },
            ),
            !found ==> final(self).app_sources@ == old(self).app_sources@,
            final(self).physical_sources@ == old(self).physical_sources@,
    {
        let ghost before = self.app_sources@;
        match self.app_sources.remove(&id) {
            Some(mut source) => {
                source.info__state = running;
                self.app_sources.insert(id, source);
                assert(self.app_sources@ =~= before.insert(id, source));
                true
            },
            None => false,
        }
    }

    /// The node of application source `id` reported new properties: its
    /// application name (kept when not reported), process binary and media
    /// name. Returns whether there is such a source.
    pub fn set_app_props(
        &mut self,
        id: u32,
        application_name: Option<String>,
        process_binary: Option<String>,
        media_name: Option<String>,
    ) -> (found: bool)
        requires
            old(self).wf(),
        ensures
            final(self).wf(),
            found == old(self).app_sources@.contains_key(id),
            found ==> ({
                let prior = old(self).app_sources@[id];
                &&& final(self).app_sources@.dom() == old(self).app_sources@.dom()
                &&& forall|k: u32|
                    #[trigger] final(self).app_sources@.contains_key(k) && k != id
                        ==> final(self).app_sources@[k] == old(self).app_sources@[k]
                &&& final(self).app_sources@[id]@ == (AppSourceView {
                    application_name: match application_name {
                        Some(n) => n@,
                        None => prior@.application_name,
                    },
                    process_binary: opt_text(process_binary),
                    media_name: opt_text(media_name),
                    ..prior@
                })
            }),
            !found ==> final(self).app_sources@ == old(self).app_sources@,
            final(self).physical_sources@ == old(self).physical_sources@,
    {
        let ghost before = self.app_sources@;
        match self.app_sources.remove(&id) {
            Some(mut source) => {
                match application_name {
                    Some(n) => {
                        source.info__props__application_name = n;
                    },
                    None => {},
                }
                source.info__props__application_process_binary = process_binary;
                source.info__props__media_name = media_name;
                self.app_sources.insert(id, source);
                assert(self.app_sources@ =~= before.insert(id, source));
                true
            },
            None => false,
        }
    }

    /// The registry removed global `id`: the application source filed under
    /// it goes if there is one; otherwise the first physical source with it
    /// goes, if any. Returns which list changed.
    pub fn remove_global(&mut self, id: u32) -> (removed: Option<RemovedSource>)
        requires
            old(self).wf(),
        ensures
            final(self).wf(),
            old(self).app_sources@.contains_key(id) ==> {
                &&& removed == Some(RemovedSource::App)
                &&& final(self).app_sources@ == old(self).app_sources@.remove(id)
                &&& final(self).physical_sources@ == old(self).physical_sources@
            },
            !old(self).app_sources@.contains_key(id) ==> {
                &&& final(self).app_sources@ == old(self).app_sources@
                &&& match physical_position(old(self).physical_sources@, id) {
                    Some(p) => removed == Some(RemovedSource::Physical) && final(self).physical_sources@
                        == old(self).physical_sources@.remove(p),
                    None => removed.is_none() && final(self).physical_sources@ == old(self).physical_sources@,
                }
            },
    {
        if self.app_sources.contains_key(&id) {
            self.app_sources.remove(&id);
            return Some(RemovedSource::App);
        }
        match find_physical(&self.physical_sources, id) {
            Some(p) => {
                self.physical_sources.remove(p);
                Some(RemovedSource::Physical)
            },
            None => None,
        }
    }

    /// A copy of the physical sources, to send.
    pub fn physical_sources_snapshot(&self) -> (copy: Vec<PipewirePhysicalSource>)
        ensures
            physical_views(copy@) == physical_views(self.physical_sources@),
    {
        let n = self.physical_sources.len();
        let mut copy: Vec<PipewirePhysicalSource> = Vec::new();
        let mut i: usize = 0;
        while i < n
            invariant
                n == self.physical_sources@.len(),
                i <= n,
                copy@.len() == i,
                forall|j: int| 0 <= j < i ==> #[trigger] copy@[j]@ == self.physical_sources@[j]@,
            decreases n - i,
        {
            copy.push(self.physical_sources[i].clone());
            i = i + 1;
        }
        assert(physical_views(copy@) =~= physical_views(self.physical_sources@));
        copy
    }

    /// A copy of the application sources, to send.
    pub fn app_sources_snapshot(&self) -> (copy: HashMap<u32, PipewireAppSource>)
        ensures
            copy@ == self.app_sources@,
    {
        self.app_sources.clone()
    }
}

/// The fields of each physical source, in order.
pub open spec fn physical_views(sources: Seq<PipewirePhysicalSource>) -> Seq<PhysicalSourceView> {
    sources.map_values(|s: PipewirePhysicalSource| s@)
}

/// The highest gain the virtual microphone applies, in percent.
pub const MAX_GAIN_PERCENT: u32 = 200u32;

/// The gain to apply for a requested gain: at most 200 %.
pub fn clamp_gain_percent(gain: u32) -> (clamped: u32)
    ensures
        clamped == vstd::math::min(gain as int, MAX_GAIN_PERCENT as int),
{
    if gain > MAX_GAIN_PERCENT {
        MAX_GAIN_PERCENT
    } else {
        gain
    }
}

/// Which of AudioPass's streams a state change concerns.
#[derive(Debug, Clone, Copy, PartialEq, Eq)]
pub enum StreamRole {
    VirtualMic,
    VirtualCapture,
}

/// The states of a PipeWire stream that matter here.
pub enum StreamStateKind {
    Error(String),
    Paused,
    Streaming,
    /// Unconnected or connecting.
    Other,
}

/// The readiness that a stream's new state reports to the user interface:
/// an error, or ready once it is paused or streaming; nothing otherwise.
pub fn stream_state_event(role: StreamRole, state: StreamStateKind) -> (event: Option<PipewireEvent>)
    ensures
        match state {
            StreamStateKind::Error(e) => match (role, event) {
                (StreamRole::VirtualMic, Some(PipewireEvent::VirtualMicReady { state: Err(m) })) => m == e,
                (StreamRole::VirtualCapture, Some(PipewireEvent::VirtualCaptureReady { state: Err(m) })) => m == e,
                _ => false,
            },
            StreamStateKind::Paused | StreamStateKind::Streaming => match (role, event) {
                (StreamRole::VirtualMic, Some(PipewireEvent::VirtualMicReady { state: Ok(()) })) => true,
                (StreamRole::VirtualCapture, Some(PipewireEvent::VirtualCaptureReady { state: Ok(()) })) => true,
                _ => false,
            },
            StreamStateKind::Other => event.is_none(),
        },
{
    let state: Result<(), String> = match state {
        StreamStateKind::Error(e) => Err(e),
        StreamStateKind::Paused => Ok(()),
        StreamStateKind::Streaming => Ok(()),
        StreamStateKind::Other => {
            return None;
        },
    };
    match role {
        StreamRole::VirtualMic => Some(PipewireEvent::VirtualMicReady { state }),
        StreamRole::VirtualCapture => Some(PipewireEvent::VirtualCaptureReady { state }),
    }
}

impl PipewireCommand {
    /// Whether this asks for a virtual capture.
    pub fn is_create_capture(&self) -> (r: bool)
        ensures
            r == (self is CreateVirtualCapture),
    {
        match self {
            PipewireCommand::CreateVirtualCapture { .. } => true,
            _ => false,
        }
    }
}

/// The event that reports a failed command: a capture command fails its
/// capture, any other command fails the virtual microphone.
pub fn command_failure_event(create_capture: bool, error: String) -> (event: PipewireEvent)
    ensures
        create_capture ==> (event matches PipewireEvent::VirtualCaptureReady { state: Err(m) } && m == error),
        !create_capture ==> (event matches PipewireEvent::VirtualMicReady { state: Err(m) } && m == error),
{
    if create_capture {
        PipewireEvent::VirtualCaptureReady { state: Err(error) }
    } else {
        PipewireEvent::VirtualMicReady { state: Err(error) }
    }
}

/// What the worker must do with PipeWire for a command.
pub enum WorkerAction {
    /// Create the virtual microphone stream.
    CreateVirtualMic,
    /// Create a capture stream from the node of this name (any earlier one is gone).
    CreateVirtualCapture { selected_node_name: String },
    /// Nothing more (the capture stream is gone).
    Nothing,
}

/// The message for a second virtual microphone.
pub open spec fn second_mic_message() -> Seq<char> {
    "You're trying to create a virtual mic after one has already been created, something's gone terribly wrong."@
}

/// Which streams the PipeWire worker holds.
pub struct PipewireWorkerState {
    has_virtual_mic: bool,
    has_virtual_capture: bool,
}

impl PipewireWorkerState {
    pub closed spec fn mic_present(self) -> bool {
        self.has_virtual_mic
    }

    pub closed spec fn capture_present(self) -> bool {
        self.has_virtual_capture
    }

    /// No streams yet.
    pub fn new() -> (w: Self)
        ensures
            !w.mic_present(),
            !w.capture_present(),
    {
        PipewireWorkerState { has_virtual_mic: false, has_virtual_capture: false }
    }

    /// Decides a command (other than shutdown, which stops the worker's loop):
    /// a second virtual microphone is refused; a new capture first drops the
    /// old one and marks the ring's samples stale; dropping the capture also
    /// marks them stale.
    pub fn handle_command(&mut self, cmd: PipewireCommand, ring: &mut AudioRing) -> (r: Result<WorkerAction, String>)
        requires
            !(cmd is Shutdown),
        ensures
            final(ring).items() == old(ring).items(),
            final(self).mic_present() == old(self).mic_present(),
            match cmd {
                PipewireCommand::CreateVirtualMic => if old(self).mic_present() {
                    &&& r matches Err(m) && m@ == second_mic_message()
                    &&& final(self).capture_present() == old(self).capture_present()
                    &&& final(ring).clear_requested() == old(ring).clear_requested()
                } else {
                    &&& r matches Ok(WorkerAction::CreateVirtualMic)
                    &&& final(self).capture_present() == old(self).capture_present()
                    &&& final(ring).clear_requested() == old(ring).clear_requested()
                },
                PipewireCommand::CreateVirtualCapture { selected_node_name } => {
                    &&& r matches Ok(WorkerAction::CreateVirtualCapture { selected_node_name: n })
                        && n == selected_node_name
                    &&& !final(self).capture_present()
                    &&& final(ring).clear_requested()
                },
                PipewireCommand::DropVirtualCapture => {
                    &&& r matches Ok(WorkerAction::Nothing)
                    &&& !final(self).capture_present()
                    &&& final(ring).clear_requested()
                },
                PipewireCommand::Shutdown => false,
            },
    {
        match cmd {
            PipewireCommand::CreateVirtualMic => {
                if self.has_virtual_mic {
                    return Err(
                        String::from_str(
                            "You're trying to create a virtual mic after one has already been created, something's gone terribly wrong.",
                        ),
                    );
                }
                Ok(WorkerAction::CreateVirtualMic)
            },
            PipewireCommand::CreateVirtualCapture { selected_node_name } => {
                self.has_virtual_capture = false;
                ring.request_clear();
                Ok(WorkerAction::CreateVirtualCapture { selected_node_name })
            },
            PipewireCommand::DropVirtualCapture => {
                self.has_virtual_capture = false;
                ring.request_clear();
                Ok(WorkerAction::Nothing)
            },
            PipewireCommand::Shutdown => Ok(WorkerAction::Nothing),
        }
    }

    /// Records that the stream an action asked for was created.
    pub fn record_created(&mut self, action: &WorkerAction)
        ensures
            final(self).mic_present() == (old(self).mic_present() || *action is CreateVirtualMic),
            final(self).capture_present() == (old(self).capture_present() || *action is CreateVirtualCapture),
    {
        match action {
            WorkerAction::CreateVirtualMic => {
                self.has_virtual_mic = true;
            },
            WorkerAction::CreateVirtualCapture { .. } => {
                self.has_virtual_capture = true;
            },
            WorkerAction::Nothing => {},
        }
    }
}

/// The decimal digits of `n`, most significant first, without leading zeros
/// (`0` is one digit).
pub open spec fn decimal(n: nat) -> Seq<char>
    decreases n,
{
    if n < 10 {
        seq![digit_char(n)]
    } else {
        decimal(n / 10) + seq![digit_char(n % 10)]
    }
}

/// The character of a digit below ten.
pub open spec fn digit_char(d: nat) -> char {
    (('0' as nat) + d) as char
}

/// The decimal digits of `n`.
fn decimal_string(n: u32) -> (s: String)
    ensures
        s@ == decimal(n as nat),
    decreases n,
{
    let digit: u32 = n % 10;
    let text: &str = if digit == 0 {
        "0"
    } else if digit == 1 {
        "1"
    } else if digit == 2 {
        "2"
    } else if digit == 3 {
        "3"
    } else if digit == 4 {
        "4"
    } else if digit == 5 {
        "5"
    } else if digit == 6 {
        "6"
    } else if digit == 7 {
        "7"
    } else if digit == 8 {
        "8"
    } else {
        "9"
    };
    proof {
        reveal_strlit("0");
        reveal_strlit("1");
        reveal_strlit("2");
        reveal_strlit("3");
        reveal_strlit("4");
        reveal_strlit("5");
        reveal_strlit("6");
        reveal_strlit("7");
        reveal_strlit("8");
        reveal_strlit("9");
    }
    assert(text@ =~= seq![digit_char(digit as nat)]);
    let one = String::from_str(text);
    if n < 10 {
        assert(one@ =~= decimal(n as nat));
        one
    } else {
        let front = decimal_string(n / 10);
        let s = front.concat(one.as_str());
        assert(s@ =~= decimal(n as nat));
        s
    }
}

/// The node name of this process's virtual microphone: the AudioPass prefix,
/// a dot, and the process id.
pub open spec fn virtual_mic_node_name(pid: u32) -> Seq<char> {
    "audiopass.virtual-mic"@ + "."@ + decimal(pid as nat)
}

/// The node name of the virtual microphone of the process `pid`.
pub fn virtual_mic_node_name_for(pid: u32) -> (name: String)
    ensures
        name@ == virtual_mic_node_name(pid),
{
    let prefix = String::from_str(crate::constants::AUDIOPASS_VIRTUAL_MIC_IDENTIFIER_PREFIX);
    let dotted = prefix.concat(".");
    let digits = decimal_string(pid);
    let name = dotted.concat(digits.as_str());
    proof {
        reveal_strlit("audiopass.virtual-mic");
    }
    name
}

/// AudioPass recognises its own virtual microphone: the node name it gives
/// it carries the mark that keeps it from being offered as a physical source.
pub proof fn law_own_mic_is_recognised(pid: u32)
    ensures
        contains_text(virtual_mic_node_name(pid), audiopass_mic_marker()),
{
    reveal_strlit("audiopass.virtual-mic");
    reveal_strlit(".");
    reveal_strlit("audiopass.virtual-mic.");
    let name = virtual_mic_node_name(pid);
    let marker = audiopass_mic_marker();
    let start: int = 0;
    assert(name.subrange(start, start + marker.len()) =~= marker);
}

} // verus!
