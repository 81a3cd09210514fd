use audiopass::pipewire::{
    app_source_from_global, physical_source_from_global, GlobalNodeProps, PipewireCommand, PipewireEvent,
};
use audiopass::state::{AboutState, ConsoleState, HelpCategory, HelpState, LegalDoc, MainScreen, PlaybackMode};
use audiopass::ui::{process_picker_result, App, PickerOutcome, PickerPoll};

fn props(id: u32, class: &str, name: &str) -> GlobalNodeProps {
    GlobalNodeProps {
        id,
        media_class: Some(class.to_string()),
        node_name: Some(name.to_string()),
        node_description: None,
        node_nick: None,
        application_name: None,
    }
}

fn mics(list: &[(u32, &str)]) -> PipewireEvent {
    PipewireEvent::PhysicalSources {
        sources: list.iter().map(|(id, n)| physical_source_from_global(&props(*id, "Audio/Source", n)).unwrap()).collect(),
    }
}

fn apps(list: &[(u32, &str)]) -> PipewireEvent {
    PipewireEvent::AppSources {
        sources: list
            .iter()
            .map(|(id, n)| (*id, app_source_from_global(&props(*id, "Stream/Output/Audio", n)).unwrap()))
            .collect::<std::collections::HashMap<u32, _>>(),
    }
}

fn capture_node(cmd: &PipewireCommand) -> Option<&str> {
    match cmd {
        PipewireCommand::CreateVirtualCapture { selected_node_name } => Some(selected_node_name.as_str()),
        _ => None,
    }
}

#[test]
fn state_iterables_and_defaults() {
    assert_eq!(
        PlaybackMode::iterable(),
        [PlaybackMode::Silence, PlaybackMode::PhysicalMic, PlaybackMode::ApplicationAudio, PlaybackMode::LocalFile]
    );
    assert_eq!(LegalDoc::iterable(), [LegalDoc::License, LegalDoc::ThirdParty, LegalDoc::Privacy]);
    assert_eq!(HelpCategory::iterable().len(), 4);
    assert_eq!(HelpState::default().selected_category, HelpCategory::General);
    assert_eq!(AboutState::default().selected_doc, LegalDoc::License);
    assert_eq!(ConsoleState::default().app_audio_gain, 100);
    assert_eq!(LegalDoc::ThirdParty.get_label(), "THIRD PARTY NOTICES");
    assert_eq!(LegalDoc::License.get_label(), "LICENSE");
    assert_eq!(LegalDoc::Privacy.get_label(), "PRIVACY POLICY");
    assert!(LegalDoc::License.get_content().starts_with("MIT License"));
    assert_ne!(LegalDoc::Privacy.get_content(), LegalDoc::ThirdParty.get_content());
}

#[test]
fn startup_completes_when_virtual_mic_is_ready() {
    let mut app = App::new();
    assert!(app.can_start());
    app.on_virtual_mic_requested(Ok(()));
    assert!(app.startup_in_progress && !app.can_start());
    let cmds = app.handle_pipewire_event(PipewireEvent::VirtualMicReady { state: Ok(()) });
    assert!(cmds.is_empty());
    assert!(app.startup_complete && !app.startup_in_progress);
    assert_eq!(app.active_screen, Some(MainScreen::Console));
}

#[test]
fn startup_failures_become_errors() {
    let mut app = App::new();
    app.on_virtual_mic_requested(Err("no worker".to_string()));
    assert_eq!(app.critical_error.as_deref(), Some("no worker"));
    let mut app = App::new();
    app.on_virtual_mic_requested(Ok(()));
    app.handle_pipewire_event(PipewireEvent::VirtualMicReady { state: Err("denied".to_string()) });
    assert!(!app.startup_in_progress && !app.startup_complete);
    assert_eq!(app.critical_error.as_deref(), Some("Failed to create virtual microphone: denied"));
}

#[test]
fn worker_errors_and_disconnection() {
    let mut app = App::new();
    app.handle_pipewire_event(PipewireEvent::VirtualCaptureReady { state: Err("x".to_string()) });
    assert_eq!(app.critical_error.as_deref(), Some("Failed to create virtual capture: x"));
    app.handle_pipewire_event(PipewireEvent::PipewireError { error: "bind".to_string() });
    assert_eq!(app.critical_error.as_deref(), Some("bind"));
    app.on_pipewire_disconnected();
    assert_eq!(app.critical_error.as_deref(), Some("bind"));
    let mut app = App::new();
    app.on_pipewire_disconnected();
    assert_eq!(app.critical_error.as_deref(), Some("Error: Pipewire worker disconnected"));
    let mut app = App::new();
    app.handle_pipewire_event(PipewireEvent::WorkerFailure { error: "init".to_string() });
    assert!(!app.worker_healthy);
    assert!(!app.mode_selectable(PlaybackMode::PhysicalMic));
}

#[test]
fn modes_offered() {
    let app = App::new();
    assert!(app.mode_selectable(PlaybackMode::Silence));
    assert!(app.mode_selectable(PlaybackMode::ApplicationAudio));
    assert!(!app.mode_selectable(PlaybackMode::LocalFile));
}

#[test]
fn own_mics_are_not_offered() {
    let mut app = App::new();
    app.handle_pipewire_event(mics(&[(1, "alsa_input"), (2, "audiopass.virtual-mic.77"), (3, "usb")]));
    let ids: Vec<u32> = app.console_state.physical_sources.iter().map(|s| s.id).collect();
    assert_eq!(ids, vec![1, 3]);
}

#[test]
fn switching_mode_drops_capture_then_captures_selection() {
    let mut app = App::new();
    app.handle_pipewire_event(mics(&[(1, "alsa_input"), (3, "usb")]));
    assert!(app.select_physical_source(1).is_some());
    assert!(app.select_physical_source(1).is_none());
    let cmds = app.set_playback_mode(PlaybackMode::PhysicalMic);
    assert_eq!(cmds.len(), 2);
    assert!(matches!(cmds[0], PipewireCommand::DropVirtualCapture));
    assert_eq!(capture_node(&cmds[1]), Some("usb"));
    assert!(app.set_playback_mode(PlaybackMode::PhysicalMic).is_empty());
    let cmds = app.set_playback_mode(PlaybackMode::ApplicationAudio);
    assert_eq!(cmds.len(), 1);
    assert!(matches!(cmds[0], PipewireCommand::DropVirtualCapture));
    assert_eq!(app.playback_mode, PlaybackMode::ApplicationAudio);
}

#[test]
fn vanished_selection_is_dropped_with_its_capture() {
    let mut app = App::new();
    app.handle_pipewire_event(apps(&[(10, "mpv"), (11, "firefox")]));
    assert_eq!(app.console_state.app_sources.len(), 2);
    let mut ids: Vec<u32> = app.console_state.app_sources.iter().map(|s| s.id).collect();
    ids.sort();
    assert_eq!(ids, vec![10, 11]);
    let index = app.console_state.app_sources.iter().position(|s| s.id == 10).unwrap();
    let cmd = app.select_app_source(index).unwrap();
    assert_eq!(capture_node(&cmd), Some("mpv"));
    app.set_playback_mode(PlaybackMode::ApplicationAudio);
    let cmds = app.handle_pipewire_event(apps(&[(10, "mpv")]));
    assert!(cmds.is_empty());
    assert_eq!(app.console_state.selected_app_source_id, Some(10));
    let cmds = app.handle_pipewire_event(apps(&[(11, "firefox")]));
    assert_eq!(cmds.len(), 1);
    assert!(matches!(cmds[0], PipewireCommand::DropVirtualCapture));
    assert_eq!(app.console_state.selected_app_source_id, None);
}

#[test]
fn vanished_physical_selection_outside_its_mode_keeps_capture() {
    let mut app = App::new();
    app.handle_pipewire_event(mics(&[(1, "alsa_input")]));
    app.select_physical_source(0);
    let cmds = app.handle_pipewire_event(mics(&[]));
    assert!(cmds.is_empty());
    assert_eq!(app.console_state.selected_physical_source_id, None);
}

#[test]
fn same_mode_and_idle_mic_report_change_nothing() {
    let mut app = App::new();
    app.active_screen = Some(MainScreen::About);
    app.about_state.selected_doc = LegalDoc::Privacy;
    assert!(app.set_playback_mode(PlaybackMode::Silence).is_empty());
    assert_eq!(app.active_screen, Some(MainScreen::About));
    assert_eq!(app.about_state.selected_doc, LegalDoc::Privacy);
    let cmds = app.handle_pipewire_event(PipewireEvent::VirtualMicReady { state: Ok(()) });
    assert!(cmds.is_empty());
    assert!(!app.startup_complete);
    assert_eq!(app.active_screen, Some(MainScreen::About));
    let cmds = app.handle_pipewire_event(PipewireEvent::VirtualCaptureReady { state: Ok(()) });
    assert!(cmds.is_empty());
    assert!(app.critical_error.is_none());
    assert!(app.worker_healthy);
}

#[test]
fn picker_results() {
    match process_picker_result(PickerPoll::Received(Some(vec!["/a.mp3".to_string()]))) {
        PickerOutcome::AddTracks(p) => assert_eq!(p, vec!["/a.mp3".to_string()]),
        _ => panic!(),
    }
    assert!(matches!(process_picker_result(PickerPoll::Received(None)), PickerOutcome::ClosePicker));
    assert!(matches!(process_picker_result(PickerPoll::Empty), PickerOutcome::KeepWaiting));
    assert!(matches!(process_picker_result(PickerPoll::Disconnected), PickerOutcome::ClosePicker));
}

#[test]
fn screens_errors_and_selections_change_one_field() {
    let mut app = App::new();
    app.open_screen(MainScreen::Help);
    assert_eq!(app.active_screen, Some(MainScreen::Help));
    app.report_error("boom".to_string());
    assert_eq!(app.critical_error.as_deref(), Some("boom"));
    assert!(!app.can_start());
    app.dismiss_error();
    assert!(app.critical_error.is_none());
    app.select_legal_doc(LegalDoc::ThirdParty);
    assert_eq!(app.about_state.selected_doc, LegalDoc::ThirdParty);
    app.select_help_category(HelpCategory::LocalFile);
    assert_eq!(app.help_state.selected_category, HelpCategory::LocalFile);
    assert_eq!(app.active_screen, Some(MainScreen::Help));
    assert_eq!(app.playback_mode, PlaybackMode::Silence);
}
