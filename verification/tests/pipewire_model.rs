use audiopass::audio::AudioRing;
use audiopass::pipewire::{
    app_source_from_global, clamp_gain_percent, command_failure_event, physical_source_from_global,
    stream_state_event, virtual_mic_node_name_for, GlobalNodeProps, PipewireCommand, PipewireEvent,
    PipewireRegistryData, PipewireWorkerState, RemovedSource, StreamRole, StreamStateKind, WorkerAction,
};

fn props(id: u32, class: &str, name: Option<&str>) -> GlobalNodeProps {
    GlobalNodeProps {
        id,
        media_class: Some(class.to_string()),
        node_name: name.map(|n| n.to_string()),
        node_description: None,
        node_nick: None,
        application_name: None,
    }
}

#[test]
fn physical_source_needs_audio_source_class_and_name() {
    assert!(physical_source_from_global(&props(1, "Audio/Sink", Some("alsa"))).is_none());
    assert!(physical_source_from_global(&props(1, "Audio/Source", None)).is_none());
    let mut p = props(1, "Audio/Source", Some("alsa_input"));
    p.media_class = None;
    assert!(physical_source_from_global(&p).is_none());
}

#[test]
fn physical_source_description_falls_back() {
    let mut p = props(4, "Audio/Source", Some("alsa_input.usb"));
    let s = physical_source_from_global(&p).unwrap();
    assert_eq!((s.id, s.node_name.as_str(), s.description.as_str(), s.is_audiopass_mic), (4, "alsa_input.usb", "alsa_input.usb", false));
    p.node_nick = Some("USB Mic".to_string());
    assert_eq!(physical_source_from_global(&p).unwrap().description, "USB Mic");
    p.node_description = Some("Blue Yeti".to_string());
    assert_eq!(physical_source_from_global(&p).unwrap().description, "Blue Yeti");
}

#[test]
fn own_virtual_mic_is_recognised() {
    let name = virtual_mic_node_name_for(4071);
    assert_eq!(name, "audiopass.virtual-mic.4071");
    let s = physical_source_from_global(&props(9, "Audio/Source", Some(&name))).unwrap();
    assert!(s.is_audiopass_mic);
    assert_eq!(virtual_mic_node_name_for(0), "audiopass.virtual-mic.0");
    assert_eq!(virtual_mic_node_name_for(u32::MAX), "audiopass.virtual-mic.4294967295");
    let other = physical_source_from_global(&props(9, "Audio/Source", Some("audiopass.virtual-mic"))).unwrap();
    assert!(!other.is_audiopass_mic);
}

#[test]
fn app_source_from_stream_output() {
    assert!(app_source_from_global(&props(2, "Audio/Source", Some("x"))).is_none());
    let mut p = props(2, "Stream/Output/Audio", Some("firefox"));
    let a = app_source_from_global(&p).unwrap();
    assert_eq!((a.id, a.node_name.as_str(), a.info__props__application_name.as_str()), (2, "firefox", "firefox"));
    assert!(!a.info__state && a.info__props__media_name.is_none());
    p.application_name = Some("Firefox".to_string());
    assert_eq!(app_source_from_global(&p).unwrap().info__props__application_name, "Firefox");
}

#[test]
fn registry_keeps_one_app_source_per_id() {
    let mut r = PipewireRegistryData::default();
    r.insert_app_source(app_source_from_global(&props(5, "Stream/Output/Audio", Some("a"))).unwrap());
    r.insert_app_source(app_source_from_global(&props(6, "Stream/Output/Audio", Some("b"))).unwrap());
    r.insert_app_source(app_source_from_global(&props(5, "Stream/Output/Audio", Some("c"))).unwrap());
    assert_eq!(r.app_sources.len(), 2);
    assert_eq!(r.app_sources[&5].node_name, "c");
    assert_eq!(r.app_sources[&6].node_name, "b");
    assert_eq!(r.app_sources_snapshot().len(), 2);
}

#[test]
fn registry_updates_and_removes_sources() {
    let mut r = PipewireRegistryData::default();
    r.add_physical_source(physical_source_from_global(&props(1, "Audio/Source", Some("m1"))).unwrap());
    r.add_physical_source(physical_source_from_global(&props(2, "Audio/Source", Some("m2"))).unwrap());
    r.insert_app_source(app_source_from_global(&props(3, "Stream/Output/Audio", Some("a"))).unwrap());
    assert!(r.set_app_running(3, true));
    assert!(!r.set_app_running(4, true));
    assert!(r.app_sources[&3].info__state);
    assert!(r.set_app_props(3, None, Some("/usr/bin/mpv".to_string()), Some("song".to_string())));
    assert_eq!(r.app_sources[&3].info__props__application_name, "a");
    assert_eq!(r.app_sources[&3].info__props__media_name.as_deref(), Some("song"));
    assert!(r.set_app_props(3, Some("mpv".to_string()), None, None));
    assert_eq!(r.app_sources[&3].info__props__application_name, "mpv");
    assert!(r.app_sources[&3].info__props__application_process_binary.is_none());
    assert_eq!(r.remove_global(3), Some(RemovedSource::App));
    assert!(r.app_sources.is_empty());
    assert_eq!(r.remove_global(1), Some(RemovedSource::Physical));
    assert_eq!(r.physical_sources.len(), 1);
    assert_eq!(r.remove_global(1), None);
    let snapshot = r.physical_sources_snapshot();
    assert_eq!(snapshot[0].node_name, "m2");
    assert!(r.app_sources_snapshot().is_empty());
}

#[test]
fn gain_is_clamped() {
    assert_eq!(clamp_gain_percent(0), 0);
    assert_eq!(clamp_gain_percent(150), 150);
    assert_eq!(clamp_gain_percent(200), 200);
    assert_eq!(clamp_gain_percent(201), 200);
    assert_eq!(clamp_gain_percent(u32::MAX), 200);
}

#[test]
fn stream_states_map_to_readiness() {
    match stream_state_event(StreamRole::VirtualMic, StreamStateKind::Streaming) {
        Some(PipewireEvent::VirtualMicReady { state: Ok(()) }) => {}
        _ => panic!("streaming mic is ready"),
    }
    match stream_state_event(StreamRole::VirtualCapture, StreamStateKind::Paused) {
        Some(PipewireEvent::VirtualCaptureReady { state: Ok(()) }) => {}
        _ => panic!("paused capture is ready"),
    }
    match stream_state_event(StreamRole::VirtualCapture, StreamStateKind::Error("boom".to_string())) {
        Some(PipewireEvent::VirtualCaptureReady { state: Err(e) }) => assert_eq!(e, "boom"),
        _ => panic!("errors are reported"),
    }
    assert!(stream_state_event(StreamRole::VirtualMic, StreamStateKind::Other).is_none());
}

#[test]
fn failures_are_routed_by_command() {
    let cmd = PipewireCommand::CreateVirtualCapture { selected_node_name: "n".to_string() };
    assert!(cmd.is_create_capture());
    assert!(!PipewireCommand::CreateVirtualMic.is_create_capture());
    match command_failure_event(true, "e".to_string()) {
        PipewireEvent::VirtualCaptureReady { state: Err(e) } => assert_eq!(e, "e"),
        _ => panic!(),
    }
    match command_failure_event(false, "e".to_string()) {
        PipewireEvent::VirtualMicReady { state: Err(e) } => assert_eq!(e, "e"),
        _ => panic!(),
    }
}

#[test]
fn second_virtual_mic_is_refused() {
    let mut w = PipewireWorkerState::new();
    let mut ring = AudioRing::new();
    let action = w.handle_command(PipewireCommand::CreateVirtualMic, &mut ring).unwrap();
    assert!(matches!(action, WorkerAction::CreateVirtualMic));
    w.record_created(&action);
    match w.handle_command(PipewireCommand::CreateVirtualMic, &mut ring) {
        Err(m) => assert_eq!(
            m,
            "You're trying to create a virtual mic after one has already been created, something's gone terribly wrong."
        ),
        Ok(_) => panic!("a second virtual mic must be refused"),
    }
}

#[test]
fn capture_commands_mark_ring_stale() {
    let mut w = PipewireWorkerState::new();
    let mut ring = AudioRing::new();
    let cmd = PipewireCommand::CreateVirtualCapture { selected_node_name: "alsa".to_string() };
    match w.handle_command(cmd, &mut ring).unwrap() {
        WorkerAction::CreateVirtualCapture { selected_node_name } => assert_eq!(selected_node_name, "alsa"),
        _ => panic!(),
    }
    assert!(ring.take_clear_request());
    assert!(matches!(w.handle_command(PipewireCommand::DropVirtualCapture, &mut ring).unwrap(), WorkerAction::Nothing));
    assert!(ring.take_clear_request());
}
