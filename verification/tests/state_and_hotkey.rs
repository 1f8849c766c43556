use director_general::caps_hook::{
    install, keyboard_verdict, set_target_vk, vk_for_intercept, HookState, KeyVerdict, HC_ACTION,
    VK_CAPITAL, WM_KEYDOWN, WM_SYSKEYDOWN,
};
use director_general::hotkey::{
    apply_hotkey, completion_event, finish_flow, parse_shortcut, prompt_from_common_words,
    FlowAction, FlowEvent, FlowStage, HotkeyRoute, TranscriptionFlow,
};
use director_general::state::{after_recorder_start, mode_name, on_press, Mode, ShellStep};
use director_general::storage::Settings;
use global_hotkey::hotkey::{Code, HotKey, Modifiers};

const WM_KEYUP: u32 = 0x0101;

fn emit_of(step: &ShellStep) -> (&'static str, Option<String>) {
    match step {
        ShellStep::Emit { event, payload } => (*event, payload.clone()),
        other => panic!("expected an emit, got {other:?}"),
    }
}

#[test]
fn press_cycle_idle_recording_transcribing_idle() {
    let (m1, s1) = on_press(Mode::Idle, Some("USB Mic".to_string()));
    assert_eq!(m1, Mode::Recording);
    assert_eq!(s1.len(), 2);
    assert!(matches!(s1[0], ShellStep::CaptureWindowTitle));
    match &s1[1] {
        ShellStep::StartRecorder { device } => assert_eq!(device.as_deref(), Some("USB Mic")),
        other => panic!("expected StartRecorder, got {other:?}"),
    }
    let (m2, s2) = on_press(m1, None);
    assert_eq!(m2, Mode::Transcribing);
    assert_eq!(s2.len(), 3);
    assert_eq!(emit_of(&s2[0]), ("mode-changed", Some("transcribing".to_string())));
    assert_eq!(emit_of(&s2[1]), ("recording-stopped", None));
    assert!(matches!(s2[2], ShellStep::SpawnTranscriptionFlow));
    let (m3, s3) = on_press(m2, None);
    assert_eq!(m3, Mode::Transcribing);
    assert!(s3.is_empty());
    let (m4, s4) = finish_flow(&Ok("hi".to_string()));
    assert_eq!(m4, Mode::Idle);
    assert_eq!(emit_of(&s4[0]), ("mode-changed", Some("idle".to_string())));
    assert_eq!(emit_of(&s4[1]), ("transcription-complete", Some("hi".to_string())));
    let (m5, s5) = finish_flow(&Err("boom".to_string()));
    assert_eq!(m5, Mode::Idle);
    assert_eq!(s5.len(), 2);
    assert_eq!(emit_of(&s5[1]), ("transcription-error", Some("boom".to_string())));
}

#[test]
fn press_from_idle_uses_the_default_device_when_none_is_set() {
    let (_, steps) = on_press(Mode::Idle, None);
    match &steps[1] {
        ShellStep::StartRecorder { device } => assert_eq!(*device, None),
        other => panic!("expected StartRecorder, got {other:?}"),
    }
}

#[test]
fn recorder_start_announces_recording() {
    let (m, steps) = after_recorder_start(Ok(()));
    assert_eq!(m, Mode::Recording);
    assert_eq!(steps.len(), 2);
    assert_eq!(emit_of(&steps[0]), ("mode-changed", Some("recording".to_string())));
    assert_eq!(emit_of(&steps[1]), ("recording-started", None));
}

#[test]
fn failed_start_returns_to_idle() {
    let (m, steps) = after_recorder_start(Err("no input device".to_string()));
    assert_eq!(m, Mode::Idle);
    assert_eq!(steps.len(), 1);
    assert_eq!(emit_of(&steps[0]), ("error", Some("start_recording: no input device".to_string())));
}

#[test]
fn mode_names_are_snake_case() {
    assert_eq!(mode_name(Mode::Idle), "idle");
    assert_eq!(mode_name(Mode::Recording), "recording");
    assert_eq!(mode_name(Mode::Transcribing), "transcribing");
}

#[test]
fn caps_lock_specs_are_intercepted() {
    assert_eq!(vk_for_intercept("CapsLock"), Some(VK_CAPITAL));
    assert_eq!(vk_for_intercept("  Capital\t"), Some(0x14));
    assert_eq!(vk_for_intercept("\u{a0}CapsLock\n"), Some(0x14));
    assert_eq!(vk_for_intercept("capslock"), None);
    assert_eq!(vk_for_intercept("Ctrl+Space"), None);
    assert_eq!(vk_for_intercept(""), None);
}

#[test]
fn hook_installs_once_and_follows_target() {
    let mut hook: Option<HookState> = None;
    set_target_vk(&mut hook, Some(VK_CAPITAL));
    assert_eq!(hook, None);
    assert!(install(&mut hook));
    assert_eq!(hook, Some(HookState { target_vk: None }));
    set_target_vk(&mut hook, Some(VK_CAPITAL));
    assert!(!install(&mut hook));
    assert_eq!(hook, Some(HookState { target_vk: Some(VK_CAPITAL) }));
}

#[test]
fn hook_swallows_target_press_and_release() {
    let hook = Some(HookState { target_vk: Some(VK_CAPITAL) });
    assert_eq!(keyboard_verdict(&hook, HC_ACTION, VK_CAPITAL, WM_KEYDOWN), KeyVerdict::Swallow { notify: true });
    assert_eq!(keyboard_verdict(&hook, HC_ACTION, VK_CAPITAL, WM_SYSKEYDOWN), KeyVerdict::Swallow { notify: true });
    assert_eq!(keyboard_verdict(&hook, HC_ACTION, VK_CAPITAL, WM_KEYUP), KeyVerdict::Swallow { notify: false });
    assert_eq!(keyboard_verdict(&hook, HC_ACTION, 0x41, WM_KEYDOWN), KeyVerdict::PassThrough);
    assert_eq!(keyboard_verdict(&hook, 3, VK_CAPITAL, WM_KEYDOWN), KeyVerdict::PassThrough);
    let idle = Some(HookState { target_vk: None });
    assert_eq!(keyboard_verdict(&idle, HC_ACTION, VK_CAPITAL, WM_KEYDOWN), KeyVerdict::PassThrough);
    assert_eq!(keyboard_verdict(&None, HC_ACTION, VK_CAPITAL, WM_KEYDOWN), KeyVerdict::PassThrough);
}

#[test]
fn apply_hotkey_routes_caps_lock_to_the_hook() {
    let mut hook = Some(HookState { target_vk: None });
    assert_eq!(apply_hotkey(&mut hook, "CapsLock"), HotkeyRoute::LowLevelHook(VK_CAPITAL));
    assert_eq!(hook, Some(HookState { target_vk: Some(VK_CAPITAL) }));
    assert_eq!(apply_hotkey(&mut hook, "F9"), HotkeyRoute::GlobalShortcut);
    assert_eq!(hook, Some(HookState { target_vk: None }));
    let mut none: Option<HookState> = None;
    assert_eq!(apply_hotkey(&mut none, "CapsLock"), HotkeyRoute::LowLevelHook(VK_CAPITAL));
    assert_eq!(none, None);
}

#[test]
fn parse_shortcut_accepts_known_keys() {
    let caps = parse_shortcut("CapsLock").ok().expect("CapsLock parses");
    assert_eq!(caps.key_code, Code::CapsLock as u32);
    assert_eq!(caps.id, HotKey::new(None, Code::CapsLock).id());
    assert_eq!(caps.hotkey, HotKey::new(None, Code::CapsLock));
    let combo = parse_shortcut("Ctrl+Space").ok().expect("Ctrl+Space parses");
    assert_eq!(combo.key_code, Code::Space as u32);
    assert_eq!(combo.id, HotKey::new(Some(Modifiers::CONTROL), Code::Space).id());
    assert_eq!(combo.hotkey, HotKey::new(Some(Modifiers::CONTROL), Code::Space));
    assert!(parse_shortcut("Backquote").is_ok());
}

#[test]
fn parse_shortcut_reports_invalid_specs() {
    match parse_shortcut("Ctrl+") {
        Err(e) => assert!(e.starts_with("invalid hotkey 'Ctrl+': "), "{e}"),
        Ok(_) => panic!("Ctrl+ must not parse"),
    }
    match parse_shortcut("NotAKey") {
        Err(e) => assert!(e.starts_with("invalid hotkey 'NotAKey': "), "{e}"),
        Ok(_) => panic!("NotAKey must not parse"),
    }
}

#[test]
fn prompt_is_dropped_when_blank() {
    assert_eq!(prompt_from_common_words(&"   \n\t".to_string()), None);
    assert_eq!(prompt_from_common_words(&String::new()), None);
    assert_eq!(
        prompt_from_common_words(&" API, WordPress ".to_string()),
        Some(" API, WordPress ".to_string())
    );
}

fn settings(auto_paste: bool) -> Settings {
    let mut s = Settings::default_with_model_path("models/ggml-large-v3.bin".to_string());
    s.auto_paste = auto_paste;
    s.language = Some("ro".to_string());
    s.common_words = "Bossnet".to_string();
    s
}

#[test]
fn flow_runs_through_all_steps_with_paste() {
    let s = settings(true);
    let (mut flow, first) = TranscriptionFlow::start();
    assert!(matches!(first, FlowAction::StopRecorder));
    assert!(matches!(flow.step(FlowEvent::RecorderStopped, &s), FlowAction::PrepareDirectory));
    assert_eq!(flow.stage, FlowStage::Preparing);
    match flow.step(FlowEvent::DirectoryReady, &s) {
        FlowAction::SaveWav { file_name } => {
            assert!(file_name.starts_with("rec_") && file_name.ends_with(".wav"));
            assert_eq!(file_name.len(), "rec_YYYYMMDD-HHMMSS.wav".len());
            let stamp = &file_name[4..19];
            for (i, c) in stamp.chars().enumerate() {
                if i == 8 {
                    assert_eq!(c, '-');
                } else {
                    assert!(c.is_ascii_digit(), "{file_name}");
                }
            }
        }
        _ => panic!("expected SaveWav"),
    }
    match flow.step(FlowEvent::WavSaved("/tmp/rec.wav".to_string()), &s) {
        FlowAction::Transcribe { wav_path, language, prompt } => {
            assert_eq!(wav_path, "/tmp/rec.wav");
            assert_eq!(language, Some("ro".to_string()));
            assert_eq!(prompt, Some("Bossnet".to_string()));
        }
        _ => panic!("expected Transcribe"),
    }
    match flow.step(FlowEvent::Transcribed("hello".to_string()), &s) {
        FlowAction::WriteClipboard { text } => assert_eq!(text, "hello"),
        _ => panic!("expected WriteClipboard"),
    }
    match flow.step(FlowEvent::ClipboardWritten, &s) {
        FlowAction::Paste { delay_ms } => assert_eq!(delay_ms, 80),
        _ => panic!("expected Paste"),
    }
    match flow.step(FlowEvent::PasteAttempted, &s) {
        FlowAction::RecordHistory { text, wav_path, model } => {
            assert_eq!(model, "ggml-large-v3");
            assert_eq!(text, "hello");
            assert_eq!(wav_path, "/tmp/rec.wav");
        }
        _ => panic!("expected RecordHistory"),
    }
    match flow.step(FlowEvent::HistorySaved, &s) {
        FlowAction::Finish(Ok(t)) => assert_eq!(t, "hello"),
        _ => panic!("expected Finish(Ok)"),
    }
    assert_eq!(flow.stage, FlowStage::Finished);
    assert!(matches!(flow.step(FlowEvent::HistorySaved, &s), FlowAction::Ignore));
}

#[test]
fn flow_skips_paste_when_off_or_empty() {
    let off = settings(false);
    let (mut flow, _) = TranscriptionFlow::start();
    flow.step(FlowEvent::RecorderStopped, &off);
    flow.step(FlowEvent::DirectoryReady, &off);
    flow.step(FlowEvent::WavSaved("a.wav".to_string()), &off);
    flow.step(FlowEvent::Transcribed("text".to_string()), &off);
    assert!(matches!(flow.step(FlowEvent::ClipboardWritten, &off), FlowAction::RecordHistory { .. }));

    let on = settings(true);
    let (mut flow, _) = TranscriptionFlow::start();
    flow.step(FlowEvent::RecorderStopped, &on);
    flow.step(FlowEvent::DirectoryReady, &on);
    flow.step(FlowEvent::WavSaved("a.wav".to_string()), &on);
    flow.step(FlowEvent::Transcribed(String::new()), &on);
    assert!(matches!(flow.step(FlowEvent::ClipboardWritten, &on), FlowAction::RecordHistory { .. }));
}

fn finish_error(action: FlowAction) -> String {
    match action {
        FlowAction::Finish(Err(e)) => e,
        _ => panic!("expected a failed finish"),
    }
}

#[test]
fn flow_failures_carry_their_context() {
    let s = settings(true);
    let (mut flow, _) = TranscriptionFlow::start();
    assert_eq!(finish_error(flow.step(FlowEvent::Failed("audio worker died".to_string()), &s)), "recorder.stop: audio worker died");

    let (mut flow, _) = TranscriptionFlow::start();
    flow.step(FlowEvent::RecorderStopped, &s);
    flow.step(FlowEvent::DirectoryReady, &s);
    assert_eq!(finish_error(flow.step(FlowEvent::Failed("disk full".to_string()), &s)), "save_recording_as_wav: disk full");

    let (mut flow, _) = TranscriptionFlow::start();
    flow.step(FlowEvent::RecorderStopped, &s);
    assert!(matches!(flow.step(FlowEvent::Failed("late".to_string()), &s), FlowAction::Ignore));
    assert_eq!(finish_error(flow.step(FlowEvent::DirectoryFailed("create \"x\"".to_string()), &s)), "create \"x\"");

    let (mut flow, _) = TranscriptionFlow::start();
    flow.step(FlowEvent::RecorderStopped, &s);
    flow.step(FlowEvent::DirectoryReady, &s);
    flow.step(FlowEvent::WavSaved("a.wav".to_string()), &s);
    assert_eq!(finish_error(flow.step(FlowEvent::Failed("no model".to_string()), &s)), "transcribe: no model");

    let (mut flow, _) = TranscriptionFlow::start();
    flow.step(FlowEvent::RecorderStopped, &s);
    flow.step(FlowEvent::DirectoryReady, &s);
    flow.step(FlowEvent::WavSaved("a.wav".to_string()), &s);
    flow.step(FlowEvent::Transcribed("t".to_string()), &s);
    assert_eq!(finish_error(flow.step(FlowEvent::Failed("Busy".to_string()), &s)), "clipboard write: Busy");

    let (mut flow, _) = TranscriptionFlow::start();
    flow.step(FlowEvent::RecorderStopped, &s);
    flow.step(FlowEvent::DirectoryReady, &s);
    flow.step(FlowEvent::WavSaved("a.wav".to_string()), &s);
    flow.step(FlowEvent::Transcribed("t".to_string()), &s);
    flow.step(FlowEvent::ClipboardWritten, &s);
    flow.step(FlowEvent::PasteAttempted, &s);
    assert_eq!(finish_error(flow.step(FlowEvent::Failed("write failed".to_string()), &s)), "write failed");
}

#[test]
fn completion_events_name_the_outcome() {
    let (name, payload) = completion_event(&Ok("done".to_string()));
    assert_eq!((name, payload.as_str()), ("transcription-complete", "done"));
    let (name, payload) = completion_event(&Err("bad".to_string()));
    assert_eq!((name, payload.as_str()), ("transcription-error", "bad"));
}
