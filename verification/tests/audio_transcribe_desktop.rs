use director_general::audio::{
    list_input_devices, pick_device, start_outcome, stop_outcome, stream_conversion,
    target_wav_format, wav_decode_plan, Command, DeviceChoice, RecorderWorker, ReplyKind,
    SampleConversion, StreamSampleFormat, WavDecodePlan, WavFormat, WavSampleReading,
    WorkerAction, WorkerEvent, WorkerPhase, TARGET_SAMPLE_RATE,
};
use director_general::desktop::{
    cleanup_cutoff, cleanup_report, close_hides_window, command_error, is_wav, overlay_action,
    ping, plan_settings_update, same_model_path, settings_update_plan, settings_update_steps,
    stale_recordings, tray_click_focuses, tray_menu_action, tray_menu_items, update_step_error,
    OverlayAction, RecordingFile, SettingsUpdatePlan, TrayAction, TrayItem, UpdateStep,
};
use director_general::storage::{Settings, Timestamp};
use director_general::transcribe::{
    load_error_message, model_init_error, model_load_error, needs_inference, next_load_step, segment_text,
    available_cpus, whisper_run, LazyTranscriber, LoadStep,
};

#[test]
fn recorder_replies_are_interpreted() {
    assert_eq!(start_outcome(Some(ReplyKind::Started)), Ok(()));
    assert_eq!(start_outcome(Some(ReplyKind::Error("no mic".to_string()))), Err("no mic".to_string()));
    assert_eq!(start_outcome(Some(ReplyKind::Stopped)), Err("unexpected reply during start".to_string()));
    assert_eq!(start_outcome(None), Err("audio worker died".to_string()));
    assert_eq!(stop_outcome(Some(ReplyKind::Stopped)), Ok(()));
    assert_eq!(stop_outcome(Some(ReplyKind::Started)), Err("unexpected reply during stop".to_string()));
    assert_eq!(stop_outcome(Some(ReplyKind::Error("e".to_string()))), Err("e".to_string()));
    assert_eq!(stop_outcome(None), Err("audio worker died".to_string()));
}

#[test]
fn worker_keeps_one_session_at_a_time() {
    let mut w = RecorderWorker::new();
    assert_eq!(w.phase, WorkerPhase::Waiting);
    assert!(matches!(w.step(WorkerEvent::Received(Command::Stop)), WorkerAction::Ignore));
    assert_eq!(w.phase, WorkerPhase::Waiting);
    match w.step(WorkerEvent::Received(Command::Start { device: Some("USB".to_string()) })) {
        WorkerAction::OpenSession { device } => assert_eq!(device, Some("USB".to_string())),
        _ => panic!("expected OpenSession"),
    }
    assert_eq!(w.phase, WorkerPhase::Opening);
    assert!(matches!(w.step(WorkerEvent::SessionOpened), WorkerAction::Ignore));
    assert_eq!(w.phase, WorkerPhase::Recording);
    match w.step(WorkerEvent::Received(Command::Start { device: None })) {
        WorkerAction::ReplyError(m) => assert_eq!(m, "already recording"),
        _ => panic!("expected ReplyError"),
    }
    assert_eq!(w.phase, WorkerPhase::Recording);
    assert!(matches!(w.step(WorkerEvent::Received(Command::Stop)), WorkerAction::FinishSession));
    assert_eq!(w.phase, WorkerPhase::Waiting);
    assert!(matches!(w.step(WorkerEvent::ChannelClosed), WorkerAction::Exit));
    assert_eq!(w.phase, WorkerPhase::Exited);
}

#[test]
fn worker_failures_are_replied() {
    let mut w = RecorderWorker::new();
    w.step(WorkerEvent::Received(Command::Start { device: None }));
    match w.step(WorkerEvent::SessionFailed("no default input device".to_string())) {
        WorkerAction::ReplyError(m) => assert_eq!(m, "no default input device"),
        _ => panic!("expected ReplyError"),
    }
    assert_eq!(w.phase, WorkerPhase::Waiting);
    w.step(WorkerEvent::Received(Command::Start { device: None }));
    w.step(WorkerEvent::SessionOpened);
    match w.step(WorkerEvent::ChannelClosed) {
        WorkerAction::AbandonSession(m) => assert_eq!(m, "command channel closed"),
        _ => panic!("expected AbandonSession"),
    }
    assert_eq!(w.phase, WorkerPhase::Waiting);
}

#[test]
fn device_is_picked_by_name_or_default() {
    let devs = vec![Some("Speakers".to_string()), None, Some("USB Mic".to_string()), Some("USB Mic".to_string())];
    assert_eq!(pick_device(&devs, Some("USB Mic")), DeviceChoice::Listed(2));
    assert_eq!(pick_device(&devs, Some("Missing")), DeviceChoice::Default);
    assert_eq!(pick_device(&devs, None), DeviceChoice::Default);
    assert_eq!(pick_device(&Vec::new(), Some("USB Mic")), DeviceChoice::Default);
}

#[test]
fn device_list_is_sorted_and_unique() {
    let found = vec!["b".to_string(), "a".to_string(), "b".to_string()];
    assert_eq!(list_input_devices(&found), vec!["a".to_string(), "b".to_string()]);
}

#[test]
fn device_list_is_the_same_for_any_order() {
    let a = vec!["Mic".to_string(), "Array".to_string(), "Mic".to_string()];
    let b = vec!["Array".to_string(), "Mic".to_string()];
    let shown = list_input_devices(&a);
    assert_eq!(shown, list_input_devices(&b));
    assert_eq!(list_input_devices(&shown), shown);
}

#[test]
fn stream_formats() {
    assert_eq!(stream_conversion(&StreamSampleFormat::F32), Ok(SampleConversion::Float));
    assert_eq!(stream_conversion(&StreamSampleFormat::I16), Ok(SampleConversion::SignedInt16));
    assert_eq!(stream_conversion(&StreamSampleFormat::U16), Ok(SampleConversion::UnsignedInt16));
    assert_eq!(
        stream_conversion(&StreamSampleFormat::Other("I32".to_string())),
        Err("unsupported sample format: I32".to_string())
    );
}

#[test]
fn wav_formats() {
    assert_eq!(TARGET_SAMPLE_RATE, 16_000);
    assert_eq!(
        target_wav_format(),
        WavFormat { channels: 1, sample_rate: 16_000, bits_per_sample: 16, integer_samples: true }
    );
    let stereo48 = WavFormat { channels: 2, sample_rate: 48_000, bits_per_sample: 16, integer_samples: true };
    assert_eq!(
        wav_decode_plan(stereo48),
        Ok(WavDecodePlan { reading: WavSampleReading::Int16, downmix: true, resample: true })
    );
    let mono16 = WavFormat { channels: 1, sample_rate: 16_000, bits_per_sample: 32, integer_samples: true };
    assert_eq!(
        wav_decode_plan(mono16),
        Ok(WavDecodePlan { reading: WavSampleReading::Int32, downmix: false, resample: false })
    );
    let float = WavFormat { channels: 1, sample_rate: 44_100, bits_per_sample: 32, integer_samples: false };
    assert_eq!(
        wav_decode_plan(float),
        Ok(WavDecodePlan { reading: WavSampleReading::Float, downmix: false, resample: true })
    );
    let bits24 = WavFormat { channels: 1, sample_rate: 16_000, bits_per_sample: 24, integer_samples: true };
    assert_eq!(wav_decode_plan(bits24), Err("unsupported int bits_per_sample: 24".to_string()));
}

#[test]
fn lazy_transcriber_reloads_after_path_change() {
    let mut lazy: LazyTranscriber<u32> = LazyTranscriber::new("a.bin".to_string());
    assert_eq!(lazy.current_model_path(), "a.bin");
    assert_eq!(lazy.path_to_load(), Some("a.bin".to_string()));
    lazy.store_loaded(7);
    assert_eq!(lazy.path_to_load(), None);
    assert_eq!(lazy.loaded(), Some(&7));
    lazy.set_model_path("b.bin".to_string());
    assert_eq!(lazy.current_model_path(), "b.bin");
    assert_eq!(lazy.loaded(), None);
    assert_eq!(lazy.path_to_load(), Some("b.bin".to_string()));
}

#[test]
fn model_load_falls_back_to_cpu() {
    let gpu_err = model_init_error(true, "no CUDA");
    assert_eq!(gpu_err, "WhisperContext init (gpu=true): no CUDA");
    assert_eq!(model_init_error(false, "x"), "WhisperContext init (gpu=false): x");
    let step = next_load_step("m.bin", LoadStep::TryGpu, Err(gpu_err.clone()));
    let step = match step {
        LoadStep::TryCpu { gpu_error } => {
            assert_eq!(gpu_error, gpu_err);
            LoadStep::TryCpu { gpu_error }
        }
        _ => panic!("expected TryCpu"),
    };
    match next_load_step("m.bin", step, Err("bad file".to_string())) {
        LoadStep::Failed(m) => assert_eq!(
            m,
            "failed to load whisper model from \"m.bin\" (CPU fallback after GPU error: WhisperContext init (gpu=true): no CUDA): bad file"
        ),
        _ => panic!("expected Failed"),
    }
    assert!(matches!(next_load_step("m.bin", LoadStep::TryGpu, Ok(())), LoadStep::Loaded));
    assert!(matches!(
        next_load_step("m.bin", LoadStep::TryCpu { gpu_error: "e".to_string() }, Ok(())),
        LoadStep::Loaded
    ));
    assert_eq!(
        model_load_error("C:\\m \"x\".bin", "g", "c"),
        "failed to load whisper model from \"C:\\\\m \\\"x\\\".bin\" (CPU fallback after GPU error: g): c"
    );
    assert_eq!(
        load_error_message("'m.bin'", "g", "c"),
        "failed to load whisper model from 'm.bin' (CPU fallback after GPU error: g): c"
    );
    assert_eq!(
        model_load_error("models/ggml-base.bin", "no GPU", "bad magic"),
        "failed to load whisper model from \"models/ggml-base.bin\" (CPU fallback after GPU error: no GPU): bad magic"
    );
}

#[test]
fn whisper_run_parameters() {
    let cpus = available_cpus();
    assert!(cpus >= 1);
    let run = whisper_run(Some("ro"), Some("  API, WordPress \n"), cpus);
    assert_eq!(run.best_of, 1);
    assert_eq!(run.n_threads, cpus as i32);
    assert_eq!(whisper_run(None, None, 6).n_threads, 6);
    assert_eq!(run.language, Some("ro".to_string()));
    assert!(!run.translate && !run.print_progress && !run.print_realtime);
    assert!(!run.print_special && !run.print_timestamps);
    assert_eq!(run.initial_prompt, Some("API, WordPress".to_string()));
    let auto = whisper_run(None, Some("   "), 2);
    assert_eq!(auto.language, None);
    assert_eq!(auto.initial_prompt, None);
    assert_eq!(whisper_run(None, None, 1).initial_prompt, None);
    assert!(!needs_inference(0));
    assert!(needs_inference(1));
}

#[test]
fn segment_text_joins_and_trims() {
    let segs = vec![Some(" Hello,".to_string()), None, Some(" world.".to_string()), Some(" \n".to_string())];
    assert_eq!(segment_text(&segs), "Hello, world.");
    assert_eq!(segment_text(&Vec::new()), "");
}

#[test]
fn shell_commands_and_tray() {
    assert_eq!(ping(), "pong from director-general");
    let items = tray_menu_items();
    assert_eq!(items.len(), 5);
    match items[0] {
        TrayItem::Entry { id, label } => assert_eq!((id, label), ("show", "Show Director General")),
        TrayItem::Separator => panic!("first item is an entry"),
    }
    assert!(matches!(items[3], TrayItem::Separator));
    match items[4] {
        TrayItem::Entry { id, label } => assert_eq!((id, label), ("quit", "Quit")),
        TrayItem::Separator => panic!("last item is an entry"),
    }
    assert!(matches!(tray_menu_action("show"), TrayAction::FocusMain));
    assert!(matches!(tray_menu_action("open_settings"), TrayAction::FocusAndNavigate("settings")));
    assert!(matches!(tray_menu_action("open_history"), TrayAction::FocusAndNavigate("history")));
    assert!(matches!(tray_menu_action("quit"), TrayAction::Quit));
    assert!(matches!(tray_menu_action("other"), TrayAction::Nothing));
    assert!(tray_click_focuses(true, true));
    assert!(!tray_click_focuses(true, false));
    assert!(!tray_click_focuses(false, true));
    assert!(close_hides_window("main"));
    assert!(!close_hides_window("overlay"));
}

#[test]
fn overlay_follows_the_mode() {
    assert_eq!(overlay_action("\"recording\"", Some(true)), OverlayAction::Show);
    assert_eq!(overlay_action("\"recording\"", None), OverlayAction::Show);
    assert_eq!(overlay_action("recording", Some(false)), OverlayAction::Nothing);
    assert_eq!(overlay_action("\"transcribing\"", Some(true)), OverlayAction::Hide);
    assert_eq!(overlay_action("\"idle\"", Some(false)), OverlayAction::Hide);
}

#[test]
fn settings_updates_are_planned() {
    let old = Settings::default_with_model_path("models/a.bin".to_string());
    let mut new = Settings::default_with_model_path("models/a.bin".to_string());
    assert!(same_model_path(&old, &new));
    assert_eq!(plan_settings_update(&old, &new, same_model_path(&old, &new)), SettingsUpdatePlan { reapply_hotkey: false, reload_model: false });
    new.hotkey = "F9".to_string();
    new.model_path = "models/b.bin".to_string();
    assert!(!same_model_path(&old, &new));
    assert_eq!(plan_settings_update(&old, &new, same_model_path(&old, &new)), SettingsUpdatePlan { reapply_hotkey: true, reload_model: true });
    assert!(!plan_settings_update(&old, &new, true).reload_model);
    new.model_path = "models//a.bin".to_string();
    assert!(same_model_path(&old, &new));
    assert!(!plan_settings_update(&old, &new, same_model_path(&old, &new)).reload_model);
    new.model_path = "models/./a.bin".to_string();
    assert!(same_model_path(&old, &new));
    new.model_path = "./models/a.bin".to_string();
    assert!(!same_model_path(&old, &new));
    new.model_path = "/models/a.bin".to_string();
    assert!(!same_model_path(&old, &new));
    new.model_path = "models/../models/a.bin".to_string();
    assert!(!same_model_path(&old, &new));
    new.model_path = "models/a.bin".to_string();
    assert_eq!(settings_update_plan(&old, &new), SettingsUpdatePlan { reapply_hotkey: true, reload_model: false });
    new.model_path = "models/b.bin".to_string();
    let plan = settings_update_plan(&old, &new);
    assert_eq!(plan, SettingsUpdatePlan { reapply_hotkey: true, reload_model: true });
    assert_eq!(
        settings_update_steps(plan),
        vec![UpdateStep::StoreAndSave, UpdateStep::ApplyHotkey, UpdateStep::ReloadModel]
    );
    assert_eq!(
        settings_update_steps(SettingsUpdatePlan { reapply_hotkey: false, reload_model: true }),
        vec![UpdateStep::StoreAndSave, UpdateStep::ReloadModel]
    );
    assert_eq!(
        settings_update_steps(SettingsUpdatePlan { reapply_hotkey: false, reload_model: false }),
        vec![UpdateStep::StoreAndSave]
    );
    assert_eq!(
        update_step_error(UpdateStep::StoreAndSave, "disk full".to_string()),
        "save_settings: disk full"
    );
    assert_eq!(
        update_step_error(UpdateStep::ApplyHotkey, "taken".to_string()),
        "apply_hotkey: taken"
    );
    assert_eq!(command_error("save_settings", "denied".to_string()), "save_settings: denied");
}

#[test]
fn cleanup_selects_old_wav_files() {
    let now = Timestamp { secs: 1_000_000, nanos: 500 };
    let cutoff = cleanup_cutoff(now, 7).expect("in range");
    assert_eq!(cutoff, Timestamp { secs: 1_000_000 - 7 * 86_400, nanos: 500 });
    assert_eq!(cleanup_cutoff(Timestamp { secs: i64::MIN + 10, nanos: 0 }, 1), None);
    let old = Some(Timestamp { secs: cutoff.secs - 1, nanos: 999 });
    let fresh = Some(Timestamp { secs: cutoff.secs, nanos: 500 });
    let files = vec![
        RecordingFile { extension: Some("wav".to_string()), modified: old },
        RecordingFile { extension: Some("WAV".to_string()), modified: fresh },
        RecordingFile { extension: Some("txt".to_string()), modified: old },
        RecordingFile { extension: None, modified: old },
        RecordingFile { extension: Some("Wav".to_string()), modified: None },
        RecordingFile { extension: Some("wAv".to_string()), modified: Some(Timestamp { secs: cutoff.secs, nanos: 499 }) },
    ];
    assert_eq!(stale_recordings(&files, cutoff), vec![0, 5]);
    assert!(is_wav(&Some("WaV".to_string())));
    assert!(!is_wav(&Some("wave".to_string())));
    assert_eq!(cleanup_report(0), None);
    assert_eq!(cleanup_report(3), Some("[director-general] cleaned up 3 old recording(s)".to_string()));
}
