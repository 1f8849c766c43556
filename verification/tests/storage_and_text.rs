use director_general::hotkey::{
    compact_stamp, current_timestamp, model_file_stem, model_name, model_name_of_path,
    new_history_id, record_entry, record_transcription, recording_file_name_at,
    recording_file_name_for, timestamp_from_unix, uuid_v4_text_from_bytes,
};
use director_general::storage::{
    append_pruned, default_common_words, default_max_history, default_show_overlay,
    fallback_model_path, find_entry_text, first_existing, model_search_order,
    remove_entries_with_id, HistoryEntry, Settings, Timestamp,
};
use director_general::text::{
    decimal_text, same_text, same_text_ignore_ascii_case, sorted_unique, strip, text_less, trim,
    Strip,
};

fn entry(id: &str, text: &str) -> HistoryEntry {
    HistoryEntry {
        id: id.to_string(),
        timestamp: Timestamp { secs: 1_700_000_000, nanos: 5 },
        text: text.to_string(),
        audio_path: format!("/tmp/{id}.wav"),
        model: "ggml-large-v3-turbo".to_string(),
        duration_ms: 1200,
        window_title: None,
    }
}

fn ids(h: &[HistoryEntry]) -> Vec<&str> {
    h.iter().map(|e| e.id.as_str()).collect()
}

#[test]
fn defaults_match_the_settings_file_defaults() {
    assert_eq!(default_max_history(), 200);
    assert_eq!(default_common_words(), "");
    assert!(default_show_overlay());
    let s = Settings::default_with_model_path("m.bin".to_string());
    assert_eq!(s.hotkey, "CapsLock");
    assert_eq!(s.model_path, "m.bin");
    assert_eq!(s.language, None);
    assert!(s.auto_paste);
    assert_eq!(s.max_history, 200);
    assert_eq!(s.input_device, None);
    assert_eq!(s.common_words, "");
    assert!(s.show_overlay);
}

#[test]
fn append_prunes_the_oldest_entries() {
    let mut h = vec![entry("a", "1"), entry("b", "2"), entry("c", "3")];
    append_pruned(&mut h, entry("d", "4"), 3);
    assert_eq!(ids(&h), vec!["b", "c", "d"]);
    append_pruned(&mut h, entry("e", "5"), 10);
    assert_eq!(ids(&h), vec!["b", "c", "d", "e"]);
    append_pruned(&mut h, entry("f", "6"), 1);
    assert_eq!(ids(&h), vec!["f"]);
    append_pruned(&mut h, entry("g", "7"), 0);
    assert!(h.is_empty());
}

#[test]
fn lookup_after_append_gives_back_the_text() {
    let mut h = vec![entry("a", "first"), entry("b", "second")];
    append_pruned(&mut h, entry("c", "third"), 2);
    assert_eq!(find_entry_text(&h, "c"), Ok("third".to_string()));
    assert_eq!(find_entry_text(&h, "a"), Err("history entry not found".to_string()));
}

#[test]
fn lookup_takes_the_first_match() {
    let h = vec![entry("x", "one"), entry("x", "two")];
    assert_eq!(find_entry_text(&h, "x"), Ok("one".to_string()));
    assert_eq!(find_entry_text(&Vec::new(), "x"), Err("history entry not found".to_string()));
}

#[test]
fn delete_removes_every_entry_with_the_id() {
    let mut h = vec![entry("a", "1"), entry("b", "2"), entry("a", "3"), entry("c", "4")];
    remove_entries_with_id(&mut h, "a");
    assert_eq!(ids(&h), vec!["b", "c"]);
    remove_entries_with_id(&mut h, "a");
    assert_eq!(ids(&h), vec!["b", "c"]);
    remove_entries_with_id(&mut h, "zzz");
    assert_eq!(ids(&h), vec!["b", "c"]);
    assert_eq!(find_entry_text(&h, "a"), Err("history entry not found".to_string()));
}

#[test]
fn record_transcription_fills_the_entry() {
    let mut h = vec![entry("old", "x")];
    let mut title = Some("Document - Word".to_string());
    record_transcription(
        &mut h,
        &mut title,
        "hello world".to_string(),
        "/data/tmp/rec_1.wav".to_string(),
        model_name_of_path("models/ggml-large-v3-turbo.bin"),
        4321,
        5,
    )
    .expect("clock and random source work here");
    assert_eq!(title, None);
    assert_eq!(h.len(), 2);
    let e = &h[1];
    assert_eq!(e.text, "hello world");
    assert_eq!(e.audio_path, "/data/tmp/rec_1.wav");
    assert_eq!(e.model, "ggml-large-v3-turbo");
    assert_eq!(e.duration_ms, 4321);
    assert_eq!(e.window_title, Some("Document - Word".to_string()));
    assert_eq!(e.id.len(), 36);
    let chars: Vec<char> = e.id.chars().collect();
    for (i, c) in chars.iter().enumerate() {
        if [8, 13, 18, 23].contains(&i) {
            assert_eq!(*c, '-');
        } else {
            assert!(c.is_ascii_hexdigit() && !c.is_ascii_uppercase());
        }
    }
    assert_eq!(chars[14], '4');
    assert!(e.timestamp.secs > 1_600_000_000);
    assert_ne!(h[1].id, h[0].id);
}

#[test]
fn record_transcription_respects_max_history() {
    let mut h = vec![entry("a", "1"), entry("b", "2")];
    let mut title = None;
    record_transcription(&mut h, &mut title, "t".to_string(), "p".to_string(), "m".to_string(), 1, 2)
        .expect("clock and random source work here");
    assert_eq!(h.len(), 2);
    assert_eq!(h[0].id, "b");
    assert_eq!(h[1].text, "t");
    assert_eq!(h[1].window_title, None);
}

#[test]
fn model_name_is_the_file_stem() {
    assert_eq!(model_name_of_path("models/ggml-large-v3.bin"), "ggml-large-v3");
    assert_eq!(model_name_of_path("ggml-large-v3-turbo.bin"), "ggml-large-v3-turbo");
    assert_eq!(model_name_of_path("../models/.hidden"), ".hidden");
    assert_eq!(model_name_of_path("a/..b.c"), "..b");
    assert_eq!(model_name_of_path(""), "unknown");
    assert_eq!(model_file_stem("/"), None);
    assert_eq!(model_name(Some("x".to_string())), "x");
    assert_eq!(model_name(None), "unknown");
}

#[test]
fn model_search_order_visits_every_base_and_file() {
    let order = model_search_order(true);
    assert_eq!(order.len(), 16);
    assert_eq!(order[0].0.relative, "../models");
    assert!(!order[0].0.from_exe_dir);
    assert_eq!(order[0].1, "ggml-large-v3-turbo.bin");
    assert_eq!(order[1].1, "ggml-large-v3.bin");
    assert_eq!(order[7].0.relative, "../../../models");
    assert_eq!(order[8].0.relative, "../../../models");
    assert!(order[8].0.from_exe_dir);
    assert_eq!(order[15].0.relative, "models");
    assert_eq!(model_search_order(false).len(), 8);
    assert_eq!(first_existing(&vec![false, false, true, true]), Some(2));
    assert_eq!(first_existing(&vec![false, false]), None);
    assert_eq!(fallback_model_path(), "../models/ggml-large-v3-turbo.bin");
}

#[test]
fn white_space_matches_std_for_every_char() {
    for u in 0..=0x10ffffu32 {
        if let Some(c) = char::from_u32(u) {
            assert_eq!(director_general::text::char_is_whitespace(c), c.is_whitespace(), "U+{u:04X}");
        }
    }
}

#[test]
fn trim_removes_unicode_white_space() {
    assert_eq!(trim("  hello world \n"), "hello world");
    assert_eq!(trim("\u{3000}x\u{2009}"), "x");
    assert_eq!(trim(" \t\r\n"), "");
    assert_eq!(trim(""), "");
    assert_eq!(trim("a"), "a");
    assert_eq!(trim(trim("  a b  ")), "a b");
}

#[test]
fn strip_char_removes_quotes_only_at_the_ends() {
    assert_eq!(strip("\"recording\"", Strip::Char('"')), "recording");
    assert_eq!(strip("\"\"a\"b\"\"", Strip::Char('"')), "a\"b");
    assert_eq!(strip("idle", Strip::Char('"')), "idle");
}

#[test]
fn text_order_is_code_point_order() {
    assert!(text_less("apple", "banana"));
    assert!(!text_less("banana", "apple"));
    assert!(text_less("app", "apple"));
    assert!(!text_less("same", "same"));
    assert!(text_less("Zed", "alpha"));
    assert!(text_less("z", "\u{e9}"));
    assert!(same_text("Mic", "Mic"));
    assert!(!same_text("Mic", "mic"));
}

#[test]
fn sorted_unique_sorts_and_removes_duplicates() {
    let names = vec![
        "Microphone (USB)".to_string(),
        "Headset".to_string(),
        "Microphone (USB)".to_string(),
        "Headset".to_string(),
        "Array".to_string(),
    ];
    let out = sorted_unique(&names);
    assert_eq!(out, vec!["Array", "Headset", "Microphone (USB)"]);
    let mut expected = names.clone();
    expected.sort();
    expected.dedup();
    assert_eq!(out, expected);
    assert_eq!(sorted_unique(&out), out);
    assert!(sorted_unique(&Vec::new()).is_empty());
}

#[test]
fn sorted_unique_agrees_with_std_on_unicode_names() {
    let names: Vec<String> = ["Zeta", "\u{e9}cho", "eco", "Echo", "\u{1f3a4} mic", "eco", "A"]
        .iter()
        .map(|s| s.to_string())
        .collect();
    let mut expected = names.clone();
    expected.sort();
    expected.dedup();
    assert_eq!(sorted_unique(&names), expected);
}

#[test]
fn ascii_case_insensitive_comparison() {
    assert!(same_text_ignore_ascii_case("WAV", "wav"));
    assert!(same_text_ignore_ascii_case("wAv", "WaV"));
    assert!(!same_text_ignore_ascii_case("wave", "wav"));
    assert!(!same_text_ignore_ascii_case("\u{c9}", "\u{e9}"));
}

#[test]
fn decimal_rendering() {
    assert_eq!(decimal_text(0), "0");
    assert_eq!(decimal_text(7), "7");
    assert_eq!(decimal_text(24), "24");
    assert_eq!(decimal_text(1000), "1000");
    assert_eq!(decimal_text(u64::MAX), u64::MAX.to_string());
}

#[test]
fn uuid_text_from_bytes_sets_version_and_variant() {
    let bytes: [u8; 16] = [
        0x00, 0x11, 0x22, 0x33, 0x44, 0x55, 0x66, 0x77, 0x88, 0x99, 0xaa, 0xbb, 0xcc, 0xdd, 0xee,
        0xff,
    ];
    assert_eq!(uuid_v4_text_from_bytes(bytes), "00112233-4455-4677-8899-aabbccddeeff");
    assert_eq!(uuid_v4_text_from_bytes([0xff; 16]), "ffffffff-ffff-4fff-bfff-ffffffffffff");
    assert_eq!(uuid_v4_text_from_bytes([0; 16]), "00000000-0000-4000-8000-000000000000");
}

#[test]
fn fresh_history_ids_differ() {
    let a = new_history_id().expect("random source");
    let b = new_history_id().expect("random source");
    assert_eq!(a.len(), 36);
    assert_ne!(a, b);
}

#[test]
fn compact_stamp_formats_utc() {
    assert_eq!(
        compact_stamp(Timestamp { secs: 0, nanos: 0 }),
        Some("19700101-000000".to_string())
    );
    assert_eq!(
        compact_stamp(Timestamp { secs: 1_700_000_000, nanos: 999_999_999 }),
        Some("20231114-221320".to_string())
    );
    assert_eq!(
        compact_stamp(Timestamp { secs: -1, nanos: 0 }),
        Some("19691231-235959".to_string())
    );
    assert_eq!(compact_stamp(Timestamp { secs: i64::MAX, nanos: 0 }), None);
    assert_eq!(recording_file_name_for("20231114-221320"), "rec_20231114-221320.wav");
}

#[test]
fn current_timestamp_is_after_the_epoch() {
    let t = current_timestamp().expect("the clock is set");
    assert!(t.secs > 1_600_000_000);
    assert!(t.nanos < 1_000_000_000);
}

#[test]
fn clock_readings_become_timestamps() {
    assert_eq!(
        timestamp_from_unix(1_700_000_000, 5),
        Some(Timestamp { secs: 1_700_000_000, nanos: 5 })
    );
    assert_eq!(
        timestamp_from_unix(i64::MAX as u64, 0),
        Some(Timestamp { secs: i64::MAX, nanos: 0 })
    );
    assert_eq!(timestamp_from_unix(i64::MAX as u64 + 1, 0), None);
    assert_eq!(timestamp_from_unix(u64::MAX, 0), None);
}

#[test]
fn recording_file_names_follow_the_time() {
    assert_eq!(
        recording_file_name_at(Timestamp { secs: 1_700_000_000, nanos: 0 }),
        Some("rec_20231114-221320.wav".to_string())
    );
    assert_eq!(
        recording_file_name_at(Timestamp { secs: 0, nanos: 0 }),
        Some("rec_19700101-000000.wav".to_string())
    );
    assert_eq!(recording_file_name_at(Timestamp { secs: i64::MAX, nanos: 0 }), None);
}

#[test]
fn record_entry_appends_drains_and_prunes() {
    let mut h = vec![entry("a", "1"), entry("b", "2")];
    let mut title = Some("Inbox - Mail".to_string());
    let t = Timestamp { secs: 42, nanos: 7 };
    record_entry(
        &mut h,
        &mut title,
        "id-3".to_string(),
        t,
        "three".to_string(),
        "/tmp/rec_3.wav".to_string(),
        "ggml-base".to_string(),
        99,
        2,
    );
    assert_eq!(title, None);
    assert_eq!(h.len(), 2);
    assert_eq!(h[0].id, "b");
    let e = &h[1];
    assert_eq!(e.id, "id-3");
    assert_eq!(e.timestamp, t);
    assert_eq!(e.text, "three");
    assert_eq!(e.audio_path, "/tmp/rec_3.wav");
    assert_eq!(e.model, "ggml-base");
    assert_eq!(e.duration_ms, 99);
    assert_eq!(e.window_title, Some("Inbox - Mail".to_string()));
}
