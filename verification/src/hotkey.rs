//! The hotkey: how its spec is parsed and routed, and the flow that a stop
//! press sets off (stop, save, transcribe, copy, paste, record history).

use vstd::prelude::*;
use global_hotkey::hotkey::HotKey;
use crate::caps_hook::{set_target_vk, spec_vk_for_intercept, vk_for_intercept, HookState};
use crate::state::{emits, mode_name, spec_mode_name, Mode, ShellStep};
use crate::storage::{append_pruned, keep_newest, HistoryEntry, Settings, Timestamp};
use crate::text::{trim, trimmed};

verus! {

#[verifier::external_type_specification]
#[verifier::external_body]
pub struct ExHotKey(HotKey);

/// What `HotKey::from_str` builds from `spec`: the code of its key
/// (`Code as u32`) and its id (modifier bits in the upper half, key code in
/// the lower), or `None` when it refuses the spec.
pub uninterp spec fn hotkey_parse(spec: Seq<char>) -> Option<(u32, u32)>;

pub open spec fn ascii_upper(c: char) -> char {
    if 'a' <= c <= 'z' {
        ((c as u32) - 32) as char
    } else {
        c
    }
}

/// A hotkey spec that parses alike on every platform: ASCII only, and with
/// no `ORC` in any letter case, so none of the `CommandOrControl` spellings
/// (which the crate maps to Super on macOS and to Control elsewhere).
pub open spec fn portable_hotkey_spec(spec: Seq<char>) -> bool {
    &&& forall|i: int| 0 <= i < spec.len() ==> (#[trigger] spec[i] as u32) < 128
    &&& !exists|i: int|
        0 <= i && i + 3 <= spec.len() && ascii_upper(#[trigger] spec[i]) == 'O' && ascii_upper(
            spec[i + 1],
        ) == 'R' && ascii_upper(spec[i + 2]) == 'C'
}

/// Calls `HotKey::from_str` (global-hotkey) and reads the parsed hotkey's
/// key code and id. Claimed: it succeeds exactly when `hotkey_parse` gives a
/// result; the key code is that result's; and for a portable spec the id is
/// too. The id of other specs is left unsaid: their modifiers differ on
/// macOS. On failure the error's debug text comes back, of which nothing is
/// claimed.
#[verifier::external_body]
fn hotkey_from_str(spec: &str) -> (res: Result<(HotKey, u32, u32), String>)
    ensures
        res matches Ok(p) ==> (hotkey_parse(spec@) matches Some(r) && r.0 == p.1),
        res matches Ok(p) ==> (portable_hotkey_spec(spec@) ==> hotkey_parse(spec@) == Some((p.1, p.2))),
        res is Err ==> hotkey_parse(spec@) is None,
{
    match spec.parse::<HotKey>() {
        Ok(h) => Ok((h, h.key as u32, h.id())),
        Err(e) => Err(format!("{e:?}")),
    }
}

/// A parsed hotkey with the code of its key and its id.
pub struct Shortcut {
    pub hotkey: HotKey,
    pub key_code: u32,
    pub id: u32,
}

/// The prefix of the error for a hotkey spec that does not parse.
pub open spec fn invalid_hotkey_prefix(spec: Seq<char>) -> Seq<char> {
    "invalid hotkey '"@ + spec + "': "@
}

/// Parses a hotkey spec such as `Ctrl+Space`; a spec that does not parse
/// gives `invalid hotkey '<spec>': <reason>`.
pub fn parse_shortcut(spec: &str) -> (res: Result<Shortcut, String>)
    ensures
        res matches Ok(s) ==> (hotkey_parse(spec@) matches Some(r) && r.0 == s.key_code),
        res matches Ok(s) ==> (portable_hotkey_spec(spec@) ==> hotkey_parse(spec@) == Some((s.key_code, s.id))),
        res matches Err(e) ==> hotkey_parse(spec@) is None && e@.len() >= invalid_hotkey_prefix(
            spec@,
        ).len() && e@.subrange(0, invalid_hotkey_prefix(spec@).len() as int)
            == invalid_hotkey_prefix(spec@),
{
    match hotkey_from_str(spec) {
        Ok((hotkey, key_code, id)) => Ok(Shortcut { hotkey, key_code, id }),
        Err(reason) => {
            let mut msg = "invalid hotkey '".to_owned();
            msg.append(spec);
            msg.append("': ");
            let ghost prefix = msg@;
            msg.append(reason.as_str());
            assert(msg@.subrange(0, prefix.len() as int) =~= prefix);
            Err(msg)
        },
    }
}

/// How a hotkey is listened for.
#[derive(Debug, Clone, Copy, PartialEq, Eq, Structural)]
pub enum HotkeyRoute {
    /// Intercepted by the low-level keyboard hook, which swallows the key.
    LowLevelHook(u32),
    /// Registered as a global shortcut.
    GlobalShortcut,
}

pub open spec fn spec_hotkey_route(spec: Seq<char>) -> HotkeyRoute {
    match spec_vk_for_intercept(spec) {
        Some(vk) => HotkeyRoute::LowLevelHook(vk),
        None => HotkeyRoute::GlobalShortcut,
    }
}

/// Chooses the path for a hotkey spec and points the keyboard hook at it:
/// Caps Lock goes through the hook (the caller then unregisters every global
/// shortcut); anything else clears the hook's target and is registered as a
/// global shortcut.
pub fn apply_hotkey(hook: &mut Option<HookState>, spec: &str) -> (route: HotkeyRoute)
    ensures
        route == spec_hotkey_route(spec@),
        *old(hook) is Some ==> *final(hook) == Some(HookState { target_vk: spec_vk_for_intercept(spec@) }),
        *old(hook) is None ==> *final(hook) is None,
{
    match vk_for_intercept(spec) {
        Some(vk) => {
            set_target_vk(hook, Some(vk));
            HotkeyRoute::LowLevelHook(vk)
        },
        None => {
            set_target_vk(hook, None);
            HotkeyRoute::GlobalShortcut
        },
    }
}

/// After a hotkey is applied to an installed hook, the hook swallows a key
/// exactly when the spec names that key for interception.
pub proof fn law_hook_follows_applied_hotkey(spec: Seq<char>, vk: u32)
    ensures
        crate::caps_hook::spec_key_verdict(
            Some(HookState { target_vk: spec_vk_for_intercept(spec) }),
            crate::caps_hook::HC_ACTION,
            vk,
            crate::caps_hook::WM_KEYDOWN,
        ) != crate::caps_hook::KeyVerdict::PassThrough <==> spec_vk_for_intercept(spec) == Some(
            vk,
        ),
        spec_hotkey_route(spec) is GlobalShortcut <==> spec_vk_for_intercept(spec) is None,
{
}

/// The initial prompt for the model: the common words as written, or none
/// when they are blank.
pub open spec fn spec_prompt_from_common_words(common_words: Seq<char>) -> Option<Seq<char>> {
    if trimmed(common_words).len() == 0 {
        None
    } else {
        Some(common_words)
    }
}

pub open spec fn opt_view(o: Option<String>) -> Option<Seq<char>> {
    match o {
        Some(s) => Some(s@),
        None => None,
    }
}

/// The initial prompt built from the common-words setting.
pub fn prompt_from_common_words(common_words: &String) -> (res: Option<String>)
    ensures
        opt_view(res) == spec_prompt_from_common_words(common_words@),
{
    if trim(common_words.as_str()).unicode_len() == 0 {
        None
    } else {
        Some(common_words.clone())
    }
}

pub open spec fn is_ascii_digit(c: char) -> bool {
    '0' <= c <= '9'
}

/// The shape of a UTC time formatted with `%Y%m%d-%H%M%S`: the year (four
/// zero-padded digits, or a sign and at least four digits outside
/// 0000..=9999), two digits each for month and day, a hyphen, and two
/// digits each for hours, minutes and seconds.
pub open spec fn compact_utc_stamp(s: Seq<char>) -> bool {
    &&& s.len() >= 15
    &&& s[s.len() - 7] == '-'
    &&& forall|i: int| s.len() - 11 <= i < s.len() && i != s.len() - 7 ==> is_ascii_digit(#[trigger] s[i])
    &&& forall|i: int| 0 < i < s.len() - 11 ==> is_ascii_digit(#[trigger] s[i])
    &&& is_ascii_digit(s[0]) || s[0] == '+' || s[0] == '-'
    &&& s.len() == 15 ==> is_ascii_digit(s[0])
}

/// Reads the system clock (`SystemTime::now`) and measures it from the Unix
/// epoch (`duration_since(UNIX_EPOCH)`), handing back the whole seconds and
/// the nanoseconds beyond them (`as_secs`, `subsec_nanos`), or `None` when
/// the clock stands before the epoch. Claimed, as std documents
/// `subsec_nanos`: the nanoseconds stay below one second's worth. Which time
/// is read is not claimed.
#[verifier::external_body]
fn unix_time_now() -> (res: Option<(u64, u32)>)
    ensures
        res matches Some(t) ==> t.1 < 1_000_000_000,
{
    match std::time::SystemTime::now().duration_since(std::time::UNIX_EPOCH) {
        Ok(d) => Some((d.as_secs(), d.subsec_nanos())),
        Err(_) => None,
    }
}

/// The timestamp of a clock reading `secs` seconds and `nanos` nanoseconds
/// after the Unix epoch, or `None` when the seconds do not fit an `i64`.
pub fn timestamp_from_unix(secs: u64, nanos: u32) -> (res: Option<Timestamp>)
    ensures
        secs <= i64::MAX ==> res == Some(Timestamp { secs: secs as i64, nanos }),
        secs > i64::MAX ==> res is None,
{
    if secs <= 0x7fff_ffff_ffff_ffff {
        Some(Timestamp { secs: secs as i64, nanos })
    } else {
        None
    }
}

/// The current time as a Unix timestamp, or `None` when the clock stands
/// before the epoch or beyond what an `i64` of seconds holds.
pub fn current_timestamp() -> (res: Option<Timestamp>)
    ensures
        res matches Some(t) ==> t.secs >= 0 && t.nanos < 1_000_000_000,
{
    match unix_time_now() {
        Some((secs, nanos)) => timestamp_from_unix(secs, nanos),
        None => None,
    }
}

/// What chrono gives for the UTC time `secs` seconds and `nanos`
/// nanoseconds after the Unix epoch (`DateTime::<Utc>::from_timestamp`)
/// formatted with `fmt`: the text, or `None` when chrono refuses the time.
pub uninterp spec fn utc_formatted(secs: i64, nanos: u32, fmt: Seq<char>) -> Option<Seq<char>>;

/// Calls `chrono::DateTime::<Utc>::from_timestamp(secs, nanos)` and formats
/// the time with `fmt`. Claimed: the result is `utc_formatted`; chrono gives
/// a time for every nanosecond count below one second and every second count
/// within 8 * 10^12 of the epoch (its dates reach about 262,000 years either
/// side of year 0); and, as chrono's `%Y`, `%m`, `%d`, `%H`, `%M` and `%S`
/// write them (zero-padded, the year signed only outside 0000..=9999), the
/// text has the shape `compact_utc_stamp`.
#[verifier::external_body]
fn utc_format(secs: i64, nanos: u32, fmt: &str) -> (res: Option<String>)
    requires
        fmt@ == "%Y%m%d-%H%M%S"@,
    ensures
        opt_view(res) == utc_formatted(secs, nanos, fmt@),
        (nanos < 1_000_000_000 && -8_000_000_000_000 <= secs <= 8_000_000_000_000) ==> res is Some,
        res matches Some(s) ==> compact_utc_stamp(s@),
{
    match chrono::DateTime::from_timestamp(secs, nanos) {
        Some(d) => Some(d.format(fmt).to_string()),
        None => None,
    }
}

/// The compact UTC stamp `YYYYMMDD-HHMMSS` of a timestamp, as chrono
/// formats it, or `None` when chrono refuses the time.
pub fn compact_stamp(t: Timestamp) -> (res: Option<String>)
    ensures
        opt_view(res) == utc_formatted(t.secs, t.nanos, "%Y%m%d-%H%M%S"@),
        (t.nanos < 1_000_000_000 && -8_000_000_000_000 <= t.secs <= 8_000_000_000_000) ==> res is Some,
        res matches Some(s) ==> compact_utc_stamp(s@),
{
    utc_format(t.secs, t.nanos, "%Y%m%d-%H%M%S")
}

/// The name of the WAV file a recording is saved under, for the timestamp
/// text `stamp`.
pub open spec fn recording_file_name(stamp: Seq<char>) -> Seq<char> {
    "rec_"@ + stamp + ".wav"@
}

/// The file name `rec_<stamp>.wav`.
pub fn recording_file_name_for(stamp: &str) -> (res: String)
    ensures
        res@ == recording_file_name(stamp@),
{
    let mut name = "rec_".to_owned();
    name.append(stamp);
    name.append(".wav");
    name
}

/// The file name for a recording made at `t`, if chrono gives a stamp for it.
pub open spec fn spec_file_name_at(t: Timestamp) -> Option<Seq<char>> {
    match utc_formatted(t.secs, t.nanos, "%Y%m%d-%H%M%S"@) {
        Some(stamp) => Some(recording_file_name(stamp)),
        None => None,
    }
}

/// The file name `rec_<YYYYMMDD-HHMMSS>.wav` for a recording made at `t`,
/// or `None` when chrono refuses the time.
pub fn recording_file_name_at(t: Timestamp) -> (res: Option<String>)
    ensures
        opt_view(res) == spec_file_name_at(t),
        (t.nanos < 1_000_000_000 && -8_000_000_000_000 <= t.secs <= 8_000_000_000_000) ==> res is Some,
        res matches Some(n) ==> exists|stamp: Seq<char>|
            compact_utc_stamp(stamp) && n@ == #[trigger] recording_file_name(stamp),
{
    match compact_stamp(t) {
        Some(stamp) => {
            let name = recording_file_name_for(stamp.as_str());
            assert(name@ == recording_file_name(stamp@));
            Some(name)
        },
        None => None,
    }
}

/// Recordings made at times whose stamps differ are saved under different
/// file names: the name determines the stamp it was made from.
pub proof fn law_file_name_determines_stamp(a: Seq<char>, b: Seq<char>)
    requires
        a != b,
    ensures
        recording_file_name(a) != recording_file_name(b),
{
    reveal_strlit("rec_");
    reveal_strlit(".wav");
    if recording_file_name(a) == recording_file_name(b) {
        assert("rec_"@.len() == 4 && ".wav"@.len() == 4);
        assert(recording_file_name(a).len() == a.len() + 8);
        assert(recording_file_name(b).len() == b.len() + 8);
        assert(a.len() == b.len());
        assert(recording_file_name(a).subrange(4, 4 + a.len() as int) =~= a);
        assert(recording_file_name(b).subrange(4, 4 + b.len() as int) =~= b);
    }
}

/// A fresh file name `rec_<YYYYMMDD-HHMMSS>.wav` from the current UTC time,
/// or `None` when the clock cannot be read as a time (it stands before the
/// Unix epoch, or beyond chrono's range).
pub fn new_recording_file_name() -> (res: Option<String>)
    ensures
        res matches Some(n) ==> exists|stamp: Seq<char>|
            compact_utc_stamp(stamp) && n@ == #[trigger] recording_file_name(stamp),
{
    match current_timestamp() {
        Some(now) => recording_file_name_at(now),
        None => None,
    }
}

/// The error that ends the flow when the clock cannot be read as a time.
pub open spec fn clock_error() -> Seq<char> {
    "system time out of range"@
}

/// The lowercase hex digit of `n` (below 16).
pub open spec fn hex_digit(n: int) -> char {
    if n < 10 {
        (48 + n) as char
    } else {
        (87 + n) as char
    }
}

/// The byte `b` as two lowercase hex digits, high nibble first.
pub open spec fn hex_byte(b: u8) -> Seq<char> {
    seq![hex_digit(b as int / 16), hex_digit(b as int % 16)]
}

/// The bytes of `b` from index `i` on in lowercase hex, with a hyphen
/// before bytes 4, 6, 8 and 10.
pub open spec fn hyphenated_hex_from(b: Seq<u8>, i: nat) -> Seq<char>
    decreases b.len() - i,
{
    if i >= b.len() {
        Seq::empty()
    } else {
        let sep: Seq<char> = if i == 4 || i == 6 || i == 8 || i == 10 {
            seq!['-']
        } else {
            Seq::empty()
        };
        sep + hex_byte(b[i as int]) + hyphenated_hex_from(b, i + 1)
    }
}

/// The bytes of a random (version 4) UUID made from `b`: the high nibble of
/// byte 6 set to 4, the version, and the top two bits of byte 8 set to
/// `10`, the variant.
pub open spec fn v4_bytes(b: Seq<u8>) -> Seq<u8> {
    b.update(6, (b[6] & 0x0f) | 0x40).update(8, (b[8] & 0x3f) | 0x80)
}

/// The text of the random UUID made from the 16 bytes `b`.
pub open spec fn uuid_v4_text_of(b: Seq<u8>) -> Seq<char> {
    hyphenated_hex_from(v4_bytes(b), 0)
}

proof fn lemma_hex_digit_injective(m: int, n: int)
    requires
        0 <= m < 16,
        0 <= n < 16,
        hex_digit(m) == hex_digit(n),
    ensures
        m == n,
{
    assert(hex_digit(m) as int == (if m < 10 { 48 + m } else { 87 + m }));
    assert(hex_digit(n) as int == (if n < 10 { 48 + n } else { 87 + n }));
}

proof fn lemma_hex_byte_injective(x: u8, y: u8)
    requires
        hex_byte(x) == hex_byte(y),
    ensures
        x == y,
{
    assert(hex_byte(x)[0] == hex_byte(y)[0]);
    assert(hex_byte(x)[1] == hex_byte(y)[1]);
    lemma_hex_digit_injective(x as int / 16, y as int / 16);
    lemma_hex_digit_injective(x as int % 16, y as int % 16);
}

proof fn lemma_hyphenated_hex_injective(a: Seq<u8>, b: Seq<u8>, i: nat)
    requires
        a.len() == b.len(),
        i <= a.len(),
        hyphenated_hex_from(a, i) == hyphenated_hex_from(b, i),
    ensures
        a.subrange(i as int, a.len() as int) == b.subrange(i as int, b.len() as int),
    decreases a.len() - i,
{
    if i < a.len() {
        let sep: Seq<char> = if i == 4 || i == 6 || i == 8 || i == 10 {
            seq!['-']
        } else {
            Seq::empty()
        };
        let ha = sep + hex_byte(a[i as int]) + hyphenated_hex_from(a, i + 1);
        let hb = sep + hex_byte(b[i as int]) + hyphenated_hex_from(b, i + 1);
        assert(ha == hb);
        let k = sep.len() as int;
        assert(ha.subrange(k, k + 2) =~= hex_byte(a[i as int]));
        assert(hb.subrange(k, k + 2) =~= hex_byte(b[i as int]));
        lemma_hex_byte_injective(a[i as int], b[i as int]);
        assert(ha.subrange(k + 2, ha.len() as int) =~= hyphenated_hex_from(a, i + 1));
        assert(hb.subrange(k + 2, hb.len() as int) =~= hyphenated_hex_from(b, i + 1));
        lemma_hyphenated_hex_injective(a, b, i + 1);
        assert(a.subrange(i as int, a.len() as int) =~= seq![a[i as int]] + a.subrange(i + 1int, a.len() as int));
        assert(b.subrange(i as int, b.len() as int) =~= seq![b[i as int]] + b.subrange(i + 1int, b.len() as int));
    } else {
        assert(a.subrange(i as int, a.len() as int) =~= b.subrange(i as int, b.len() as int));
    }
}

/// The text of a random UUID determines the UUID: two draws of 16 bytes
/// whose UUIDs differ (they differ anywhere but in the version and variant
/// bits) get different ids.
pub proof fn law_uuid_text_determines_uuid(a: Seq<u8>, b: Seq<u8>)
    requires
        a.len() == 16,
        b.len() == 16,
        v4_bytes(a) != v4_bytes(b),
    ensures
        uuid_v4_text_of(a) != uuid_v4_text_of(b),
{
    if uuid_v4_text_of(a) == uuid_v4_text_of(b) {
        lemma_hyphenated_hex_injective(v4_bytes(a), v4_bytes(b), 0);
        assert(v4_bytes(a).subrange(0, 16) =~= v4_bytes(a));
        assert(v4_bytes(b).subrange(0, 16) =~= v4_bytes(b));
    }
}

/// Fills 16 bytes from the operating system's random source
/// (`getrandom::fill`), or gives `None` when that fails. Nothing is claimed
/// of the bytes.
#[verifier::external_body]
fn random_bytes() -> (res: Option<[u8; 16]>)
{
    let mut bytes = [0u8; 16];
    match getrandom::fill(&mut bytes) {
        Ok(()) => Some(bytes),
        Err(_) => None,
    }
}

/// Calls `uuid::Builder::from_random_bytes(bytes).into_uuid()` and renders
/// the UUID with `to_string`. Claimed, as the crate's source shows (it sets
/// the version and variant bits, then writes the bytes in order as
/// hyphenated lowercase hex): the text is `uuid_v4_text_of(bytes)`.
#[verifier::external_body]
fn uuid_from_random_bytes(bytes: [u8; 16]) -> (res: String)
    ensures
        res@ == uuid_v4_text_of(bytes@),
{
    uuid::Builder::from_random_bytes(bytes).into_uuid().to_string()
}

/// The text of the random (version 4) UUID made from `bytes`.
pub fn uuid_v4_text_from_bytes(bytes: [u8; 16]) -> (res: String)
    ensures
        res@ == uuid_v4_text_of(bytes@),
{
    uuid_from_random_bytes(bytes)
}

/// A fresh random UUID's text, or `None` when the random source fails.
pub fn new_history_id() -> (res: Option<String>)
    ensures
        res matches Some(id) ==> exists|b: Seq<u8>| b.len() == 16 && id@ == #[trigger] uuid_v4_text_of(b),
{
    match random_bytes() {
        Some(bytes) => {
            let id = uuid_from_random_bytes(bytes);
            assert(bytes@.len() == 16);
            Some(id)
        },
        None => None,
    }
}

/// Whether `stem` can be the file stem of `path`: a non-empty, contiguous
/// part of the path text that holds no `/` (a separator on every platform).
pub open spec fn stem_of(stem: Seq<char>, path: Seq<char>) -> bool {
    &&& stem.len() > 0
    &&& forall|k: int| 0 <= k < stem.len() ==> #[trigger] stem[k] != '/'
    &&& exists|i: int| 0 <= i && i + stem.len() <= path.len() && #[trigger] path.subrange(i, i + stem.len()) == stem
}

/// The text after the last `c` in `s` (all of `s` when there is none).
pub open spec fn after_last(s: Seq<char>, c: char) -> Seq<char>
    decreases s.len(),
{
    if s.len() == 0 {
        s
    } else if s.last() == c {
        Seq::empty()
    } else {
        after_last(s.drop_last(), c).push(s.last())
    }
}

/// The text before the last `c` in `s`, if `s` holds one.
pub open spec fn before_last(s: Seq<char>, c: char) -> Option<Seq<char>>
    decreases s.len(),
{
    if s.len() == 0 {
        None
    } else if s.last() == c {
        Some(s.drop_last())
    } else {
        before_last(s.drop_last(), c)
    }
}

pub open spec fn is_ascii_alphanumeric(c: char) -> bool {
    ('0' <= c <= '9') || ('a' <= c <= 'z') || ('A' <= c <= 'Z')
}

/// A path text that every platform parses alike: not empty, ending in an
/// ASCII letter or digit, with no `\` or `:` (so no Windows prefix or
/// separator other than `/`), and not starting with `//`.
pub open spec fn plain_path(p: Seq<char>) -> bool {
    &&& p.len() > 0
    &&& is_ascii_alphanumeric(p.last())
    &&& forall|k: int| 0 <= k < p.len() ==> #[trigger] p[k] != '\\' && p[k] != ':'
    &&& !(p.len() >= 2 && p[0] == '/' && p[1] == '/')
}

/// The file stem as `Path::file_stem` documents it, for a plain path: the
/// file name is the text after the last `/`; its stem is the part before its
/// last `.`, or the whole name when it holds no `.` or only a leading one.
pub open spec fn documented_stem(p: Seq<char>) -> Seq<char> {
    let name = after_last(p, '/');
    match before_last(name, '.') {
        Some(b) => if b.len() == 0 {
            name
        } else {
            b
        },
        None => name,
    }
}

/// Calls `Path::file_stem` and `OsStr::to_str`. Claimed, as the
/// documentation gives it on every platform: a stem is a non-empty part of
/// the file name, so it holds no `/` and is a contiguous part of the path
/// text; and for a plain path, whose last component is the text after the
/// last `/` on every platform, the stem is `documented_stem`. What other
/// paths give follows the platform's path syntax and is left unsaid.
#[verifier::external_body]
fn path_file_stem(path: &str) -> (res: Option<String>)
    ensures
        res matches Some(s) ==> stem_of(s@, path@),
        res matches Some(s) ==> (plain_path(path@) ==> s@ == documented_stem(path@)),
        res is None ==> !plain_path(path@),
{
    std::path::Path::new(path).file_stem().and_then(|s| s.to_str()).map(|s| s.to_owned())
}

/// The model name a history entry records for a model file with the stem
/// `stem`: the stem, or `unknown` when there is none.
pub open spec fn spec_model_name(stem: Option<Seq<char>>) -> Seq<char> {
    match stem {
        Some(s) => s,
        None => "unknown"@,
    }
}

/// The model name for a file stem: the stem itself, or `unknown`.
pub fn model_name(stem: Option<String>) -> (res: String)
    ensures
        res@ == spec_model_name(opt_view(stem)),
{
    match stem {
        Some(s) => s,
        None => "unknown".to_owned(),
    }
}

/// The file stem of the model path, as `Path::file_stem` gives it.
pub fn model_file_stem(model_path: &str) -> (res: Option<String>)
    ensures
        res matches Some(s) ==> stem_of(s@, model_path@),
        plain_path(model_path@) ==> (res matches Some(s) && s@ == documented_stem(model_path@)),
{
    path_file_stem(model_path)
}

/// Whether `name` is the model name recorded for `model_path`: `unknown`
/// when the path has no stem, else a stem of the path; for a plain path,
/// exactly its documented stem.
pub open spec fn model_name_of(name: Seq<char>, model_path: Seq<char>) -> bool {
    &&& exists|stem: Option<Seq<char>>|
        (stem matches Some(s) ==> stem_of(s, model_path)) && name == #[trigger] spec_model_name(stem)
    &&& plain_path(model_path) ==> name == documented_stem(model_path)
}

/// The model name recorded for a model path: its file stem, or `unknown`.
pub fn model_name_of_path(model_path: &str) -> (res: String)
    ensures
        model_name_of(res@, model_path@),
{
    let stem = model_file_stem(model_path);
    let ghost st = opt_view(stem);
    let name = model_name(stem);
    assert(name@ == spec_model_name(st));
    name
}

/// Whether `e` records a transcription of `text` saved at `wav_path` with a
/// model named `model`, lasting `duration_ms`, for the window `title`, under
/// a random UUID and a clock reading.
pub open spec fn records(
    e: HistoryEntry,
    text: Seq<char>,
    wav_path: Seq<char>,
    model: Seq<char>,
    duration_ms: u64,
    title: Option<Seq<char>>,
) -> bool {
    &&& exists|b: Seq<u8>| b.len() == 16 && e.id@ == #[trigger] uuid_v4_text_of(b)
    &&& e.timestamp.secs >= 0
    &&& e.timestamp.nanos < 1_000_000_000
    &&& e.text@ == text
    &&& e.audio_path@ == wav_path
    &&& e.model@ == model
    &&& e.duration_ms == duration_ms
    &&& opt_view(e.window_title) == title
}

/// The error when no id can be drawn for a history entry.
pub open spec fn random_source_error() -> Seq<char> {
    "random source unavailable"@
}

/// The history entry for a transcription of `text` saved at `wav_path`
/// with the model named `model`, lasting `duration_ms`, for the window
/// `title`, under `id` and `timestamp`.
pub open spec fn spec_entry(
    id: String,
    timestamp: Timestamp,
    text: String,
    wav_path: String,
    model: String,
    duration_ms: u64,
    title: Option<String>,
) -> HistoryEntry {
    HistoryEntry { id, timestamp, text, audio_path: wav_path, model, duration_ms, window_title: title }
}

/// Appends the entry for a finished transcription under `id` and
/// `timestamp`, drains the pending window title into it, and prunes the
/// history to its newest `max_history` entries.
pub fn record_entry(
    hist: &mut Vec<HistoryEntry>,
    pending_window_title: &mut Option<String>,
    id: String,
    timestamp: Timestamp,
    text: String,
    wav_path: String,
    model: String,
    duration_ms: u64,
    max_history: usize,
)
    ensures
        *final(pending_window_title) is None,
        final(hist)@ == keep_newest(
            old(hist)@.push(
                spec_entry(id, timestamp, text, wav_path, model, duration_ms, *old(pending_window_title)),
            ),
            max_history as nat,
        ),
{
    let window_title = pending_window_title.take();
    let entry = HistoryEntry {
        id,
        timestamp,
        text,
        audio_path: wav_path,
        model,
        duration_ms,
        window_title,
    };
    append_pruned(hist, entry, max_history);
}

/// Adds the finished transcription to the history under a fresh id and the
/// current time, with the model name `model`, drains the pending window title
/// into it, and prunes the history to `max_history` entries
/// (`record_entry`). When the random source or the clock fails, nothing
/// changes and the error says which.
pub fn record_transcription(
    hist: &mut Vec<HistoryEntry>,
    pending_window_title: &mut Option<String>,
    text: String,
    wav_path: String,
    model: String,
    duration_ms: u64,
    max_history: usize,
) -> (res: Result<(), String>)
    ensures
        res is Ok ==> *final(pending_window_title) is None,
        res is Ok ==> exists|e: HistoryEntry|
            #[trigger] records(e, text@, wav_path@, model@, duration_ms, opt_view(*old(pending_window_title)))
                && final(hist)@ == keep_newest(old(hist)@.push(e), max_history as nat),
        res matches Err(m) ==> {
            &&& final(hist)@ == old(hist)@
            &&& *final(pending_window_title) == *old(pending_window_title)
            &&& (m@ == random_source_error() || m@ == clock_error())
        },
{
    let id = match new_history_id() {
        Some(id) => id,
        None => return Err("random source unavailable".to_owned()),
    };
    let timestamp = match current_timestamp() {
        Some(t) => t,
        None => return Err("system time out of range".to_owned()),
    };
    let ghost e = spec_entry(id, timestamp, text, wav_path, model, duration_ms, *old(pending_window_title));
    assert(records(e, text@, wav_path@, model@, duration_ms, opt_view(*old(pending_window_title))));
    record_entry(hist, pending_window_title, id, timestamp, text, wav_path, model, duration_ms, max_history);
    Ok(())
}

/// Where the transcription flow stands.
#[derive(Debug, Clone, Copy, PartialEq, Eq, Structural)]
pub enum FlowStage {
    /// Waiting for the recorder to stop and hand back its samples.
    Stopping,
    /// Waiting for the recordings directory to be ready.
    Preparing,
    /// Waiting for the WAV file to be written.
    Saving,
    /// Waiting for the model's text.
    Transcribing,
    /// Waiting for the clipboard write.
    Copying,
    /// Waiting for the simulated Ctrl+V.
    Pasting,
    /// Waiting for the history to be recorded and saved.
    Recording,
    /// The flow has ended.
    Finished,
}

/// What the outside work of the flow reports.
#[derive(Debug)]
pub enum FlowEvent {
    /// The recorder stopped; its samples are with the caller.
    RecorderStopped,
    /// The recordings directory exists.
    DirectoryReady,
    /// The WAV file was written at this path.
    WavSaved(String),
    /// The model produced this text.
    Transcribed(String),
    /// The clipboard now holds the text.
    ClipboardWritten,
    /// The paste was attempted; whether it worked only goes to the log.
    PasteAttempted,
    /// The history entry was recorded and the history saved.
    HistorySaved,
    /// The step's own work failed with this message.
    Failed(String),
    /// Preparing the recordings directory failed with this message.
    DirectoryFailed(String),
}

/// The outside work the flow asks for next.
#[derive(Debug)]
pub enum FlowAction {
    /// Stop the recorder.
    StopRecorder,
    /// Make sure the recordings directory (`tmp` in the app's data
    /// directory) exists.
    PrepareDirectory,
    /// Write the samples as a 16 kHz mono WAV under this file name in the
    /// recordings directory.
    SaveWav { file_name: String },
    /// Transcribe the WAV at `wav_path`.
    Transcribe { wav_path: String, language: Option<String>, prompt: Option<String> },
    /// Put the text on the clipboard.
    WriteClipboard { text: String },
    /// Wait this many milliseconds, then simulate Ctrl+V.
    Paste { delay_ms: u64 },
    /// Record the transcription in the history under the model name `model`
    /// (see `record_transcription`) and save the history.
    RecordHistory { text: String, wav_path: String, model: String },
    /// The flow ended with this result.
    Finish(Result<String, String>),
    /// Nothing to do: the event does not belong to this stage.
    Ignore,
}

/// The transcription flow: one run per stop press.
#[derive(Debug)]
pub struct TranscriptionFlow {
    pub stage: FlowStage,
    pub wav_path: String,
    pub text: String,
}

/// The delay before the simulated paste, so the app's own window can lose
/// focus first.
pub open spec fn paste_delay_ms() -> u64 {
    80
}

/// Whether the flow pastes: auto-paste is on and the text is not empty.
pub open spec fn spec_pastes(auto_paste: bool, text: Seq<char>) -> bool {
    auto_paste && text.len() > 0
}

/// The message of a failure with `context` put in front, as `anyhow`'s
/// alternate display renders a context.
pub open spec fn with_context(context: Seq<char>, msg: Seq<char>) -> Seq<char> {
    context + ": "@ + msg
}

/// `msg` with `context` in front.
pub fn add_context(context: &str, msg: String) -> (res: String)
    ensures
        res@ == with_context(context@, msg@),
{
    let mut s = context.to_owned();
    s.append(": ");
    s.append(msg.as_str());
    s
}

pub open spec fn finish_err(a: FlowAction, msg: Seq<char>) -> bool {
    a matches FlowAction::Finish(Err(m)) && m@ == msg
}

/// The stage that follows `event` in `stage`; `pastes` tells whether the
/// flow pastes after copying.
pub open spec fn spec_flow_next(stage: FlowStage, event: FlowEvent, pastes: bool) -> FlowStage {
    match (stage, event) {
        (FlowStage::Stopping, FlowEvent::RecorderStopped) => FlowStage::Preparing,
        (FlowStage::Preparing, FlowEvent::DirectoryReady) => FlowStage::Saving,
        (FlowStage::Saving, FlowEvent::WavSaved(_)) => FlowStage::Transcribing,
        (FlowStage::Transcribing, FlowEvent::Transcribed(_)) => FlowStage::Copying,
        (FlowStage::Copying, FlowEvent::ClipboardWritten) => if pastes {
            FlowStage::Pasting
        } else {
            FlowStage::Recording
        },
        (FlowStage::Pasting, FlowEvent::PasteAttempted) => FlowStage::Recording,
        (FlowStage::Recording, FlowEvent::HistorySaved) => FlowStage::Finished,
        (FlowStage::Stopping, FlowEvent::Failed(_)) => FlowStage::Finished,
        (FlowStage::Saving, FlowEvent::Failed(_)) => FlowStage::Finished,
        (FlowStage::Preparing, FlowEvent::DirectoryFailed(_)) => FlowStage::Finished,
        (FlowStage::Transcribing, FlowEvent::Failed(_)) => FlowStage::Finished,
        (FlowStage::Copying, FlowEvent::Failed(_)) => FlowStage::Finished,
        (FlowStage::Recording, FlowEvent::Failed(_)) => FlowStage::Finished,
        _ => stage,
    }
}

/// Whether the flow may be in `next` after `event` in `stage`: the stage
/// `spec_flow_next` gives, or, when the directory is ready but the clock
/// cannot be read as a time, finished.
pub open spec fn flow_may_follow(stage: FlowStage, event: FlowEvent, pastes: bool, next: FlowStage) -> bool {
    ||| next == spec_flow_next(stage, event, pastes)
    ||| (stage == FlowStage::Preparing && event is DirectoryReady && next == FlowStage::Finished)
}

/// Whatever the outside work reports, the flow ends: a failure at any
/// stage that can fail finishes it, and the successful reports lead from
/// stopping through preparing the directory, saving, transcribing and
/// copying (and pasting, exactly when auto-paste is on and the text is not
/// empty) to recording the history and finishing. A finished flow stays
/// finished. Once the directory is ready, the flow either saves or, when the
/// clock cannot be read, finishes.
pub proof fn law_flow_always_finishes(m: String, p: String, t: String, pastes: bool, event: FlowEvent)
    ensures
        spec_flow_next(FlowStage::Stopping, FlowEvent::Failed(m), pastes) == FlowStage::Finished,
        spec_flow_next(FlowStage::Preparing, FlowEvent::DirectoryFailed(m), pastes) == FlowStage::Finished,
        spec_flow_next(FlowStage::Saving, FlowEvent::Failed(m), pastes) == FlowStage::Finished,
        spec_flow_next(FlowStage::Transcribing, FlowEvent::Failed(m), pastes) == FlowStage::Finished,
        spec_flow_next(FlowStage::Copying, FlowEvent::Failed(m), pastes) == FlowStage::Finished,
        spec_flow_next(FlowStage::Recording, FlowEvent::Failed(m), pastes) == FlowStage::Finished,
        spec_flow_next(FlowStage::Finished, event, pastes) == FlowStage::Finished,
        forall|next: FlowStage|
            #[trigger] flow_may_follow(FlowStage::Preparing, FlowEvent::DirectoryReady, pastes, next)
                ==> next == FlowStage::Saving || next == FlowStage::Finished,
        ({
            let copied = spec_flow_next(
                spec_flow_next(
                    spec_flow_next(
                        spec_flow_next(FlowStage::Stopping, FlowEvent::RecorderStopped, pastes),
                        FlowEvent::DirectoryReady,
                        pastes,
                    ),
                    FlowEvent::WavSaved(p),
                    pastes,
                ),
                FlowEvent::Transcribed(t),
                pastes,
            );
            let after_copy = spec_flow_next(copied, FlowEvent::ClipboardWritten, pastes);
            let recorded = if pastes {
                spec_flow_next(after_copy, FlowEvent::PasteAttempted, pastes)
            } else {
                after_copy
            };
            &&& copied == FlowStage::Copying
            &&& (after_copy == FlowStage::Pasting) == pastes
            &&& recorded == FlowStage::Recording
            &&& spec_flow_next(recorded, FlowEvent::HistorySaved, pastes) == FlowStage::Finished
        }),
{
}

impl TranscriptionFlow {
    /// Starts the flow: the recorder is stopped first.
    pub fn start() -> (res: (TranscriptionFlow, FlowAction))
        ensures
            res.0.stage == FlowStage::Stopping,
            res.1 matches FlowAction::StopRecorder,
    {
        (TranscriptionFlow { stage: FlowStage::Stopping, wav_path: String::new(), text: String::new() }, FlowAction::StopRecorder)
    }

    /// Advances the flow by one report of outside work. `settings` are the
    /// settings at the time of the report.
    ///
    /// stop → prepare the directory (`recorder.stop`) → save, named after the
    /// current UTC time → transcribe (`save_recording_as_wav`)
    /// → clipboard (`transcribe`) → paste, when auto-paste is on and the text
    /// is not empty (`clipboard write`) → history → done. A failure ends the
    /// flow with its message behind the context in brackets; a failure to
    /// prepare the directory or to save the history ends it with the message
    /// as it is; a clock that cannot be read as a time once the directory is
    /// ready ends it with `system time out of range`; a failed paste is not
    /// an error.
    pub fn step(&mut self, event: FlowEvent, settings: &Settings) -> (action: FlowAction)
        ensures
            flow_may_follow(
                old(self).stage,
                event,
                spec_pastes(settings.auto_paste, old(self).text@),
                final(self).stage,
            ),
            match (old(self).stage, event) {
                (FlowStage::Stopping, FlowEvent::RecorderStopped) => {
                    &&& final(self).stage == FlowStage::Preparing
                    &&& action matches FlowAction::PrepareDirectory
                },
                (FlowStage::Preparing, FlowEvent::DirectoryReady) => {
                    ||| {
                        &&& final(self).stage == FlowStage::Saving
                        &&& action matches FlowAction::SaveWav { file_name }
                        &&& exists|stamp: Seq<char>|
                            compact_utc_stamp(stamp) && file_name@ == #[trigger] recording_file_name(stamp)
                    }
                    ||| {
                        &&& final(self).stage == FlowStage::Finished
                        &&& finish_err(action, clock_error())
                    }
                },
                (FlowStage::Stopping, FlowEvent::Failed(m)) => {
                    &&& final(self).stage == FlowStage::Finished
                    &&& finish_err(action, with_context("recorder.stop"@, m@))
                },
                (FlowStage::Saving, FlowEvent::WavSaved(p)) => {
                    &&& final(self).stage == FlowStage::Transcribing
                    &&& final(self).wav_path@ == p@
                    &&& action matches FlowAction::Transcribe { wav_path, language, prompt }
                    &&& wav_path@ == p@
                    &&& opt_view(language) == opt_view(settings.language)
                    &&& opt_view(prompt) == spec_prompt_from_common_words(settings.common_words@)
                },
                (FlowStage::Saving, FlowEvent::Failed(m)) => {
                    &&& final(self).stage == FlowStage::Finished
                    &&& finish_err(action, with_context("save_recording_as_wav"@, m@))
                },
                (FlowStage::Preparing, FlowEvent::DirectoryFailed(m)) => {
                    &&& final(self).stage == FlowStage::Finished
                    &&& finish_err(action, m@)
                },
                (FlowStage::Transcribing, FlowEvent::Transcribed(t)) => {
                    &&& final(self).stage == FlowStage::Copying
                    &&& final(self).text@ == t@
                    &&& final(self).wav_path == old(self).wav_path
                    &&& action matches FlowAction::WriteClipboard { text }
                    &&& text@ == t@
                },
                (FlowStage::Transcribing, FlowEvent::Failed(m)) => {
                    &&& final(self).stage == FlowStage::Finished
                    &&& finish_err(action, with_context("transcribe"@, m@))
                },
                (FlowStage::Copying, FlowEvent::ClipboardWritten) => {
                    &&& final(self).text == old(self).text
                    &&& final(self).wav_path == old(self).wav_path
                    &&& if spec_pastes(settings.auto_paste, old(self).text@) {
                        &&& final(self).stage == FlowStage::Pasting
                        &&& action matches FlowAction::Paste { delay_ms }
                        &&& delay_ms == paste_delay_ms()
                    } else {
                        &&& final(self).stage == FlowStage::Recording
                        &&& action matches FlowAction::RecordHistory { text, wav_path, model }
                        &&& text@ == old(self).text@
                        &&& wav_path@ == old(self).wav_path@
                        &&& model_name_of(model@, settings.model_path@)
                    }
                },
                (FlowStage::Copying, FlowEvent::Failed(m)) => {
                    &&& final(self).stage == FlowStage::Finished
                    &&& finish_err(action, with_context("clipboard write"@, m@))
                },
                (FlowStage::Pasting, FlowEvent::PasteAttempted) => {
                    &&& final(self).stage == FlowStage::Recording
                    &&& final(self).text == old(self).text
                    &&& final(self).wav_path == old(self).wav_path
                    &&& action matches FlowAction::RecordHistory { text, wav_path, model }
                    &&& text@ == old(self).text@
                    &&& wav_path@ == old(self).wav_path@
                    &&& model_name_of(model@, settings.model_path@)
                },
                (FlowStage::Recording, FlowEvent::HistorySaved) => {
                    &&& final(self).stage == FlowStage::Finished
                    &&& action matches FlowAction::Finish(Ok(t))
                    &&& t@ == old(self).text@
                },
                (FlowStage::Recording, FlowEvent::Failed(m)) => {
                    &&& final(self).stage == FlowStage::Finished
                    &&& finish_err(action, m@)
                },
                _ => {
                    &&& final(self).stage == old(self).stage
                    &&& action matches FlowAction::Ignore
                },
            },
    {
        match (self.stage, event) {
            (FlowStage::Stopping, FlowEvent::RecorderStopped) => {
                self.stage = FlowStage::Preparing;
                FlowAction::PrepareDirectory
            },
            (FlowStage::Preparing, FlowEvent::DirectoryReady) => match new_recording_file_name() {
                Some(file_name) => {
                    self.stage = FlowStage::Saving;
                    FlowAction::SaveWav { file_name }
                },
                None => {
                    self.stage = FlowStage::Finished;
                    FlowAction::Finish(Err("system time out of range".to_owned()))
                },
            },
            (FlowStage::Stopping, FlowEvent::Failed(m)) => {
                self.stage = FlowStage::Finished;
                FlowAction::Finish(Err(add_context("recorder.stop", m)))
            },
            (FlowStage::Saving, FlowEvent::WavSaved(p)) => {
                self.stage = FlowStage::Transcribing;
                self.wav_path = p.clone();
                FlowAction::Transcribe {
                    wav_path: p,
                    language: settings.language.clone(),
                    prompt: prompt_from_common_words(&settings.common_words),
                }
            },
            (FlowStage::Saving, FlowEvent::Failed(m)) => {
                self.stage = FlowStage::Finished;
                FlowAction::Finish(Err(add_context("save_recording_as_wav", m)))
            },
            (FlowStage::Preparing, FlowEvent::DirectoryFailed(m)) => {
                self.stage = FlowStage::Finished;
                FlowAction::Finish(Err(m))
            },
            (FlowStage::Transcribing, FlowEvent::Transcribed(t)) => {
                self.stage = FlowStage::Copying;
                self.text = t.clone();
                FlowAction::WriteClipboard { text: t }
            },
            (FlowStage::Transcribing, FlowEvent::Failed(m)) => {
                self.stage = FlowStage::Finished;
                FlowAction::Finish(Err(add_context("transcribe", m)))
            },
            (FlowStage::Copying, FlowEvent::ClipboardWritten) => {
                if settings.auto_paste && self.text.as_str().unicode_len() > 0 {
                    self.stage = FlowStage::Pasting;
                    FlowAction::Paste { delay_ms: 80 }
                } else {
                    self.stage = FlowStage::Recording;
                    FlowAction::RecordHistory {
                        text: self.text.clone(),
                        wav_path: self.wav_path.clone(),
                        model: model_name_of_path(settings.model_path.as_str()),
                    }
                }
            },
            (FlowStage::Copying, FlowEvent::Failed(m)) => {
                self.stage = FlowStage::Finished;
                FlowAction::Finish(Err(add_context("clipboard write", m)))
            },
            (FlowStage::Pasting, FlowEvent::PasteAttempted) => {
                self.stage = FlowStage::Recording;
                FlowAction::RecordHistory {
                        text: self.text.clone(),
                        wav_path: self.wav_path.clone(),
                        model: model_name_of_path(settings.model_path.as_str()),
                    }
            },
            (FlowStage::Recording, FlowEvent::HistorySaved) => {
                self.stage = FlowStage::Finished;
                FlowAction::Finish(Ok(self.text.clone()))
            },
            (FlowStage::Recording, FlowEvent::Failed(m)) => {
                self.stage = FlowStage::Finished;
                FlowAction::Finish(Err(m))
            },
            _ => FlowAction::Ignore,
        }
    }
}

/// The event that announces the end of the flow, with its payload:
/// `transcription-complete` with the text, or `transcription-error` with
/// the message.
pub fn completion_event(result: &Result<String, String>) -> (res: (&'static str, String))
    ensures
        result matches Ok(t) ==> res.0@ == "transcription-complete"@ && res.1@ == t@,
        result matches Err(m) ==> res.0@ == "transcription-error"@ && res.1@ == m@,
{
    match result {
        Ok(t) => ("transcription-complete", t.clone()),
        Err(m) => ("transcription-error", m.clone()),
    }
}

/// What follows the end of the flow, whatever its result: the mode goes
/// back to idle, the UI hears `mode-changed` (`idle`), then the completion
/// event (`completion_event`).
pub fn finish_flow(result: &Result<String, String>) -> (res: (Mode, Vec<ShellStep>))
    ensures
        res.0 == Mode::Idle,
        res.1@.len() == 2,
        emits(res.1@[0], "mode-changed"@, Some(spec_mode_name(Mode::Idle))),
        result matches Ok(t) ==> emits(res.1@[1], "transcription-complete"@, Some(t@)),
        result matches Err(m) ==> emits(res.1@[1], "transcription-error"@, Some(m@)),
{
    let mut steps: Vec<ShellStep> = Vec::new();
    steps.push(ShellStep::Emit { event: "mode-changed", payload: Some(mode_name(Mode::Idle).to_owned()) });
    let (event, payload) = completion_event(result);
    steps.push(ShellStep::Emit { event, payload: Some(payload) });
    proof {
        reveal_strlit("mode-changed");
    }
    (Mode::Idle, steps)
}

} // verus!
