//! The desktop shell's decisions: commands, tray menu, overlay window,
//! window closing, settings updates and the clean-up of old recordings.

use vstd::prelude::*;
use crate::hotkey::{add_context, plain_path};
use crate::storage::{Settings, Timestamp};
use crate::text::{
    decimal, decimal_text, eq_ignore_ascii_case, same_text, same_text_ignore_ascii_case, strip,
    strip_both, Strip,
};

verus! {

/// The answer of the `ping` command.
pub fn ping() -> (res: &'static str)
    ensures
        res@ == "pong from director-general"@,
{
    "pong from director-general"
}

/// An entry of the tray menu.
#[derive(Debug, Clone, Copy)]
pub enum TrayItem {
    Entry { id: &'static str, label: &'static str },
    Separator,
}

pub open spec fn tray_item_view(item: TrayItem) -> Option<(Seq<char>, Seq<char>)> {
    match item {
        TrayItem::Entry { id, label } => Some((id@, label@)),
        TrayItem::Separator => None,
    }
}

/// The tray menu, top to bottom: show, settings, history, a separator, quit.
pub open spec fn spec_tray_menu() -> Seq<Option<(Seq<char>, Seq<char>)>> {
    seq![
        Some(("show"@, "Show Director General"@)),
        Some(("open_settings"@, "Settings"@)),
        Some(("open_history"@, "History"@)),
        None,
        Some(("quit"@, "Quit"@)),
    ]
}

/// The items of the tray menu.
pub fn tray_menu_items() -> (res: Vec<TrayItem>)
    ensures
        res@.map_values(|i: TrayItem| tray_item_view(i)) == spec_tray_menu(),
{
    let mut v: Vec<TrayItem> = Vec::new();
    v.push(TrayItem::Entry { id: "show", label: "Show Director General" });
    v.push(TrayItem::Entry { id: "open_settings", label: "Settings" });
    v.push(TrayItem::Entry { id: "open_history", label: "History" });
    v.push(TrayItem::Separator);
    v.push(TrayItem::Entry { id: "quit", label: "Quit" });
    assert(v@.map_values(|i: TrayItem| tray_item_view(i)) =~= spec_tray_menu());
    v
}

/// What a tray menu click does.
#[derive(Debug, Clone, Copy)]
pub enum TrayAction {
    /// Show, unminimize and focus the main window.
    FocusMain,
    /// Focus the main window and emit `nav` with this page.
    FocusAndNavigate(&'static str),
    /// Exit the application with status 0.
    Quit,
    /// Unknown item: nothing.
    Nothing,
}

/// The action of the tray menu item `id`.
pub fn tray_menu_action(id: &str) -> (res: TrayAction)
    ensures
        id@ == "show"@ ==> res is FocusMain,
        id@ == "open_settings"@ ==> (res matches TrayAction::FocusAndNavigate(p) && p@ == "settings"@),
        id@ == "open_history"@ ==> (res matches TrayAction::FocusAndNavigate(p) && p@ == "history"@),
        id@ == "quit"@ ==> res is Quit,
        id@ != "show"@ && id@ != "open_settings"@ && id@ != "open_history"@ && id@ != "quit"@
            ==> res is Nothing,
{
    proof {
        reveal_strlit("show");
        reveal_strlit("open_settings");
        reveal_strlit("open_history");
        reveal_strlit("quit");
        assert("open_settings"@.len() != "show"@.len());
        assert("open_history"@.len() != "show"@.len());
        assert("open_history"@.len() != "open_settings"@.len());
        assert("quit"@[0] != "show"@[0]);
        assert("quit"@.len() != "open_settings"@.len());
        assert("quit"@.len() != "open_history"@.len());
    }
    if same_text(id, "show") {
        TrayAction::FocusMain
    } else if same_text(id, "open_settings") {
        TrayAction::FocusAndNavigate("settings")
    } else if same_text(id, "open_history") {
        TrayAction::FocusAndNavigate("history")
    } else if same_text(id, "quit") {
        TrayAction::Quit
    } else {
        TrayAction::Nothing
    }
}

/// Whether a click on the tray icon focuses the main window: only the left
/// button, on release.
pub fn tray_click_focuses(left_button: bool, released: bool) -> (res: bool)
    ensures
        res == (left_button && released),
{
    left_button && released
}

/// Whether closing a window hides it instead (and keeps the app running):
/// only for the main window.
pub fn close_hides_window(label: &str) -> (res: bool)
    ensures
        res == (label@ == "main"@),
{
    same_text(label, "main")
}

/// What the overlay window does on a mode change.
#[derive(Debug, Clone, Copy, PartialEq, Eq, Structural)]
pub enum OverlayAction {
    /// Position it above the bottom of the primary monitor and show it.
    Show,
    Hide,
    /// Leave it as it is.
    Nothing,
}

/// The overlay's reaction to a `mode-changed` payload: recording shows it
/// (unless the setting turns it off; without settings it shows), any other
/// mode hides it. The payload is compared without its surrounding quotes.
pub fn overlay_action(payload: &str, show_overlay: Option<bool>) -> (res: OverlayAction)
    ensures
        strip_both(Strip::Char('"'), payload@) == "recording"@ ==> res == (match show_overlay {
            Some(false) => OverlayAction::Nothing,
            _ => OverlayAction::Show,
        }),
        strip_both(Strip::Char('"'), payload@) != "recording"@ ==> res == OverlayAction::Hide,
{
    let mode = strip(payload, Strip::Char('"'));
    if same_text(mode, "recording") {
        let show = match show_overlay {
            Some(b) => b,
            None => true,
        };
        if show {
            OverlayAction::Show
        } else {
            OverlayAction::Nothing
        }
    } else {
        OverlayAction::Hide
    }
}

/// What `update_settings` has to redo after storing the new settings.
#[derive(Debug, Clone, Copy, PartialEq, Eq, Structural)]
pub struct SettingsUpdatePlan {
    /// Apply the new hotkey (it differs from the old one).
    pub reapply_hotkey: bool,
    /// Point the transcriber at the new model path (it differs).
    pub reload_model: bool,
}

/// The `/`-separated parts of `p`, in order, empty ones included.
pub open spec fn slash_parts(p: Seq<char>) -> Seq<Seq<char>>
    decreases p.len(),
{
    if p.len() == 0 {
        seq![Seq::empty()]
    } else if p.last() == '/' {
        slash_parts(p.drop_last()).push(Seq::empty())
    } else {
        let parts = slash_parts(p.drop_last());
        parts.update(parts.len() - 1, parts.last().push(p.last()))
    }
}

/// The components of a plain path as `Path::components` documents them:
/// whether it starts at the root (`/`), whether it starts with the current
/// directory (a leading `.` part of a path that does not start at the
/// root), and its other parts, where repeated separators and `.` parts in
/// the middle are dropped and `..` is kept.
pub open spec fn path_components(p: Seq<char>) -> (bool, bool, Seq<Seq<char>>) {
    let parts = slash_parts(p);
    let rooted = p.len() > 0 && p[0] == '/';
    (rooted, !rooted && parts[0] == "."@, parts.filter(|part: Seq<char>| part.len() > 0 && part != "."@))
}

/// Calls `Path::eq` on the two path texts. Claimed, as std documents path
/// equality (it compares components): equal texts are equal paths, and two
/// plain paths, which every platform splits alike, are equal exactly when
/// their `path_components` are. Other paths follow the platform's syntax and
/// are left unsaid.
#[verifier::external_body]
fn same_path(a: &str, b: &str) -> (res: bool)
    ensures
        a@ == b@ ==> res,
        (plain_path(a@) && plain_path(b@)) ==> res == (path_components(a@) == path_components(b@)),
{
    std::path::Path::new(a) == std::path::Path::new(b)
}

/// Whether the old and new settings name the same model file, as `Path`
/// equality decides it: equal texts always do, and plain paths do exactly
/// when their components agree.
pub fn same_model_path(old: &Settings, new: &Settings) -> (res: bool)
    ensures
        old.model_path@ == new.model_path@ ==> res,
        (plain_path(old.model_path@) && plain_path(new.model_path@)) ==> res == (
        path_components(new.model_path@) == path_components(old.model_path@)),
{
    same_path(new.model_path.as_str(), old.model_path.as_str())
}

/// Compares the old and new settings: the hotkey is applied again exactly
/// when its text changed, and the model is reloaded exactly when the model
/// paths are not the same path (`same_model_path`).
pub fn plan_settings_update(old: &Settings, new: &Settings, model_paths_equal: bool) -> (res: SettingsUpdatePlan)
    ensures
        res.reapply_hotkey == (new.hotkey@ != old.hotkey@),
        res.reload_model == !model_paths_equal,
{
    SettingsUpdatePlan {
        reapply_hotkey: !same_text(new.hotkey.as_str(), old.hotkey.as_str()),
        reload_model: !model_paths_equal,
    }
}

/// What `update_settings` has to redo, from the old and new settings: the
/// hotkey is applied again exactly when its text changed, and the model is
/// reloaded exactly when the model paths are not the same path
/// (`same_model_path`).
pub fn settings_update_plan(old: &Settings, new: &Settings) -> (res: SettingsUpdatePlan)
    ensures
        res.reapply_hotkey == (new.hotkey@ != old.hotkey@),
        old.model_path@ == new.model_path@ ==> !res.reload_model,
        (plain_path(old.model_path@) && plain_path(new.model_path@)) ==> res.reload_model == (
        path_components(new.model_path@) != path_components(old.model_path@)),
{
    let same_model = same_model_path(old, new);
    plan_settings_update(old, new, same_model)
}

/// One step of a settings update.
#[derive(Debug, Clone, Copy, PartialEq, Eq, Structural)]
pub enum UpdateStep {
    /// Store the new settings in memory and save them to `settings.json`.
    StoreAndSave,
    /// Apply the new hotkey.
    ApplyHotkey,
    /// Point the transcriber at the new model path.
    ReloadModel,
}

/// The steps of an update under `plan`, in the order they run: store and
/// save, then apply the hotkey if it changed, then reload the model if its
/// path changed.
pub open spec fn spec_update_steps(plan: SettingsUpdatePlan) -> Seq<UpdateStep> {
    seq![UpdateStep::StoreAndSave] + (if plan.reapply_hotkey {
        seq![UpdateStep::ApplyHotkey]
    } else {
        Seq::empty()
    }) + (if plan.reload_model {
        seq![UpdateStep::ReloadModel]
    } else {
        Seq::empty()
    })
}

/// The steps of a settings update under `plan`, in order. The update stops
/// at the first step that fails, with `update_step_error`.
pub fn settings_update_steps(plan: SettingsUpdatePlan) -> (res: Vec<UpdateStep>)
    ensures
        res@ == spec_update_steps(plan),
{
    let mut steps: Vec<UpdateStep> = Vec::new();
    steps.push(UpdateStep::StoreAndSave);
    if plan.reapply_hotkey {
        steps.push(UpdateStep::ApplyHotkey);
    }
    if plan.reload_model {
        steps.push(UpdateStep::ReloadModel);
    }
    steps
}

/// A settings update always stores and saves first; it applies the new
/// hotkey exactly when the plan asks for that and reloads the model exactly
/// when the plan asks for that, each whatever the other is; the hotkey comes
/// before the model, and no step runs twice.
pub proof fn law_update_steps_follow_plan(plan: SettingsUpdatePlan, steps: Seq<UpdateStep>)
    requires
        steps == spec_update_steps(plan),
    ensures
        steps.len() >= 1,
        steps[0] == UpdateStep::StoreAndSave,
        steps.contains(UpdateStep::ApplyHotkey) == plan.reapply_hotkey,
        steps.contains(UpdateStep::ReloadModel) == plan.reload_model,
        steps.len() == 1 + (if plan.reapply_hotkey { 1int } else { 0int }) + (if plan.reload_model { 1int } else { 0int }),
        forall|i: int, j: int| 0 <= i < j < steps.len() ==> steps[i] != steps[j],
        forall|i: int, j: int|
            0 <= i < steps.len() && 0 <= j < steps.len() && steps[i] == UpdateStep::ApplyHotkey
                && steps[j] == UpdateStep::ReloadModel ==> i < j,
{
    if plan.reapply_hotkey {
        assert(steps[1] == UpdateStep::ApplyHotkey);
        if plan.reload_model {
            assert(steps[2] == UpdateStep::ReloadModel);
        }
    } else if plan.reload_model {
        assert(steps[1] == UpdateStep::ReloadModel);
    }
}

/// The name a failed step's error starts with.
pub open spec fn spec_update_step_name(step: UpdateStep) -> Seq<char> {
    match step {
        UpdateStep::StoreAndSave => "save_settings"@,
        UpdateStep::ApplyHotkey => "apply_hotkey"@,
        UpdateStep::ReloadModel => "set_model_path"@,
    }
}

/// The error a command reports: the failed step's name, then the message.
pub fn command_error(step: &str, msg: String) -> (res: String)
    ensures
        res@ == step@ + ": "@ + msg@,
{
    add_context(step, msg)
}

/// The error a settings update reports when `step` fails with `msg`:
/// `save_settings: <msg>` or `apply_hotkey: <msg>`.
pub fn update_step_error(step: UpdateStep, msg: String) -> (res: String)
    ensures
        res@ == spec_update_step_name(step) + ": "@ + msg@,
{
    let name = match step {
        UpdateStep::StoreAndSave => "save_settings",
        UpdateStep::ApplyHotkey => "apply_hotkey",
        UpdateStep::ReloadModel => "set_model_path",
    };
    command_error(name, msg)
}

/// A file in the recordings directory: its extension (if it has a readable
/// one) and its modification time (if it could be read).
#[derive(Debug)]
pub struct RecordingFile {
    pub extension: Option<String>,
    pub modified: Option<Timestamp>,
}

/// Whether `a` is earlier than `b`.
pub open spec fn before(a: Timestamp, b: Timestamp) -> bool {
    a.secs < b.secs || (a.secs == b.secs && a.nanos < b.nanos)
}

/// Whether a file with this extension is a recording: `wav` in any ASCII case.
pub open spec fn spec_is_wav(extension: Option<String>) -> bool {
    extension matches Some(e) && eq_ignore_ascii_case(e@, "wav"@)
}

/// Whether the file is a recording to delete: a WAV file modified before
/// the cutoff.
pub open spec fn spec_is_stale(f: RecordingFile, cutoff: Timestamp) -> bool {
    &&& spec_is_wav(f.extension)
    &&& f.modified matches Some(m)
    &&& before(m, cutoff)
}

/// The moment before which recordings are deleted: `max_age_days` days
/// before `now`, or `None` when that lies outside the representable range.
pub fn cleanup_cutoff(now: Timestamp, max_age_days: u64) -> (res: Option<Timestamp>)
    requires
        max_age_days * 86400 <= u64::MAX,
    ensures
        now.secs - max_age_days * 86400 >= i64::MIN ==> res == Some(
            Timestamp { secs: (now.secs - max_age_days * 86400) as i64, nanos: now.nanos },
        ),
        now.secs - max_age_days * 86400 < i64::MIN ==> res is None,
{
    let span: u64 = max_age_days * 24 * 3600;
    let secs: i128 = now.secs as i128 - span as i128;
    if secs < i64::MIN as i128 {
        None
    } else {
        Some(Timestamp { secs: secs as i64, nanos: now.nanos })
    }
}

/// Whether the file is a WAV file by its extension.
pub fn is_wav(extension: &Option<String>) -> (res: bool)
    ensures
        res == spec_is_wav(*extension),
{
    match extension {
        Some(e) => same_text_ignore_ascii_case(e.as_str(), "wav"),
        None => false,
    }
}

/// The indexes of the recordings to delete, in order: every WAV file
/// modified before `cutoff`, and nothing else.
pub fn stale_recordings(files: &Vec<RecordingFile>, cutoff: Timestamp) -> (res: Vec<usize>)
    ensures
        forall|k: int| 0 <= k < res@.len() ==> (#[trigger] res@[k]) < files@.len(),
        forall|k: int| 0 <= k < res@.len() ==> spec_is_stale(files@[#[trigger] res@[k] as int], cutoff),
        forall|i: int| 0 <= i < files@.len() && spec_is_stale(#[trigger] files@[i], cutoff) ==> res@.contains(i as usize),
        forall|a: int, b: int| 0 <= a < b < res@.len() ==> #[trigger] res@[a] < #[trigger] res@[b],
{
    let mut out: Vec<usize> = Vec::new();
    let mut i: usize = 0;
    while i < files.len()
        invariant
            0 <= i <= files@.len(),
            forall|k: int| 0 <= k < out@.len() ==> (#[trigger] out@[k]) < i,
            forall|k: int| 0 <= k < out@.len() ==> spec_is_stale(files@[#[trigger] out@[k] as int], cutoff),
            forall|j: int| 0 <= j < i && spec_is_stale(#[trigger] files@[j], cutoff) ==> out@.contains(j as usize),
            forall|a: int, b: int| 0 <= a < b < out@.len() ==> #[trigger] out@[a] < #[trigger] out@[b],
        decreases files.len() - i,
    {
        let f = &files[i];
        let stale = match f.modified {
            Some(m) => is_wav(&f.extension) && (m.secs < cutoff.secs || (m.secs == cutoff.secs
                && m.nanos < cutoff.nanos)),
            None => false,
        };
        let ghost old_out = out@;
        if stale {
            out.push(i);
            proof {
                assert(out@[out@.len() - 1] == i);
                assert forall|j: int| 0 <= j < i + 1 && spec_is_stale(#[trigger] files@[j], cutoff) implies out@.contains(j as usize) by {
                    if j < i {
                        assert(old_out.contains(j as usize));
                        let k = choose|k: int| 0 <= k < old_out.len() && old_out[k] == j as usize;
                        assert(out@[k] == j as usize);
                    } else {
                        assert(out@[out@.len() - 1] == j as usize);
                    }
                }
            }
        }
        i = i + 1;
    }
    out
}

/// The log line after a clean-up, when anything was deleted.
pub fn cleanup_report(deleted: usize) -> (res: Option<String>)
    ensures
        deleted == 0 ==> res is None,
        deleted > 0 ==> (res matches Some(m) && m@ == "[director-general] cleaned up "@ + decimal(
            deleted as nat,
        ) + " old recording(s)"@),
{
    if deleted == 0 {
        return None;
    }
    let mut m = "[director-general] cleaned up ".to_owned();
    let n = decimal_text(deleted as u64);
    m.append(n.as_str());
    m.append(" old recording(s)");
    Some(m)
}

} // verus!
