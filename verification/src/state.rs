//! The recording state machine driven by the hotkey.

use vstd::prelude::*;
use crate::hotkey::opt_view;

verus! {

/// What the application is doing right now.
#[derive(Debug, Clone, Copy, PartialEq, Eq, Structural)]
pub enum Mode {
    Idle,
    Recording,
    Transcribing,
}

/// One piece of outside work that the desktop shell performs, in order, for
/// a decision of the state machine.
#[derive(Debug)]
pub enum ShellStep {
    /// Read the title of the foreground window and keep it as the pending
    /// title of the next history entry.
    CaptureWindowTitle,
    /// Start the recorder on this input device (the system default when
    /// there is none).
    StartRecorder { device: Option<String> },
    /// Emit this event to the UI, with a text payload or with none.
    Emit { event: &'static str, payload: Option<String> },
    /// Run the transcription flow on a thread of its own.
    SpawnTranscriptionFlow,
}

/// Whether `step` emits `event` with `payload`.
pub open spec fn emits(step: ShellStep, event: Seq<char>, payload: Option<Seq<char>>) -> bool {
    step matches ShellStep::Emit { event: e, payload: p } && e@ == event && opt_view(p) == payload
}

/// The mode that follows a press in `mode`.
pub open spec fn spec_press_next(mode: Mode) -> Mode {
    match mode {
        Mode::Idle => Mode::Recording,
        Mode::Recording => Mode::Transcribing,
        Mode::Transcribing => Mode::Transcribing,
    }
}

/// The outside work of a press in `mode`, with `device` the configured
/// input device. From idle: capture the foreground window title before
/// anything else can take the focus, then start the recorder on the device.
/// While recording: announce `mode-changed` (`transcribing`), then
/// `recording-stopped`, then run the transcription flow in the background.
/// While transcribing: nothing.
pub open spec fn press_steps(mode: Mode, device: Option<Seq<char>>, steps: Seq<ShellStep>) -> bool {
    match mode {
        Mode::Idle => {
            &&& steps.len() == 2
            &&& steps[0] is CaptureWindowTitle
            &&& steps[1] matches ShellStep::StartRecorder { device: d } && opt_view(d) == device
        },
        Mode::Recording => {
            &&& steps.len() == 3
            &&& emits(steps[0], "mode-changed"@, Some(spec_mode_name(Mode::Transcribing)))
            &&& emits(steps[1], "recording-stopped"@, None)
            &&& steps[2] is SpawnTranscriptionFlow
        },
        Mode::Transcribing => steps.len() == 0,
    }
}

/// Decides what a hotkey press does, given the configured input device:
/// Idle starts recording, Recording stops it and hands over to
/// transcription, Transcribing ignores the press. Returns the next mode and
/// the outside work to perform, in order.
pub fn on_press(mode: Mode, input_device: Option<String>) -> (res: (Mode, Vec<ShellStep>))
    ensures
        res.0 == spec_press_next(mode),
        press_steps(mode, opt_view(input_device), res.1@),
{
    let mut steps: Vec<ShellStep> = Vec::new();
    match mode {
        Mode::Idle => {
            steps.push(ShellStep::CaptureWindowTitle);
            steps.push(ShellStep::StartRecorder { device: input_device });
            (Mode::Recording, steps)
        },
        Mode::Recording => {
            steps.push(ShellStep::Emit { event: "mode-changed", payload: Some(mode_name(Mode::Transcribing).to_owned()) });
            steps.push(ShellStep::Emit { event: "recording-stopped", payload: None });
            steps.push(ShellStep::SpawnTranscriptionFlow);
            proof {
                reveal_strlit("mode-changed");
                reveal_strlit("recording-stopped");
            }
            (Mode::Transcribing, steps)
        },
        Mode::Transcribing => (Mode::Transcribing, steps),
    }
}

/// The error announced when the recorder does not start.
pub open spec fn start_error(msg: Seq<char>) -> Seq<char> {
    "start_recording: "@ + msg
}

/// What follows the recorder's start, with `result` its outcome (the error
/// as text). Started: the mode stays recording and the UI hears
/// `mode-changed` (`recording`), then `recording-started`. Failed: the mode
/// goes back to idle and the UI hears only `error` with
/// `start_recording: <error>`.
pub fn after_recorder_start(result: Result<(), String>) -> (res: (Mode, Vec<ShellStep>))
    ensures
        result is Ok ==> {
            &&& res.0 == Mode::Recording
            &&& res.1@.len() == 2
            &&& emits(res.1@[0], "mode-changed"@, Some(spec_mode_name(Mode::Recording)))
            &&& emits(res.1@[1], "recording-started"@, None)
        },
        result matches Err(e) ==> {
            &&& res.0 == Mode::Idle
            &&& res.1@.len() == 1
            &&& emits(res.1@[0], "error"@, Some(start_error(e@)))
        },
{
    let mut steps: Vec<ShellStep> = Vec::new();
    match result {
        Ok(()) => {
            steps.push(ShellStep::Emit { event: "mode-changed", payload: Some(mode_name(Mode::Recording).to_owned()) });
            steps.push(ShellStep::Emit { event: "recording-started", payload: None });
            proof {
                reveal_strlit("mode-changed");
                reveal_strlit("recording-started");
            }
            (Mode::Recording, steps)
        },
        Err(e) => {
            let mut msg = "start_recording: ".to_owned();
            msg.append(e.as_str());
            steps.push(ShellStep::Emit { event: "error", payload: Some(msg) });
            proof {
                reveal_strlit("error");
                reveal_strlit("start_recording: ");
            }
            (Mode::Idle, steps)
        },
    }
}

/// The mode's name as the UI receives it in `mode-changed` events and from
/// `get_mode`: `idle`, `recording` or `transcribing`.
pub open spec fn spec_mode_name(mode: Mode) -> Seq<char> {
    match mode {
        Mode::Idle => "idle"@,
        Mode::Recording => "recording"@,
        Mode::Transcribing => "transcribing"@,
    }
}

/// The mode's name in snake case.
pub fn mode_name(mode: Mode) -> (res: &'static str)
    ensures
        res@ == spec_mode_name(mode),
{
    match mode {
        Mode::Idle => "idle",
        Mode::Recording => "recording",
        Mode::Transcribing => "transcribing",
    }
}

/// A press cycle: from idle, one press starts recording, a second press
/// hands over to transcription, and any number of presses during
/// transcription change nothing.
pub proof fn law_press_cycle()
    ensures
        spec_press_next(Mode::Idle) == Mode::Recording,
        spec_press_next(spec_press_next(Mode::Idle)) == Mode::Transcribing,
        forall|n: nat| #[trigger] iterate_press(Mode::Transcribing, n) == Mode::Transcribing,
{
    assert forall|n: nat| #[trigger] iterate_press(Mode::Transcribing, n) == Mode::Transcribing by {
        lemma_busy_stays(n);
    }
}

/// The mode after `n` presses from `mode`.
pub open spec fn iterate_press(mode: Mode, n: nat) -> Mode
    decreases n,
{
    if n == 0 {
        mode
    } else {
        iterate_press(spec_press_next(mode), (n - 1) as nat)
    }
}

proof fn lemma_busy_stays(n: nat)
    ensures
        iterate_press(Mode::Transcribing, n) == Mode::Transcribing,
    decreases n,
{
    if n > 0 {
        lemma_busy_stays((n - 1) as nat);
    }
}

/// Every press either advances the mode one step along
/// idle → recording → transcribing or, during transcription, is ignored
/// with no outside work at all; no press leads back to idle. The recorder
/// is started only by a press from idle, and only after the foreground
/// window title was captured; the transcription flow is started only by a
/// press while recording, as its last step.
pub proof fn law_press_never_skips(mode: Mode, device: Option<Seq<char>>, steps: Seq<ShellStep>)
    requires
        press_steps(mode, device, steps),
    ensures
        spec_press_next(mode) != Mode::Idle,
        mode == Mode::Idle ==> spec_press_next(mode) == Mode::Recording,
        steps.len() == 0 <==> mode == Mode::Transcribing,
        steps.len() == 0 ==> spec_press_next(mode) == mode,
        forall|i: int| 0 <= i < steps.len() && #[trigger] steps[i] is StartRecorder
            ==> mode == Mode::Idle && 0 < i && steps[0] is CaptureWindowTitle,
        forall|i: int| 0 <= i < steps.len() && #[trigger] steps[i] is SpawnTranscriptionFlow
            ==> mode == Mode::Recording && i == steps.len() - 1,
{
}

} // verus!
