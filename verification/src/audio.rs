//! The audio recorder's protocol: the worker that owns the input stream,
//! the replies the recorder expects, the choice of input device and sample
//! conversion, and the WAV format the pipeline writes and reads.

use vstd::prelude::*;
use crate::text::{
    decimal, decimal_text, law_ascending_lists_are_canonical, same_text, sorted_unique,
    strictly_ascending, texts,
};

verus! {

/// The sample rate that the transcription model expects.
pub const TARGET_SAMPLE_RATE: u32 = 16_000;

/// A command sent to the audio worker.
#[derive(Debug)]
pub enum Command {
    /// Open the input stream on the named device (or the default one).
    Start { device: Option<String> },
    /// Close the stream and hand back what was captured.
    Stop,
}

/// A reply from the audio worker, without the captured samples.
#[derive(Debug)]
pub enum ReplyKind {
    Started,
    /// The session ended; the samples travel beside this reply.
    Stopped,
    Error(String),
}

/// The message a recorder reports when the worker has gone away.
pub open spec fn worker_died() -> Seq<char> {
    "audio worker died"@
}

/// The outcome of `Recorder::start` for the reply it received, or for `None`
/// when the worker's channel was closed.
pub open spec fn spec_start_outcome(reply: Option<ReplyKind>) -> Result<(), Seq<char>> {
    match reply {
        None => Err(worker_died()),
        Some(ReplyKind::Started) => Ok(()),
        Some(ReplyKind::Error(e)) => Err(e@),
        Some(ReplyKind::Stopped) => Err("unexpected reply during start"@),
    }
}

/// The outcome of `Recorder::stop` for the reply it received, or for `None`
/// when the worker's channel was closed.
pub open spec fn spec_stop_outcome(reply: Option<ReplyKind>) -> Result<(), Seq<char>> {
    match reply {
        None => Err(worker_died()),
        Some(ReplyKind::Stopped) => Ok(()),
        Some(ReplyKind::Error(e)) => Err(e@),
        Some(ReplyKind::Started) => Err("unexpected reply during stop"@),
    }
}

pub open spec fn result_view(r: Result<(), String>) -> Result<(), Seq<char>> {
    match r {
        Ok(()) => Ok(()),
        Err(e) => Err(e@),
    }
}

/// Interprets the worker's answer to a start command.
pub fn start_outcome(reply: Option<ReplyKind>) -> (res: Result<(), String>)
    ensures
        result_view(res) == spec_start_outcome(reply),
{
    match reply {
        None => Err("audio worker died".to_owned()),
        Some(ReplyKind::Started) => Ok(()),
        Some(ReplyKind::Error(e)) => Err(e),
        Some(ReplyKind::Stopped) => Err("unexpected reply during start".to_owned()),
    }
}

/// Interprets the worker's answer to a stop command.
pub fn stop_outcome(reply: Option<ReplyKind>) -> (res: Result<(), String>)
    ensures
        result_view(res) == spec_stop_outcome(reply),
{
    match reply {
        None => Err("audio worker died".to_owned()),
        Some(ReplyKind::Stopped) => Ok(()),
        Some(ReplyKind::Error(e)) => Err(e),
        Some(ReplyKind::Started) => Err("unexpected reply during stop".to_owned()),
    }
}

/// Where the audio worker stands.
#[derive(Debug, Clone, Copy, PartialEq, Eq, Structural)]
pub enum WorkerPhase {
    /// No stream is open; the worker waits for a start command.
    Waiting,
    /// A start command was taken and the stream is being opened.
    Opening,
    /// The stream is capturing samples.
    Recording,
    /// The command channel closed while waiting: the worker has ended.
    Exited,
}

/// What happened to the audio worker.
#[derive(Debug)]
pub enum WorkerEvent {
    /// A command arrived on the command channel.
    Received(Command),
    /// The command channel is closed.
    ChannelClosed,
    /// The stream opened and the `Started` reply went out.
    SessionOpened,
    /// Opening the stream, or replying that it started, failed with this message.
    SessionFailed(String),
}

/// The outside work the audio worker performs next.
#[derive(Debug)]
pub enum WorkerAction {
    /// Open a stream on this device (or the default one) and reply `Started`.
    OpenSession { device: Option<String> },
    /// Send this error as the reply.
    ReplyError(String),
    /// Close the stream and reply `Stopped` with the captured samples.
    FinishSession,
    /// Close the stream without a `Stopped` reply and send this error.
    AbandonSession(String),
    /// Nothing to do.
    Ignore,
    /// Leave the worker loop.
    Exit,
}

/// The audio worker: one stream at most, driven by commands.
#[derive(Debug, Clone, Copy)]
pub struct RecorderWorker {
    pub phase: WorkerPhase,
}

/// The phase that follows `event` in `phase`.
pub open spec fn spec_worker_next(phase: WorkerPhase, event: WorkerEvent) -> WorkerPhase {
    match (phase, event) {
        (WorkerPhase::Waiting, WorkerEvent::Received(Command::Start { .. })) => WorkerPhase::Opening,
        (WorkerPhase::Waiting, WorkerEvent::ChannelClosed) => WorkerPhase::Exited,
        (WorkerPhase::Opening, WorkerEvent::SessionOpened) => WorkerPhase::Recording,
        (WorkerPhase::Opening, WorkerEvent::SessionFailed(_)) => WorkerPhase::Waiting,
        (WorkerPhase::Recording, WorkerEvent::Received(Command::Stop)) => WorkerPhase::Waiting,
        (WorkerPhase::Recording, WorkerEvent::ChannelClosed) => WorkerPhase::Waiting,
        _ => phase,
    }
}

/// Whether `action` is what the worker does for `event` in `phase`.
pub open spec fn spec_worker_action(phase: WorkerPhase, event: WorkerEvent, action: WorkerAction) -> bool {
    match (phase, event) {
        (WorkerPhase::Waiting, WorkerEvent::Received(Command::Start { device })) => action
            matches WorkerAction::OpenSession { device: d } && d == device,
        (WorkerPhase::Waiting, WorkerEvent::ChannelClosed) => action matches WorkerAction::Exit,
        (WorkerPhase::Opening, WorkerEvent::SessionFailed(msg)) => action
            matches WorkerAction::ReplyError(m) && m@ == msg@,
        (WorkerPhase::Recording, WorkerEvent::Received(Command::Start { .. })) => action
            matches WorkerAction::ReplyError(m) && m@ == "already recording"@,
        (WorkerPhase::Recording, WorkerEvent::Received(Command::Stop)) => action
            matches WorkerAction::FinishSession,
        (WorkerPhase::Recording, WorkerEvent::ChannelClosed) => action
            matches WorkerAction::AbandonSession(m) && m@ == "command channel closed"@,
        (WorkerPhase::Exited, _) => action matches WorkerAction::Exit,
        _ => action matches WorkerAction::Ignore,
    }
}

impl RecorderWorker {
    /// A worker that waits for its first command.
    pub fn new() -> (res: RecorderWorker)
        ensures
            res.phase == WorkerPhase::Waiting,
    {
        RecorderWorker { phase: WorkerPhase::Waiting }
    }

    /// Advances the worker by one event: a start while waiting opens a
    /// stream, a stop while waiting is ignored, a start while recording is
    /// answered `already recording`, a stop while recording finishes the
    /// session, and a closed channel ends the session or the worker.
    pub fn step(&mut self, event: WorkerEvent) -> (action: WorkerAction)
        ensures
            final(self).phase == spec_worker_next(old(self).phase, event),
            spec_worker_action(old(self).phase, event, action),
    {
        let phase = self.phase;
        match (phase, event) {
            (WorkerPhase::Waiting, WorkerEvent::Received(Command::Start { device })) => {
                self.phase = WorkerPhase::Opening;
                WorkerAction::OpenSession { device }
            },
            (WorkerPhase::Waiting, WorkerEvent::ChannelClosed) => {
                self.phase = WorkerPhase::Exited;
                WorkerAction::Exit
            },
            (WorkerPhase::Opening, WorkerEvent::SessionOpened) => {
                self.phase = WorkerPhase::Recording;
                WorkerAction::Ignore
            },
            (WorkerPhase::Opening, WorkerEvent::SessionFailed(msg)) => {
                self.phase = WorkerPhase::Waiting;
                WorkerAction::ReplyError(msg)
            },
            (WorkerPhase::Recording, WorkerEvent::Received(Command::Start { .. })) => {
                WorkerAction::ReplyError("already recording".to_owned())
            },
            (WorkerPhase::Recording, WorkerEvent::Received(Command::Stop)) => {
                self.phase = WorkerPhase::Waiting;
                WorkerAction::FinishSession
            },
            (WorkerPhase::Recording, WorkerEvent::ChannelClosed) => {
                self.phase = WorkerPhase::Waiting;
                WorkerAction::AbandonSession("command channel closed".to_owned())
            },
            (WorkerPhase::Exited, _) => WorkerAction::Exit,
            _ => WorkerAction::Ignore,
        }
    }
}

/// The input device a session uses.
#[derive(Debug, Clone, Copy, PartialEq, Eq, Structural)]
pub enum DeviceChoice {
    /// The device at this index of the enumeration.
    Listed(usize),
    /// The host's default input device.
    Default,
}

/// Whether the device at `i` is named `name` (a device whose name could not
/// be read is `None`).
pub open spec fn device_named(devices: Seq<Option<String>>, i: int, name: Seq<char>) -> bool {
    devices[i] matches Some(n) && n@ == name
}

/// Picks the first enumerated device whose name is `preferred`; without a
/// preference, or when no device carries that name, the default device.
pub fn pick_device(devices: &Vec<Option<String>>, preferred: Option<&str>) -> (res: DeviceChoice)
    ensures
        match res {
            DeviceChoice::Listed(i) => {
                &&& preferred is Some
                &&& 0 <= i < devices@.len()
                &&& device_named(devices@, i as int, preferred->0@)
                &&& forall|j: int| 0 <= j < i ==> !device_named(devices@, j, preferred->0@)
            },
            DeviceChoice::Default => preferred is None || forall|j: int|
                0 <= j < devices@.len() ==> !device_named(devices@, j, preferred->0@),
        },
{
    if let Some(name) = preferred {
        let mut i: usize = 0;
        while i < devices.len()
            invariant
                preferred == Some(name),
                0 <= i <= devices@.len(),
                forall|j: int| 0 <= j < i ==> !device_named(devices@, j, name@),
            decreases devices.len() - i,
        {
            if let Some(n) = &devices[i] {
                if same_text(n.as_str(), name) {
                    return DeviceChoice::Listed(i);
                }
            }
            i = i + 1;
        }
    }
    DeviceChoice::Default
}

/// The display list of input devices: the names found, sorted in code point
/// order, each once.
pub fn list_input_devices(found: &Vec<String>) -> (res: Vec<String>)
    ensures
        strictly_ascending(texts(res@)),
        forall|t: Seq<char>| texts(res@).contains(t) <==> texts(found@).contains(t),
{
    sorted_unique(found)
}

/// The sample format an input stream delivers, by its name.
#[derive(Debug)]
pub enum StreamSampleFormat {
    F32,
    I16,
    U16,
    /// Any other format, carried by its name.
    Other(String),
}

/// How captured samples become `f32` values in `[-1, 1]`.
#[derive(Debug, Clone, Copy, PartialEq, Eq, Structural)]
pub enum SampleConversion {
    /// Already `f32`: kept as they are.
    Float,
    /// `i16`: divided by `i16::MAX`.
    SignedInt16,
    /// `u16`: shifted by 32768, then divided by 32768.
    UnsignedInt16,
}

/// The conversion used for a stream format; any format but `f32`, `i16` and
/// `u16` is refused with `unsupported sample format: <name>`.
pub fn stream_conversion(format: &StreamSampleFormat) -> (res: Result<SampleConversion, String>)
    ensures
        match format {
            StreamSampleFormat::F32 => res == Ok::<SampleConversion, String>(SampleConversion::Float),
            StreamSampleFormat::I16 => res == Ok::<SampleConversion, String>(SampleConversion::SignedInt16),
            StreamSampleFormat::U16 => res == Ok::<SampleConversion, String>(SampleConversion::UnsignedInt16),
            StreamSampleFormat::Other(name) => res matches Err(e) && e@ == "unsupported sample format: "@ + name@,
        },
{
    match format {
        StreamSampleFormat::F32 => Ok(SampleConversion::Float),
        StreamSampleFormat::I16 => Ok(SampleConversion::SignedInt16),
        StreamSampleFormat::U16 => Ok(SampleConversion::UnsignedInt16),
        StreamSampleFormat::Other(name) => {
            let mut msg = "unsupported sample format: ".to_owned();
            msg.append(name.as_str());
            Err(msg)
        },
    }
}

/// The layout of a WAV file: channel count, sample rate, bits per sample and
/// whether samples are integers (else IEEE floats).
#[derive(Debug, Clone, Copy, PartialEq, Eq, Structural)]
pub struct WavFormat {
    pub channels: u16,
    pub sample_rate: u32,
    pub bits_per_sample: u16,
    pub integer_samples: bool,
}

/// The format the pipeline writes: 16-bit integer PCM, mono, 16 kHz.
pub fn target_wav_format() -> (res: WavFormat)
    ensures
        res == (WavFormat { channels: 1, sample_rate: 16_000, bits_per_sample: 16, integer_samples: true }),
{
    WavFormat { channels: 1, sample_rate: TARGET_SAMPLE_RATE, bits_per_sample: 16, integer_samples: true }
}

/// How the samples of a WAV file are read.
#[derive(Debug, Clone, Copy, PartialEq, Eq, Structural)]
pub enum WavSampleReading {
    /// 16-bit integers, divided by `i16::MAX`.
    Int16,
    /// 32-bit integers, divided by `i32::MAX`.
    Int32,
    /// 32-bit floats, kept as they are.
    Float,
}

/// The steps that turn a WAV file into mono 16 kHz `f32` samples.
#[derive(Debug, Clone, Copy, PartialEq, Eq, Structural)]
pub struct WavDecodePlan {
    pub reading: WavSampleReading,
    /// Average the channels into one (more than one channel).
    pub downmix: bool,
    /// Resample to 16 kHz (any other rate).
    pub resample: bool,
}

/// The plan for reading a WAV file of format `f`: integer files of 16 or 32
/// bits, or float files; other integer widths are refused with
/// `unsupported int bits_per_sample: <bits>`.
pub fn wav_decode_plan(f: WavFormat) -> (res: Result<WavDecodePlan, String>)
    ensures
        f.integer_samples && f.bits_per_sample != 16 && f.bits_per_sample != 32 ==> (res matches Err(e)
            && e@ == "unsupported int bits_per_sample: "@ + decimal(f.bits_per_sample as nat)),
        !(f.integer_samples && f.bits_per_sample != 16 && f.bits_per_sample != 32) ==> (res matches Ok(p)
            && p.downmix == (f.channels > 1) && p.resample == (f.sample_rate != TARGET_SAMPLE_RATE)
            && p.reading == (if !f.integer_samples {
                WavSampleReading::Float
            } else if f.bits_per_sample == 16 {
                WavSampleReading::Int16
            } else {
                WavSampleReading::Int32
            })),
{
    let reading = if f.integer_samples {
        if f.bits_per_sample == 16 {
            WavSampleReading::Int16
        } else if f.bits_per_sample == 32 {
            WavSampleReading::Int32
        } else {
            let mut msg = "unsupported int bits_per_sample: ".to_owned();
            let bits = decimal_text(f.bits_per_sample as u64);
            msg.append(bits.as_str());
            return Err(msg);
        }
    } else {
        WavSampleReading::Float
    };
    Ok(WavDecodePlan {
        reading,
        downmix: f.channels > 1,
        resample: f.sample_rate != TARGET_SAMPLE_RATE,
    })
}

/// A start command is answered with a single session: while recording, a
/// further start is refused with `already recording` and the session goes
/// on; a stop while waiting does nothing; a stop while recording finishes the
/// session and the worker waits again.
pub proof fn law_one_session_at_a_time(device: Option<String>)
    ensures
        spec_worker_next(WorkerPhase::Recording, WorkerEvent::Received(Command::Start { device }))
            == WorkerPhase::Recording,
        spec_worker_next(WorkerPhase::Waiting, WorkerEvent::Received(Command::Stop))
            == WorkerPhase::Waiting,
        spec_worker_action(
            WorkerPhase::Waiting,
            WorkerEvent::Received(Command::Stop),
            WorkerAction::Ignore,
        ),
        spec_worker_next(WorkerPhase::Recording, WorkerEvent::Received(Command::Stop))
            == WorkerPhase::Waiting,
        spec_worker_next(
            spec_worker_next(
                spec_worker_next(WorkerPhase::Waiting, WorkerEvent::Received(Command::Start { device })),
                WorkerEvent::SessionOpened,
            ),
            WorkerEvent::Received(Command::Stop),
        ) == WorkerPhase::Waiting,
{
}

/// The displayed device list depends only on which names were found: two
/// enumerations that find the same names (in any order, with repeats)
/// display the same list, and listing an already displayed list gives it
/// back unchanged.
pub proof fn law_device_list_is_canonical(
    found_a: Seq<String>,
    shown_a: Seq<String>,
    found_b: Seq<String>,
    shown_b: Seq<String>,
)
    requires
        strictly_ascending(texts(shown_a)),
        forall|t: Seq<char>| texts(shown_a).contains(t) <==> texts(found_a).contains(t),
        strictly_ascending(texts(shown_b)),
        forall|t: Seq<char>| texts(shown_b).contains(t) <==> texts(found_b).contains(t),
    ensures
        (forall|t: Seq<char>| texts(found_a).contains(t) <==> texts(found_b).contains(t))
            ==> texts(shown_a) == texts(shown_b),
        strictly_ascending(texts(found_a)) ==> texts(shown_a) == texts(found_a),
{
    if forall|t: Seq<char>| texts(found_a).contains(t) <==> texts(found_b).contains(t) {
        law_ascending_lists_are_canonical(texts(shown_a), texts(shown_b));
    }
    if strictly_ascending(texts(found_a)) {
        law_ascending_lists_are_canonical(texts(shown_a), texts(found_a));
    }
}

/// A second start while a session records is refused: the worker answers
/// `already recording` (whatever device was asked for), which the recorder
/// reports as that error; the session goes on without a new stream being
/// opened, so the next stop finishes that same session and the recorder's
/// stop succeeds with its samples.
pub proof fn law_start_while_recording(device: Option<String>, answer: String)
    requires
        answer@ == "already recording"@,
    ensures
        spec_worker_action(
            WorkerPhase::Recording,
            WorkerEvent::Received(Command::Start { device }),
            WorkerAction::ReplyError(answer),
        ),
        !spec_worker_action(
            WorkerPhase::Recording,
            WorkerEvent::Received(Command::Start { device }),
            WorkerAction::OpenSession { device },
        ),
        spec_start_outcome(Some(ReplyKind::Error(answer))) == Err::<(), Seq<char>>(
            "already recording"@,
        ),
        spec_worker_next(WorkerPhase::Recording, WorkerEvent::Received(Command::Start { device }))
            == WorkerPhase::Recording,
        spec_worker_action(
            spec_worker_next(WorkerPhase::Recording, WorkerEvent::Received(Command::Start { device })),
            WorkerEvent::Received(Command::Stop),
            WorkerAction::FinishSession,
        ),
        spec_stop_outcome(Some(ReplyKind::Stopped)) == Ok::<(), Seq<char>>(()),
{
}

} // verus!
