//! The decisions around the speech model: when it is (re)loaded, how a
//! failed GPU load falls back to the CPU, which parameters a run gets, and
//! how the text of its segments is put together.

use vstd::prelude::*;
use crate::text::{trim, trimmed};

verus! {

/// A transcriber that is built on first use from the current model path and
/// dropped whenever the path changes.
pub struct LazyTranscriber<T> {
    inner: Option<T>,
    model_path: String,
}

impl<T> LazyTranscriber<T> {
    /// The model path the next load uses.
    pub closed spec fn spec_model_path(&self) -> Seq<char> {
        self.model_path@
    }

    /// The transcriber built so far, if any.
    pub closed spec fn spec_loaded(&self) -> Option<T> {
        self.inner
    }

    /// Nothing loaded yet; the model path is remembered.
    pub fn new(model_path: String) -> (res: Self)
        ensures
            res.spec_model_path() == model_path@,
            res.spec_loaded() is None,
    {
        LazyTranscriber { inner: None, model_path }
    }

    /// Switches to another model path and drops the loaded transcriber, so
    /// the next transcription loads the new model.
    pub fn set_model_path(&mut self, path: String)
        ensures
            final(self).spec_model_path() == path@,
            final(self).spec_loaded() is None,
    {
        self.model_path = path;
        self.inner = None;
    }

    /// The model path the next load uses.
    pub fn current_model_path(&self) -> (res: String)
        ensures
            res@ == self.spec_model_path(),
    {
        self.model_path.clone()
    }

    /// The path to load a transcriber from before transcribing, or `None`
    /// when one is loaded already.
    pub fn path_to_load(&self) -> (res: Option<String>)
        ensures
            opt_string_view(res) == spec_path_to_load(*self),
    {
        if self.inner.is_none() {
            Some(self.model_path.clone())
        } else {
            None
        }
    }

    /// Keeps a freshly loaded transcriber for later runs.
    pub fn store_loaded(&mut self, transcriber: T)
        ensures
            final(self).spec_loaded() == Some(transcriber),
            final(self).spec_model_path() == old(self).spec_model_path(),
    {
        self.inner = Some(transcriber);
    }

    /// The loaded transcriber, if any.
    pub fn loaded(&self) -> (res: Option<&T>)
        ensures
            match self.spec_loaded() {
                Some(t) => res == Some(&t),
                None => res is None,
            },
    {
        match &self.inner {
            Some(t) => Some(t),
            None => None,
        }
    }
}

/// The path a transcription loads from before it runs: the model path when
/// nothing is loaded, none when a transcriber is ready.
pub open spec fn spec_path_to_load<T>(t: LazyTranscriber<T>) -> Option<Seq<char>> {
    if t.spec_loaded() is None {
        Some(t.spec_model_path())
    } else {
        None
    }
}

/// Right after the model path is set to `path` (the state `set_model_path`
/// leaves), the next transcription loads from `path`; right after a
/// transcriber is stored (the state `store_loaded` leaves), nothing is loaded
/// again and the path is kept.
pub proof fn law_reload_after_path_change<T>(after_set: LazyTranscriber<T>, path: Seq<char>, before_store: LazyTranscriber<T>, after_store: LazyTranscriber<T>, loaded: T)
    requires
        after_set.spec_model_path() == path,
        after_set.spec_loaded() is None,
        after_store.spec_loaded() == Some(loaded),
        after_store.spec_model_path() == before_store.spec_model_path(),
    ensures
        spec_path_to_load(after_set) == Some(path),
        spec_path_to_load(after_store) is None,
        after_store.spec_model_path() == before_store.spec_model_path(),
{
}

/// The context of a model load failure, with the GPU flag it was tried with.
pub open spec fn init_context(gpu: bool) -> Seq<char> {
    if gpu {
        "WhisperContext init (gpu=true)"@
    } else {
        "WhisperContext init (gpu=false)"@
    }
}

/// The message of a failed model load with its GPU flag in front.
pub fn model_init_error(gpu: bool, err: &str) -> (res: String)
    ensures
        res@ == init_context(gpu) + ": "@ + err@,
{
    let mut s = if gpu {
        "WhisperContext init (gpu=true)".to_owned()
    } else {
        "WhisperContext init (gpu=false)".to_owned()
    };
    s.append(": ");
    s.append(err);
    s
}

/// Calls `<Path as Debug>::fmt` through `format!` on the path text. Nothing
/// is claimed of the text: std does not document how a path is quoted and
/// escaped, and it differs between platforms.
#[verifier::external_body]
fn path_debug(p: &str) -> (res: String)
{
    format!("{:?}", std::path::Path::new(p))
}

/// The message of a failed model load when neither the GPU nor the CPU
/// works, with `q` the quoted model path.
pub open spec fn load_error_text(q: Seq<char>, gpu_error: Seq<char>, cpu_error: Seq<char>) -> Seq<char> {
    "failed to load whisper model from "@ + q + " (CPU fallback after GPU error: "@ + gpu_error
        + "): "@ + cpu_error
}

/// The message of a failed model load, with `quoted_path` the model path as
/// `{:?}` renders it.
pub fn load_error_message(quoted_path: &str, gpu_error: &str, cpu_error: &str) -> (res: String)
    ensures
        res@ == load_error_text(quoted_path@, gpu_error@, cpu_error@),
{
    let mut s = "failed to load whisper model from ".to_owned();
    s.append(quoted_path);
    s.append(" (CPU fallback after GPU error: ");
    s.append(gpu_error);
    s.append("): ");
    s.append(cpu_error);
    s
}

/// The message when the model loads neither on the GPU nor on the CPU: the
/// path as `{:?}` renders a `Path`, the GPU error, then the CPU error
/// (`load_error_message`).
pub fn model_load_error(model_path: &str, gpu_error: &str, cpu_error: &str) -> (res: String)
    ensures
        exists|q: Seq<char>| res@ == #[trigger] load_error_text(q, gpu_error@, cpu_error@),
{
    let quoted = path_debug(model_path);
    load_error_message(quoted.as_str(), gpu_error, cpu_error)
}

/// What a model load leads to.
#[derive(Debug)]
pub enum LoadStep {
    /// Try the GPU; on failure the CPU is tried.
    TryGpu,
    /// The GPU load failed with this message: try the CPU.
    TryCpu { gpu_error: String },
    /// Loaded.
    Loaded,
    /// Both loads failed.
    Failed(String),
}

/// The next step of a model load after the attempt `step` ended with
/// `outcome`: a GPU failure falls back to the CPU, a CPU failure gives up
/// with both errors.
pub fn next_load_step(model_path: &str, step: LoadStep, outcome: Result<(), String>) -> (res: LoadStep)
    ensures
        match (step, outcome) {
            (LoadStep::TryGpu, Ok(())) => res is Loaded,
            (LoadStep::TryGpu, Err(e)) => (res matches LoadStep::TryCpu { gpu_error } && gpu_error@ == e@),
            (LoadStep::TryCpu { .. }, Ok(())) => res is Loaded,
            (LoadStep::TryCpu { gpu_error }, Err(e)) => (res matches LoadStep::Failed(m) && exists|q: Seq<char>|
                m@ == #[trigger] load_error_text(q, gpu_error@, e@)),
            (LoadStep::Loaded, _) => res is Loaded,
            (LoadStep::Failed(m), _) => (res matches LoadStep::Failed(m2) && m2@ == m@),
        },
{
    match (step, outcome) {
        (LoadStep::TryGpu, Ok(())) => LoadStep::Loaded,
        (LoadStep::TryGpu, Err(e)) => LoadStep::TryCpu { gpu_error: e },
        (LoadStep::TryCpu { .. }, Ok(())) => LoadStep::Loaded,
        (LoadStep::TryCpu { gpu_error }, Err(e)) => LoadStep::Failed(
            model_load_error(model_path, gpu_error.as_str(), e.as_str()),
        ),
        (LoadStep::Loaded, _) => LoadStep::Loaded,
        (LoadStep::Failed(m), _) => LoadStep::Failed(m),
    }
}

/// Calls `num_cpus::get`. Claimed, as its documentation says: at least 1.
#[verifier::external_body]
fn logical_cpus() -> (res: usize)
    ensures
        res >= 1,
{
    num_cpus::get()
}

/// `n` converted to `i32` the way `as` does it.
pub open spec fn as_i32(n: usize) -> i32 {
    n as i32
}

/// The number of logical CPUs, as `num_cpus::get` reports it: at least 1.
pub fn available_cpus() -> (res: usize)
    ensures
        res >= 1,
{
    logical_cpus()
}

/// The parameters of one transcription run.
#[derive(Debug)]
pub struct WhisperRun {
    /// Greedy decoding with this many candidates.
    pub best_of: i32,
    pub n_threads: i32,
    /// `None` lets the model detect the language.
    pub language: Option<String>,
    pub translate: bool,
    pub print_progress: bool,
    pub print_realtime: bool,
    pub print_special: bool,
    pub print_timestamps: bool,
    pub initial_prompt: Option<String>,
}

pub open spec fn opt_str_view(o: Option<&str>) -> Option<Seq<char>> {
    match o {
        Some(s) => Some(s@),
        None => None,
    }
}

pub open spec fn opt_string_view(o: Option<String>) -> Option<Seq<char>> {
    match o {
        Some(s) => Some(s@),
        None => None,
    }
}

/// The initial prompt handed to the model: the prompt trimmed, or none when
/// it is absent or blank.
pub open spec fn spec_initial_prompt(prompt: Option<Seq<char>>) -> Option<Seq<char>> {
    match prompt {
        Some(p) => if trimmed(p).len() == 0 {
            None
        } else {
            Some(trimmed(p))
        },
        None => None,
    }
}

/// The parameters of a run on `cpus` logical CPUs (see `available_cpus`):
/// greedy with one candidate, one thread per CPU, the language hint as
/// given, no translation, no printing, and the trimmed prompt when it is not
/// blank.
pub fn whisper_run(language: Option<&str>, initial_prompt: Option<&str>, cpus: usize) -> (res: WhisperRun)
    ensures
        res.best_of == 1,
        res.n_threads == as_i32(cpus),
        opt_string_view(res.language) == opt_str_view(language),
        !res.translate && !res.print_progress && !res.print_realtime && !res.print_special
            && !res.print_timestamps,
        opt_string_view(res.initial_prompt) == spec_initial_prompt(opt_str_view(initial_prompt)),
{
    #[verifier::truncate]
    let threads = cpus as i32;
    assert(threads == as_i32(cpus));
    let prompt = match initial_prompt {
        Some(p) => {
            let t = trim(p);
            if t.unicode_len() == 0 {
                None
            } else {
                Some(t.to_owned())
            }
        },
        None => None,
    };
    WhisperRun {
        best_of: 1,
        n_threads: threads,
        language: match language {
            Some(l) => Some(l.to_owned()),
            None => None,
        },
        translate: false,
        print_progress: false,
        print_realtime: false,
        print_special: false,
        print_timestamps: false,
        initial_prompt: prompt,
    }
}

/// Whether a recording is worth a run: one without samples gives empty text.
pub fn needs_inference(sample_count: usize) -> (res: bool)
    ensures
        res == (sample_count > 0),
{
    sample_count > 0
}

/// The concatenation of the segments whose text could be read.
pub open spec fn joined_segments(segments: Seq<Option<String>>) -> Seq<char>
    decreases segments.len(),
{
    if segments.len() == 0 {
        Seq::empty()
    } else {
        joined_segments(segments.drop_last()) + match segments.last() {
            Some(s) => s@,
            None => Seq::empty(),
        }
    }
}

/// Each readable segment's text is appended after the text before it,
/// whatever its position; a segment whose text cannot be read adds
/// nothing; and joining two runs of segments one after the other joins
/// their texts.
pub proof fn law_segments_append(s: Seq<Option<String>>, x: String, t: Seq<Option<String>>)
    ensures
        joined_segments(s.push(Some(x))) == joined_segments(s) + x@,
        joined_segments(s.push(None)) == joined_segments(s),
        joined_segments(s + t) == joined_segments(s) + joined_segments(t),
    decreases t.len(),
{
    assert(s.push(Some(x)).drop_last() =~= s);
    assert(s.push(None::<String>).drop_last() =~= s);
    assert(joined_segments(s) + Seq::<char>::empty() =~= joined_segments(s));
    if t.len() == 0 {
        assert(s + t =~= s);
        assert(joined_segments(s) + joined_segments(t) =~= joined_segments(s));
    } else {
        law_segments_append(s, x, t.drop_last());
        assert((s + t).drop_last() =~= s + t.drop_last());
        assert((s + t).last() == t.last());
        let tail: Seq<char> = match t.last() {
            Some(v) => v@,
            None => Seq::empty(),
        };
        assert(joined_segments(s) + joined_segments(t.drop_last()) + tail =~= joined_segments(s) + (
        joined_segments(t.drop_last()) + tail));
    }
}

/// The transcription text: the readable segments in order, joined, then
/// trimmed.
pub fn segment_text(segments: &Vec<Option<String>>) -> (res: String)
    ensures
        res@ == trimmed(joined_segments(segments@)),
{
    let mut text = String::new();
    let mut i: usize = 0;
    while i < segments.len()
        invariant
            0 <= i <= segments@.len(),
            text@ == joined_segments(segments@.subrange(0, i as int)),
        decreases segments.len() - i,
    {
        assert(segments@.subrange(0, i + 1).drop_last() =~= segments@.subrange(0, i as int));
        if let Some(s) = &segments[i] {
            text.append(s.as_str());
        } else {
            assert(text@ =~= text@ + Seq::<char>::empty());
        }
        i = i + 1;
    }
    assert(segments@.subrange(0, segments@.len() as int) =~= segments@);
    trim(text.as_str()).to_owned()
}

} // verus!
