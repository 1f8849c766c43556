//! Settings and transcription history: their values, their defaults, and the
//! rules by which the history list grows, shrinks and is searched.

use vstd::prelude::*;
use crate::text::same_text;

verus! {

/// The value of `max_history` when a settings file does not name one.
pub fn default_max_history() -> (res: usize)
    ensures
        res == 200,
{
    200
}

/// The value of `common_words` when a settings file does not name one.
pub fn default_common_words() -> (res: String)
    ensures
        res@ == Seq::<char>::empty(),
{
    String::new()
}

/// The value of `show_overlay` when a settings file does not name one.
pub fn default_show_overlay() -> (res: bool)
    ensures
        res == true,
{
    true
}

/// User settings.
#[derive(Debug)]
pub struct Settings {
    /// Hotkey accelerator string, such as `CapsLock` or `Ctrl+Space`.
    pub hotkey: String,
    /// Path of the GGML whisper model file.
    pub model_path: String,
    /// Whisper language hint; `None` lets the model detect the language.
    pub language: Option<String>,
    /// Whether to simulate Ctrl+V after a transcription.
    pub auto_paste: bool,
    /// How many entries the history keeps; older ones are pruned.
    pub max_history: usize,
    /// Preferred input device name; `None` uses the default device.
    pub input_device: Option<String>,
    /// Words that the model should recognise, fed as its initial prompt.
    pub common_words: String,
    /// Whether the floating overlay shows while recording.
    pub show_overlay: bool,
}

impl Settings {
    /// The settings a first start uses, given the model path that was found.
    pub open spec fn spec_defaults(model_path: Seq<char>) -> (Seq<char>, Seq<char>, Option<Seq<char>>, bool, usize, Option<Seq<char>>, Seq<char>, bool) {
        ("CapsLock"@, model_path, None, true, 200, None, Seq::<char>::empty(), true)
    }

    /// The settings as a tuple of plain values.
    pub open spec fn spec_fields(&self) -> (Seq<char>, Seq<char>, Option<Seq<char>>, bool, usize, Option<Seq<char>>, Seq<char>, bool) {
        (
            self.hotkey@,
            self.model_path@,
            match self.language {
                Some(l) => Some(l@),
                None => None,
            },
            self.auto_paste,
            self.max_history,
            match self.input_device {
                Some(d) => Some(d@),
                None => None,
            },
            self.common_words@,
            self.show_overlay,
        )
    }

    /// The default settings around the model path that the search found:
    /// hotkey `CapsLock`, language detected, auto-paste on, 200 history
    /// entries, default input device, no common words, overlay shown.
    pub fn default_with_model_path(model_path: String) -> (res: Settings)
        ensures
            res.spec_fields() == Self::spec_defaults(model_path@),
    {
        Settings {
            hotkey: "CapsLock".to_owned(),
            model_path,
            language: None,
            auto_paste: true,
            max_history: default_max_history(),
            input_device: None,
            common_words: default_common_words(),
            show_overlay: default_show_overlay(),
        }
    }
}

/// A point in time: seconds since the Unix epoch and the nanoseconds past
/// that second, both in UTC.
#[derive(Debug, Clone, Copy, PartialEq, Eq, Structural)]
pub struct Timestamp {
    pub secs: i64,
    pub nanos: u32,
}

/// One transcription in the history.
#[derive(Debug)]
pub struct HistoryEntry {
    pub id: String,
    pub timestamp: Timestamp,
    pub text: String,
    pub audio_path: String,
    pub model: String,
    pub duration_ms: u64,
    /// Title of the foreground window when the recording started, if known.
    pub window_title: Option<String>,
}

/// The last `max` entries of `s`, or all of them when there are no more.
pub open spec fn keep_newest(s: Seq<HistoryEntry>, max: nat) -> Seq<HistoryEntry> {
    if s.len() > max {
        s.skip(s.len() - max)
    } else {
        s
    }
}

/// Appends `entry` and drops the oldest entries beyond `max`.
pub fn append_pruned(hist: &mut Vec<HistoryEntry>, entry: HistoryEntry, max: usize)
    ensures
        final(hist)@ == keep_newest(old(hist)@.push(entry), max as nat),
{
    hist.push(entry);
    if hist.len() > max {
        let drain_count = hist.len() - max;
        let tail = hist.split_off(drain_count);
        *hist = tail;
    }
}

/// `s` without the entries whose id is `id`, in their order.
pub open spec fn without_id(s: Seq<HistoryEntry>, id: Seq<char>) -> Seq<HistoryEntry>
    decreases s.len(),
{
    if s.len() == 0 {
        s
    } else {
        let rest = without_id(s.drop_last(), id);
        if s.last().id@ == id {
            rest
        } else {
            rest.push(s.last())
        }
    }
}

proof fn lemma_without_id_step(s: Seq<HistoryEntry>, id: Seq<char>, k: int)
    requires
        0 <= k < s.len(),
    ensures
        without_id(s.take(k + 1), id) == if s[k].id@ == id {
            without_id(s.take(k), id)
        } else {
            without_id(s.take(k), id).push(s[k])
        },
{
    assert(s.take(k + 1).drop_last() =~= s.take(k));
}

/// Removes every entry whose id is `id`; the others keep their order.
pub fn remove_entries_with_id(hist: &mut Vec<HistoryEntry>, id: &str)
    ensures
        final(hist)@ == without_id(old(hist)@, id@),
{
    let ghost orig = hist@;
    let mut i: usize = 0;
    let ghost mut k: int = 0;
    assert(orig.take(0) =~= Seq::<HistoryEntry>::empty());
    assert(orig.skip(0) =~= orig);
    assert(hist@ =~= without_id(orig.take(0), id@) + orig.skip(0));
    while i < hist.len()
        invariant
            0 <= k <= orig.len(),
            i == without_id(orig.take(k), id@).len(),
            hist@ == without_id(orig.take(k), id@) + orig.skip(k),
        decreases orig.len() - k,
    {
        let ghost kept = without_id(orig.take(k), id@);
        assert(hist@[i as int] == orig[k]);
        proof {
            lemma_without_id_step(orig, id@, k);
        }
        if same_text(hist[i].id.as_str(), id) {
            hist.remove(i);
            proof {
                assert(hist@ =~= kept + orig.skip(k + 1));
                k = k + 1;
            }
        } else {
            i = i + 1;
            proof {
                assert(hist@ =~= kept.push(orig[k]) + orig.skip(k + 1));
                k = k + 1;
            }
        }
    }
    proof {
        assert(orig.skip(k).len() == 0);
        assert(k == orig.len());
        assert(orig.take(k) =~= orig);
        assert(hist@ =~= without_id(orig, id@));
    }
}

/// Whether some entry of `s` has the id `id`.
pub open spec fn has_id(s: Seq<HistoryEntry>, id: Seq<char>) -> bool {
    exists|i: int| 0 <= i < s.len() && (#[trigger] s[i]).id@ == id
}

/// The index of the first entry of `s` whose id is `id`.
pub open spec fn first_with_id(s: Seq<HistoryEntry>, id: Seq<char>) -> int
    recommends
        has_id(s, id),
{
    choose|i: int|
        0 <= i < s.len() && (#[trigger] s[i]).id@ == id && forall|j: int|
            0 <= j < i ==> (#[trigger] s[j]).id@ != id
}

/// The error that a copy of an unknown entry reports.
pub open spec fn entry_not_found() -> Seq<char> {
    "history entry not found"@
}

/// The text of the first entry whose id is `id`, as a copy to the
/// clipboard takes it, or the error `history entry not found`.
pub fn find_entry_text(hist: &Vec<HistoryEntry>, id: &str) -> (res: Result<String, String>)
    ensures
        has_id(hist@, id@) ==> (res matches Ok(t) && t@ == hist@[first_with_id(hist@, id@)].text@),
        !has_id(hist@, id@) ==> (res matches Err(e) && e@ == entry_not_found()),
{
    let mut i: usize = 0;
    while i < hist.len()
        invariant
            0 <= i <= hist.len(),
            forall|j: int| 0 <= j < i ==> (#[trigger] hist@[j]).id@ != id@,
        decreases hist.len() - i,
    {
        if same_text(hist[i].id.as_str(), id) {
            proof {
                assert(hist@[i as int].id@ == id@);
                let f = first_with_id(hist@, id@);
                assert(has_id(hist@, id@));
                if f != i {
                    if f < i {
                        assert(hist@[f].id@ != id@);
                    } else {
                        assert(hist@[i as int].id@ != id@);
                    }
                }
            }
            return Ok(hist[i].text.clone());
        }
        i = i + 1;
    }
    Err("history entry not found".to_owned())
}

/// After an append with room for `max` entries, the history holds at most
/// `max` entries, it is the newest part of the old history followed by the
/// new entry, and the new entry is the last one whenever `max` is at least 1.
pub proof fn law_append_keeps_newest(old: Seq<HistoryEntry>, entry: HistoryEntry, max: nat)
    ensures
        keep_newest(old.push(entry), max).len() == if old.len() + 1 > max {
            max as int
        } else {
            old.len() + 1 as int
        },
        max >= 1 ==> keep_newest(old.push(entry), max).last() == entry,
        max >= 1 ==> keep_newest(old.push(entry), max) =~= keep_newest(old, (max - 1) as nat).push(
            entry,
        ),
        max == 0 ==> keep_newest(old.push(entry), max).len() == 0,
{
    let s = old.push(entry);
    if max >= 1 {
        if s.len() > max {
            assert(s.skip(s.len() - max) =~= old.skip(old.len() - (max - 1)).push(entry));
        } else {
            assert(keep_newest(old, (max - 1) as nat) =~= old);
        }
    }
}

/// Once an entry has been appended under an id that no older entry holds,
/// a lookup of that id finds that very entry (so a copy gives back its text),
/// provided the history keeps at least one entry.
pub proof fn law_lookup_after_append(old: Seq<HistoryEntry>, entry: HistoryEntry, max: nat)
    requires
        !has_id(old, entry.id@),
        max >= 1,
    ensures
        has_id(keep_newest(old.push(entry), max), entry.id@),
        keep_newest(old.push(entry), max)[first_with_id(
            keep_newest(old.push(entry), max),
            entry.id@,
        )] == entry,
{
    law_append_keeps_newest(old, entry, max);
    let s = keep_newest(old.push(entry), max);
    let kept = keep_newest(old, (max - 1) as nat);
    assert(s =~= kept.push(entry));
    let last = s.len() - 1;
    assert(s[last] == entry);
    assert forall|j: int| 0 <= j < last implies (#[trigger] s[j]).id@ != entry.id@ by {
        assert(s[j] == kept[j]);
        if old.len() > max - 1 {
            assert(kept[j] == old[j + (old.len() - (max - 1))]);
        } else {
            assert(kept[j] == old[j]);
        }
    }
    assert(has_id(s, entry.id@));
    let f = first_with_id(s, entry.id@);
    if f != last {
        assert(f < last);
    }
}

proof fn lemma_without_id_facts(s: Seq<HistoryEntry>, id: Seq<char>)
    ensures
        forall|i: int|
            0 <= i < without_id(s, id).len() ==> (#[trigger] without_id(s, id)[i]).id@ != id,
        forall|i: int|
            0 <= i < s.len() && (#[trigger] s[i]).id@ != id ==> without_id(s, id).contains(s[i]),
        forall|i: int|
            0 <= i < without_id(s, id).len() ==> s.contains(#[trigger] without_id(s, id)[i]),
    decreases s.len(),
{
    if s.len() > 0 {
        let p = s.drop_last();
        lemma_without_id_facts(p, id);
        let r = without_id(p, id);
        assert forall|i: int| 0 <= i < s.len() && (#[trigger] s[i]).id@ != id implies without_id(
            s,
            id,
        ).contains(s[i]) by {
            if i < s.len() - 1 {
                assert(p[i] == s[i]);
                let k = choose|k: int| 0 <= k < r.len() && r[k] == p[i];
                if s.last().id@ != id {
                    assert(r.push(s.last())[k] == s[i]);
                }
            } else {
                assert(r.push(s.last())[r.len() as int] == s[i]);
            }
        }
        assert forall|i: int| 0 <= i < without_id(s, id).len() implies s.contains(
            #[trigger] without_id(s, id)[i],
        ) by {
            if i < r.len() {
                assert(without_id(s, id)[i] == r[i]);
                let k = choose|k: int| 0 <= k < p.len() && p[k] == r[i];
                assert(s[k] == p[k]);
            } else {
                assert(s[s.len() - 1] == s.last());
            }
        }
    }
}

/// Deleting by id leaves no entry with that id, keeps every entry with
/// another id, brings in nothing new, and deleting again changes nothing.
pub proof fn law_delete_by_id(s: Seq<HistoryEntry>, id: Seq<char>)
    ensures
        !has_id(without_id(s, id), id),
        forall|i: int|
            0 <= i < s.len() && (#[trigger] s[i]).id@ != id ==> without_id(s, id).contains(s[i]),
        forall|i: int|
            0 <= i < without_id(s, id).len() ==> s.contains(#[trigger] without_id(s, id)[i]),
        without_id(without_id(s, id), id) == without_id(s, id),
{
    lemma_without_id_facts(s, id);
    lemma_without_id_noop(without_id(s, id), id);
}

proof fn lemma_without_id_noop(s: Seq<HistoryEntry>, id: Seq<char>)
    requires
        forall|i: int| 0 <= i < s.len() ==> (#[trigger] s[i]).id@ != id,
    ensures
        without_id(s, id) == s,
    decreases s.len(),
{
    if s.len() > 0 {
        let p = s.drop_last();
        assert forall|i: int| 0 <= i < p.len() implies (#[trigger] p[i]).id@ != id by {
            assert(p[i] == s[i]);
        }
        lemma_without_id_noop(p, id);
        assert(s.last() == s[s.len() - 1]);
        assert(p.push(s.last()) =~= s);
    }
}

/// Where the model file is searched for: a directory relative to the
/// working directory, or relative to the executable's directory.
#[derive(Debug, Clone, Copy)]
pub struct ModelSearchBase {
    pub relative: &'static str,
    pub from_exe_dir: bool,
}

/// The model file names, preferred first.
pub open spec fn spec_model_files() -> Seq<Seq<char>> {
    seq!["ggml-large-v3-turbo.bin"@, "ggml-large-v3.bin"@]
}

/// The search directories in order: four relative to the working directory,
/// then, when the executable's directory is known, four relative to it.
pub open spec fn spec_search_bases(exe_dir_known: bool) -> Seq<(Seq<char>, bool)> {
    let cwd = seq![("../models"@, false), ("models"@, false), ("../../models"@, false), ("../../../models"@, false)];
    if exe_dir_known {
        cwd + seq![("../../../models"@, true), ("../../models"@, true), ("../models"@, true), ("models"@, true)]
    } else {
        cwd
    }
}

pub open spec fn base_view(b: ModelSearchBase) -> (Seq<char>, bool) {
    (b.relative@, b.from_exe_dir)
}

/// The candidate model files in search order: every base, and within a
/// base every file name in order.
pub fn model_search_order(exe_dir_known: bool) -> (res: Vec<(ModelSearchBase, &'static str)>)
    ensures
        res@.len() == spec_search_bases(exe_dir_known).len() * 2,
        forall|i: int|
            0 <= i < res@.len() ==> base_view(#[trigger] res@[i].0) == spec_search_bases(exe_dir_known)[i / 2],
        forall|i: int| 0 <= i < res@.len() ==> (#[trigger] res@[i]).1@ == spec_model_files()[i % 2],
{
    let files: [&'static str; 2] = ["ggml-large-v3-turbo.bin", "ggml-large-v3.bin"];
    let mut bases: Vec<ModelSearchBase> = Vec::new();
    bases.push(ModelSearchBase { relative: "../models", from_exe_dir: false });
    bases.push(ModelSearchBase { relative: "models", from_exe_dir: false });
    bases.push(ModelSearchBase { relative: "../../models", from_exe_dir: false });
    bases.push(ModelSearchBase { relative: "../../../models", from_exe_dir: false });
    if exe_dir_known {
        bases.push(ModelSearchBase { relative: "../../../models", from_exe_dir: true });
        bases.push(ModelSearchBase { relative: "../../models", from_exe_dir: true });
        bases.push(ModelSearchBase { relative: "../models", from_exe_dir: true });
        bases.push(ModelSearchBase { relative: "models", from_exe_dir: true });
    }
    assert(bases@.map_values(|b: ModelSearchBase| base_view(b)) =~= spec_search_bases(exe_dir_known));
    let mut out: Vec<(ModelSearchBase, &'static str)> = Vec::new();
    let mut b: usize = 0;
    while b < bases.len()
        invariant
            0 <= b <= bases@.len(),
            bases@.map_values(|x: ModelSearchBase| base_view(x)) == spec_search_bases(exe_dir_known),
            files@.len() == 2,
            files@[0]@ == spec_model_files()[0],
            files@[1]@ == spec_model_files()[1],
            out@.len() == b * 2,
            forall|i: int|
                0 <= i < out@.len() ==> base_view(#[trigger] out@[i].0) == spec_search_bases(exe_dir_known)[i / 2]
                    && out@[i].1@ == spec_model_files()[i % 2],
        decreases bases.len() - b,
    {
        let base = bases[b];
        assert(base_view(base) == spec_search_bases(exe_dir_known)[b as int]);
        out.push((base, files[0]));
        out.push((base, files[1]));
        proof {
            assert forall|i: int|
                0 <= i < out@.len() implies base_view(#[trigger] out@[i].0) == spec_search_bases(exe_dir_known)[i / 2]
                    && out@[i].1@ == spec_model_files()[i % 2] by {
                if i >= b * 2 {
                    assert(i / 2 == b);
                }
            }
        }
        b = b + 1;
    }
    assert(out@.len() == spec_search_bases(exe_dir_known).len() * 2);
    assert(forall|i: int|
        0 <= i < out@.len() ==> base_view(#[trigger] out@[i].0) == spec_search_bases(exe_dir_known)[i / 2]
            && out@[i].1@ == spec_model_files()[i % 2]);
    assert forall|i: int| 0 <= i < out@.len() implies (#[trigger] out@[i]).1@ == spec_model_files()[i % 2] by {
        assert(base_view(out@[i].0) == spec_search_bases(exe_dir_known)[i / 2]);
    }
    out
}

/// The model search first tries the four bases relative to the working
/// directory, and then, exactly when the executable's directory is known,
/// the four bases relative to it: `../../../models`, `../../models`,
/// `../models` and `models`, the same directories the working-directory
/// search covers. Within each base both file names are tried, the turbo
/// model first.
pub proof fn law_search_order(exe_dir_known: bool, order: Seq<(ModelSearchBase, &'static str)>)
    requires
        order.len() == spec_search_bases(exe_dir_known).len() * 2,
        forall|i: int|
            0 <= i < order.len() ==> base_view(#[trigger] order[i].0) == spec_search_bases(exe_dir_known)[i / 2],
        forall|i: int| 0 <= i < order.len() ==> (#[trigger] order[i]).1@ == spec_model_files()[i % 2],
    ensures
        order.len() == (if exe_dir_known { 16int } else { 8int }),
        forall|i: int| 0 <= i < order.len() ==> (#[trigger] order[i].0).from_exe_dir == (i >= 8),
        forall|i: int|
            0 <= i < order.len() ==> (#[trigger] order[i]).1@ == (if i % 2 == 0 {
                "ggml-large-v3-turbo.bin"@
            } else {
                "ggml-large-v3.bin"@
            }),
        forall|i: int| 0 <= i && i + 1 < order.len() && i % 2 == 0 ==> #[trigger] base_view(order[i].0) == base_view(order[i + 1].0),
        exe_dir_known ==> {
            &&& order[8].0.relative@ == "../../../models"@
            &&& order[10].0.relative@ == "../../models"@
            &&& order[12].0.relative@ == "../models"@
            &&& order[14].0.relative@ == "models"@
        },
        exe_dir_known ==> forall|i: int| 0 <= i < 8 ==> exists|j: int|
            8 <= j < 16 && (#[trigger] order[i].0).relative@ == (#[trigger] order[j].0).relative@,
{
    assert(order.len() == (if exe_dir_known { 16int } else { 8int }));
    assert forall|i: int| 0 <= i < order.len() implies (#[trigger] order[i].0).from_exe_dir == (i >= 8) by {
        assert(base_view(order[i].0) == spec_search_bases(exe_dir_known)[i / 2]);
    }
    assert forall|i: int| 0 <= i && i + 1 < order.len() && i % 2 == 0 implies #[trigger] base_view(order[i].0) == base_view(order[i + 1].0) by {
        assert(base_view(order[i + 1].0) == spec_search_bases(exe_dir_known)[(i + 1) / 2]);
        assert((i + 1) / 2 == i / 2);
    }
    if exe_dir_known {
        assert(base_view(order[8].0) == spec_search_bases(exe_dir_known)[4]);
        assert(base_view(order[10].0) == spec_search_bases(exe_dir_known)[5]);
        assert(base_view(order[12].0) == spec_search_bases(exe_dir_known)[6]);
        assert(base_view(order[14].0) == spec_search_bases(exe_dir_known)[7]);
        assert forall|i: int| 0 <= i < 8 implies exists|j: int|
            8 <= j < 16 && (#[trigger] order[i].0).relative@ == (#[trigger] order[j].0).relative@ by {
            assert(base_view(order[i].0) == spec_search_bases(exe_dir_known)[i / 2]);
            if i / 2 == 0 {
                assert(order[i].0.relative@ == order[12].0.relative@);
            } else if i / 2 == 1 {
                assert(order[i].0.relative@ == order[14].0.relative@);
            } else if i / 2 == 2 {
                assert(order[i].0.relative@ == order[10].0.relative@);
            } else {
                assert(order[i].0.relative@ == order[8].0.relative@);
            }
        }
    }
}

/// The index of the first candidate that exists, if any.
pub fn first_existing(exists: &Vec<bool>) -> (res: Option<usize>)
    ensures
        match res {
            Some(i) => i < exists@.len() && exists@[i as int] && forall|j: int| 0 <= j < i ==> !exists@[j],
            None => forall|j: int| 0 <= j < exists@.len() ==> !exists@[j],
        },
{
    let mut i: usize = 0;
    while i < exists.len()
        invariant
            0 <= i <= exists@.len(),
            forall|j: int| 0 <= j < i ==> !exists@[j],
        decreases exists.len() - i,
    {
        if exists[i] {
            return Some(i);
        }
        i = i + 1;
    }
    None
}

/// The model path used when no candidate exists.
pub fn fallback_model_path() -> (res: &'static str)
    ensures
        res@ == "../models/ggml-large-v3-turbo.bin"@,
{
    "../models/ggml-large-v3-turbo.bin"
}

} // verus!
