//! Saving and loading the parameters of a simulation: the text of the
//! parameter file, its name, and what a loaded file does to the state.
use vstd::prelude::*;
use vstd::string::StrSliceExecFns;
use crate::params::{ParamChange, ParamState, find_param, name_seq, position_of};
use crate::text::{dec, join, join_strings, push, push_dec, text};

verus! {

// ---------------------------------------------------------------------------
// Saving
// ---------------------------------------------------------------------------

pub open spec fn initial_entry_text(name: Seq<char>, value: Seq<char>) -> Seq<char> {
    "    \""@ + name + "\": "@ + value
}

pub open spec fn history_entry_text(tick: u32, param: Seq<char>, value: Seq<char>) -> Seq<char> {
    "    {\"tick\": "@ + dec(tick as nat) + ", \"param\": \""@ + param + "\", \"value\": "@ + value + "}"@
}

/// The parameter file: the default of every parameter (`names[i]` with the
/// numeral `values[i]`, for as many as both lists have) under `"initial"`,
/// and the recorded changes, with their values' numerals, under `"history"`.
pub open spec fn params_json_text(names: Seq<Seq<char>>, values: Seq<Seq<char>>, history: Seq<ParamChange<String>>) -> Seq<char> {
    let n = if names.len() <= values.len() { names.len() } else { values.len() };
    let initial = "{\n"@ + join(Seq::new(n, |i: int| initial_entry_text(names[i], values[i])), ",\n"@) + "\n  }"@;
    let hist = "[\n"@ + join(Seq::new(history.len(), |i: int|
        history_entry_text(history[i].tick, history[i].param@, history[i].value@)), ",\n"@) + "\n  ]"@;
    "{\n  \"initial\": "@ + initial + ",\n  \"history\": "@ + hist + "\n}"@
}

fn initial_entry(name: &str, value: &str) -> (r: String)
    ensures
        r@ == initial_entry_text(name@, value@),
{
    let mut s = text("    \"");
    push(&mut s, name);
    push(&mut s, "\": ");
    push(&mut s, value);
    s
}

fn history_entry(c: &ParamChange<String>) -> (r: String)
    ensures
        r@ == history_entry_text(c.tick, c.param@, c.value@),
{
    let mut s = text("    {\"tick\": ");
    push_dec(&mut s, c.tick as u64);
    push(&mut s, ", \"param\": \"");
    push(&mut s, c.param.as_str());
    push(&mut s, "\", \"value\": ");
    push(&mut s, c.value.as_str());
    push(&mut s, "}");
    s
}

/// The text of the parameter file (see [`params_json_text`]); the numerals
/// of the values are given.
pub fn params_json(names: &Vec<String>, values: &Vec<String>, history: &Vec<ParamChange<String>>) -> (r: String)
    ensures
        r@ == params_json_text(name_seq(names@), name_seq(values@), history@),
{
    let n = if names.len() <= values.len() { names.len() } else { values.len() };
    let ghost ns = name_seq(names@);
    let ghost vs = name_seq(values@);
    let mut entries: Vec<String> = Vec::new();
    let mut i: usize = 0;
    while i < n
        invariant
            n <= names.len(),
            n <= values.len(),
            ns == name_seq(names@),
            vs == name_seq(values@),
            0 <= i <= n,
            entries.deep_view() == Seq::new(i as nat, |k: int| initial_entry_text(ns[k], vs[k])),
        decreases n - i,
    {
        let e = initial_entry(names[i].as_str(), values[i].as_str());
        let ghost before = entries.deep_view();
        entries.push(e);
        proof {
            assert(entries.deep_view() =~= before.push(e@));
            assert(ns[i as int] == names@[i as int]@ && vs[i as int] == values@[i as int]@);
            assert(entries.deep_view() =~= Seq::new(i as nat + 1, |k: int| initial_entry_text(ns[k], vs[k])));
        }
        i = i + 1;
    }
    let mut hist: Vec<String> = Vec::new();
    let m = history.len();
    let mut j: usize = 0;
    while j < m
        invariant
            m == history.len(),
            0 <= j <= m,
            hist.deep_view() == Seq::new(j as nat, |k: int|
                history_entry_text(history@[k].tick, history@[k].param@, history@[k].value@)),
        decreases m - j,
    {
        let e = history_entry(&history[j]);
        let ghost before = hist.deep_view();
        hist.push(e);
        proof {
            assert(hist.deep_view() =~= before.push(e@));
            assert(hist.deep_view() =~= Seq::new(j as nat + 1, |k: int|
                history_entry_text(history@[k].tick, history@[k].param@, history@[k].value@)));
        }
        j = j + 1;
    }
    let initial_body = join_strings(&entries, ",\n");
    let history_body = join_strings(&hist, ",\n");
    let mut s = text("{\n  \"initial\": ");
    push(&mut s, "{\n");
    push(&mut s, initial_body.as_str());
    push(&mut s, "\n  }");
    push(&mut s, ",\n  \"history\": ");
    push(&mut s, "[\n");
    push(&mut s, history_body.as_str());
    push(&mut s, "\n  ]");
    push(&mut s, "\n}");
    assert(s@ =~= params_json_text(ns, vs, history@));
    s
}

/// What `str::to_lowercase` returns for a text.
pub uninterp spec fn lowercase(s: Seq<char>) -> Seq<char>;

/// The lowercase form of a text, by `str::to_lowercase` (Unicode's full
/// lowercase mapping). The contract says only that the result is
/// [`lowercase`] of the argument.
#[verifier::external_body]
fn to_lowercase(s: &str) -> (r: String)
    ensures
        r@ == lowercase(s@),
{
    s.to_lowercase()
}

/// `s` with every space replaced by an underscore.
pub open spec fn underscored(s: Seq<char>) -> Seq<char> {
    s.map_values(|c: char| if c == ' ' { '_' } else { c })
}

/// The name of the file a simulation's parameters are saved to.
pub open spec fn params_file_name_text(title: Seq<char>) -> Seq<char> {
    underscored(lowercase(title)) + "_params.json"@
}

/// The name of the file a simulation's parameters are saved to: the title in
/// lowercase, spaces as underscores, then `_params.json`.
pub fn params_file_name(title: &str) -> (r: String)
    ensures
        r@ == params_file_name_text(title@),
{
    let lower = to_lowercase(title);
    let l = lower.as_str();
    let n = l.unicode_len();
    let mut out = String::new();
    let mut i: usize = 0;
    let mut start: usize = 0;
    while i < n
        invariant
            n == l@.len(),
            l@ == lowercase(title@),
            0 <= start <= i <= n,
            out@ + l@.subrange(start as int, i as int) == underscored(l@.take(i as int)),
            forall|k: int| start <= k < i ==> l@[k] != ' ',
        decreases n - i,
    {
        let c = l.get_char(i);
        proof {
            assert(l@.take(i as int + 1) =~= l@.take(i as int).push(c));
            assert(underscored(l@.take(i as int + 1)) =~= underscored(l@.take(i as int)).push(if c == ' ' { '_' } else { c }));
        }
        if c == ' ' {
            push(&mut out, l.substring_char(start, i));
            push(&mut out, "_");
            proof { reveal_strlit("_"); }
            start = i + 1;
            i = i + 1;
            assert(l@.subrange(start as int, i as int) =~= Seq::<char>::empty());
        } else {
            proof {
                assert(l@.subrange(start as int, i as int + 1) =~= l@.subrange(start as int, i as int).push(c));
            }
            i = i + 1;
        }
    }
    push(&mut out, l.substring_char(start, n));
    assert(l@.take(n as int) =~= l@);
    push(&mut out, "_params.json");
    out
}

// ---------------------------------------------------------------------------
// Loading
// ---------------------------------------------------------------------------

/// One recorded change as read from a file: each part is absent when the
/// file does not give it in the expected form.
pub struct HistoryEntry<V> {
    /// A non-negative integer tick.
    pub tick: Option<u64>,
    pub param: Option<String>,
    /// A numeric value.
    pub value: Option<V>,
}

/// What the logic reads of a parameter file.
pub enum ParamsFile<V> {
    /// An object with an `"initial"` object: its entries (a value is absent
    /// when it is not a number) and, when `"history"` is an array, its entries.
    Recorded { initial: Vec<(String, Option<V>)>, history: Option<Vec<HistoryEntry<V>>> },
    /// Any other object, read as a flat map from names to values.
    Flat(Vec<(String, Option<V>)>),
    /// Not an object.
    Other,
}

/// `values` with each entry of `entries[i..]` that names a parameter and
/// carries a value applied, in order.
pub open spec fn apply_entries<V>(values: Seq<V>, names: Seq<Seq<char>>, entries: Seq<(String, Option<V>)>, i: int) -> Seq<V>
    decreases entries.len() - i,
{
    if 0 <= i < entries.len() {
        let next = match (position_of(names, entries[i].0@), entries[i].1) {
            (Some(k), Some(v)) => values.update(k, v),
            _ => values,
        };
        apply_entries(next, names, entries, i + 1)
    } else {
        values
    }
}

/// Every entry that carries a value for a known parameter names one with a
/// value slot.
pub open spec fn entries_fit<V>(n_values: nat, names: Seq<Seq<char>>, entries: Seq<(String, Option<V>)>) -> bool {
    forall|k: int| 0 <= k < entries.len() ==>
        ((#[trigger] entries[k]).1 is Some ==> (position_of(names, entries[k].0@) matches Some(i) ==> i < n_values))
}

/// The values a parameter file gives fit the parameters they name.
pub open spec fn file_fits<V>(n_values: nat, names: Seq<Seq<char>>, file: ParamsFile<V>) -> bool {
    match file {
        ParamsFile::Recorded { initial, .. } => entries_fit(n_values, names, initial@),
        ParamsFile::Flat(entries) => entries_fit(n_values, names, entries@),
        ParamsFile::Other => true,
    }
}

/// The replay read from the history entries `h[i..]`, after `acc`: the
/// complete entries, their ticks truncated to `u32`.
pub open spec fn replay_of<V>(h: Seq<HistoryEntry<V>>, i: int, acc: Seq<ParamChange<V>>) -> Seq<ParamChange<V>>
    decreases h.len() - i,
{
    if 0 <= i < h.len() {
        let e = h[i];
        let next = match (e.tick, e.param, e.value) {
            (Some(t), Some(p), Some(v)) => acc.push(ParamChange { tick: t as u32, param: p, value: v }),
            _ => acc,
        };
        replay_of(h, i + 1, next)
    } else {
        acc
    }
}

impl<V: Copy> ParamState<V> {
    fn apply_loaded_entries(&mut self, entries: &Vec<(String, Option<V>)>)
        requires
            entries_fit(old(self).values.len() as nat, name_seq(old(self).names@), entries@),
        ensures
            final(self).values@ == apply_entries(old(self).values@, name_seq(old(self).names@), entries@, 0),
            final(self).history@ == old(self).history@,
            final(self).replay@ == old(self).replay@,
            final(self).replay_cursor == old(self).replay_cursor,
            final(self).same_setup(&*old(self)),
    {
        let ghost names = name_seq(self.names@);
        let n = entries.len();
        let mut i: usize = 0;
        while i < n
            invariant
                n == entries.len(),
                0 <= i <= n,
                names == name_seq(self.names@),
                entries_fit(self.values.len() as nat, names, entries@),
                apply_entries(old(self).values@, names, entries@, 0) == apply_entries(self.values@, names, entries@, i as int),
                self.history@ == old(self).history@,
                self.replay@ == old(self).replay@,
                self.replay_cursor == old(self).replay_cursor,
                self.same_setup(&*old(self)),
            decreases n - i,
        {
            let found = find_param(&self.names, entries[i].0.as_str());
            proof {
                crate::params::lemma_position_in_bounds(names, entries@[i as int].0@);
                assert(entries@[i as int] == entries@[i as int]);
            }
            match (found, entries[i].1) {
                (Some(k), Some(v)) => {
                    self.values[k] = v;
                }
                _ => {}
            }
            i = i + 1;
        }
    }

    /// Applies a loaded parameter file: the values it gives for known
    /// parameters, and, for a recorded file with a history, the history as
    /// the replay, from its start.
    pub fn load_params(&mut self, file: ParamsFile<V>)
        requires
            file_fits(old(self).values.len() as nat, name_seq(old(self).names@), file),
        ensures
            final(self).values@ == match file {
                ParamsFile::Recorded { initial, .. } => apply_entries(old(self).values@, name_seq(old(self).names@), initial@, 0),
                ParamsFile::Flat(entries) => apply_entries(old(self).values@, name_seq(old(self).names@), entries@, 0),
                ParamsFile::Other => old(self).values@,
            },
            final(self).replay@ == match file {
                ParamsFile::Recorded { history: Some(h), .. } => replay_of(h@, 0, Seq::empty()),
                _ => old(self).replay@,
            },
            final(self).replay_cursor == match file {
                ParamsFile::Recorded { history: Some(_), .. } => 0,
                _ => old(self).replay_cursor,
            },
            final(self).history@ == old(self).history@,
            final(self).defaults@ == old(self).defaults@,
            final(self).names@ == old(self).names@,
            final(self).selected == old(self).selected,
            final(self).title@ == old(self).title@,
            final(self).running == old(self).running,
            final(self).tick == old(self).tick,
    {
        match file {
            ParamsFile::Recorded { initial, history } => {
                self.apply_loaded_entries(&initial);
                if let Some(h) = history {
                    self.replay.clear();
                    self.replay_cursor = 0;
                    let n = h.len();
                    let mut i: usize = 0;
                    let ghost v1 = self.values@;
                    assert(self.replay@ =~= Seq::<ParamChange<V>>::empty());
                    while i < n
                        invariant
                            n == h.len(),
                            0 <= i <= n,
                            self.values@ == v1,
                            v1 == apply_entries(old(self).values@, name_seq(old(self).names@), initial@, 0),
                            self.replay_cursor == 0,
                            self.history@ == old(self).history@,
                            self.defaults@ == old(self).defaults@,
                            self.names@ == old(self).names@,
                            self.selected == old(self).selected,
                            self.title@ == old(self).title@,
                            self.running == old(self).running,
                            self.tick == old(self).tick,
                            replay_of(h@, 0, Seq::empty()) == replay_of(h@, i as int, self.replay@),
                        decreases n - i,
                    {
                        let e = &h[i];
                        match (e.tick, &e.param, e.value) {
                            (Some(t), Some(p), Some(v)) => {
                                self.replay.push(ParamChange { tick: #[verifier::truncate] (t as u32), param: p.clone(), value: v });
                            }
                            _ => {}
                        }
                        i = i + 1;
                    }
                }
            }
            ParamsFile::Flat(entries) => {
                self.apply_loaded_entries(&entries);
            }
            ParamsFile::Other => {}
        }
    }
}

// ---------------------------------------------------------------------------
// Properties
// ---------------------------------------------------------------------------

/// Every entry of a loaded history carries a tick that fits in `u32`, a
/// parameter and a value.
pub open spec fn complete_history<V>(h: Seq<HistoryEntry<V>>) -> bool {
    forall|k: int| 0 <= k < h.len() ==> {
        &&& (#[trigger] h[k]).tick matches Some(t) && t <= u32::MAX
        &&& h[k].param is Some
        &&& h[k].value is Some
    }
}

proof fn lemma_complete_replay<V>(h: Seq<HistoryEntry<V>>, i: int, acc: Seq<ParamChange<V>>)
    requires
        complete_history(h),
        0 <= i <= h.len(),
        acc.len() == i,
    ensures
        replay_of(h, i, acc).len() == h.len(),
        forall|k: int| 0 <= k < i ==> replay_of(h, i, acc)[k] == acc[k],
        forall|k: int| i <= k < h.len() ==> #[trigger] replay_of(h, i, acc)[k] == (ParamChange {
            tick: h[k].tick->Some_0 as u32,
            param: h[k].param->Some_0,
            value: h[k].value->Some_0,
        }),
    decreases h.len() - i,
{
    if i < h.len() {
        let e = h[i];
        let c = ParamChange { tick: e.tick->Some_0 as u32, param: e.param->Some_0, value: e.value->Some_0 };
        lemma_complete_replay(h, i + 1, acc.push(c));
        assert(acc.push(c)[i] == c);
        assert forall|k: int| 0 <= k < i implies replay_of(h, i, acc)[k] == acc[k] by {
            assert(acc.push(c)[k] == acc[k]);
        }
    }
}

/// A loaded history whose entries are all complete becomes the replay
/// entry for entry: the same ticks, parameters and values, in order.
pub proof fn law_complete_history_replays_entry_for_entry<V>(h: Seq<HistoryEntry<V>>)
    requires
        complete_history(h),
    ensures
        replay_of(h, 0, Seq::empty()).len() == h.len(),
        (forall|k: int| 0 <= k < h.len() ==> {
            &&& (#[trigger] replay_of(h, 0, Seq::empty())[k]).tick as u64 == h[k].tick->Some_0
            &&& replay_of(h, 0, Seq::empty())[k].param == h[k].param->Some_0
            &&& replay_of(h, 0, Seq::empty())[k].value == h[k].value->Some_0
        }),
{
    lemma_complete_replay(h, 0, Seq::empty());
    assert forall|k: int| 0 <= k < h.len() implies {
        &&& (#[trigger] replay_of(h, 0, Seq::empty())[k]).tick as u64 == h[k].tick->Some_0
        &&& replay_of(h, 0, Seq::empty())[k].param == h[k].param->Some_0
        &&& replay_of(h, 0, Seq::empty())[k].value == h[k].value->Some_0
    } by {
        assert(h[k].tick matches Some(t) && t <= u32::MAX);
    }
}

} // verus!
