use vstd::prelude::*;

use std::collections::VecDeque;

use crate::text::{contains_seq, contains_str, lowercase, push_char, push_decimal, push_str, to_lowercase};
use crate::ui::logs::ring_pushed;

verus! {

broadcast use vstd::std_specs::vecdeque::group_vec_dequeue_axioms;

/// How many received frames are kept; older ones are dropped first.
pub const INSPECTOR_CAPACITY: usize = 1000;

/// One frame received from the radio: a running number, the time it came
/// (milliseconds since the epoch), its size, the kind of message and its
/// full rendering.
#[derive(Debug)]
pub struct Entry {
    pub id: u64,
    pub at_ms: u64,
    pub frame_size: usize,
    pub variant: String,
    pub debug: String,
}

/// The frame inspector: the kept frames (oldest first), the filter, whether
/// recording is paused, the selected frame and the next running number.
#[derive(Debug)]
pub struct InspectorUi {
    pub entries: VecDeque<Entry>,
    pub filter: String,
    pub paused: bool,
    pub selected: Option<u64>,
    /// The running number the next frame gets.
    pub next_id: u64,
}

impl Default for InspectorUi {
    fn default() -> (r: Self)
        ensures
            r.entries@.len() == 0,
            r.filter@.len() == 0,
            !r.paused,
            r.selected is None,
            r.next_id == 0,
    {
        InspectorUi {
            entries: VecDeque::new(),
            filter: String::new(),
            paused: false,
            selected: None,
            next_id: 0,
        }
    }
}

impl InspectorUi {
    /// Records a frame, unless paused: it gets the next running number
    /// (which wraps around), and the oldest frame goes once the buffer holds
    /// `INSPECTOR_CAPACITY` frames.
    pub fn push(&mut self, at_ms: u64, frame_size: usize, variant: String, debug: String)
        ensures
            final(self).filter == old(self).filter,
            final(self).paused == old(self).paused,
            final(self).selected == old(self).selected,
            old(self).paused ==> final(self).entries@ == old(self).entries@
                && final(self).next_id == old(self).next_id,
            !old(self).paused ==> final(self).entries@ == ring_pushed(
                old(self).entries@,
                INSPECTOR_CAPACITY as nat,
                Entry { id: old(self).next_id, at_ms, frame_size, variant, debug },
            ) && final(self).next_id == (if old(self).next_id == u64::MAX {
                0
            } else {
                (old(self).next_id + 1) as u64
            }),
            old(self).entries@.len() <= INSPECTOR_CAPACITY ==> final(self).entries@.len()
                <= INSPECTOR_CAPACITY,
    {
        if self.paused {
            return;
        }
        let id = self.next_id;
        self.next_id = self.next_id.wrapping_add(1);
        if self.entries.len() >= INSPECTOR_CAPACITY {
            let _ = self.entries.pop_front();
        }
        self.entries.push_back(Entry { id, at_ms, frame_size, variant, debug });
    }
}

/// Whether a frame shows under the lower-cased filter: an empty filter shows
/// everything, otherwise it must occur in the lower-cased kind or rendering.
pub open spec fn frame_visible(e: Entry, filter_lc: Seq<char>) -> bool {
    filter_lc.len() == 0 || contains_seq(lowercase(e.variant@), filter_lc) || contains_seq(
        lowercase(e.debug@),
        filter_lc,
    )
}

/// Whether a frame shows under the lower-cased filter.
pub fn is_visible(e: &Entry, filter_lc: &str) -> (r: bool)
    ensures
        r == frame_visible(*e, filter_lc@),
{
    if filter_lc.is_empty() {
        return true;
    }
    let v = to_lowercase(e.variant.as_str());
    if contains_str(v.as_str(), filter_lc) {
        return true;
    }
    let d = to_lowercase(e.debug.as_str());
    contains_str(d.as_str(), filter_lc)
}

/// Position of the first line feed in `s`, or its length.
pub open spec fn line_end(s: Seq<char>, from: int) -> int
    decreases s.len() - from,
{
    if from < 0 || from >= s.len() {
        s.len() as int
    } else if s[from] == '\n' {
        from
    } else {
        line_end(s, from + 1)
    }
}

/// The first line of `s`, as `str::lines` gives it: up to the first line
/// feed, without a carriage return just before it; all of `s` when it has
/// no line feed.
pub open spec fn first_line(s: Seq<char>) -> Seq<char> {
    let k = line_end(s, 0);
    if k >= s.len() {
        s
    } else if k > 0 && s[k - 1] == '\r' {
        s.take(k - 1)
    } else {
        s.take(k)
    }
}

proof fn lemma_line_end(s: Seq<char>, from: int)
    requires
        0 <= from,
    ensures
        from <= line_end(s, from) <= s.len() || (from > s.len() && line_end(s, from) == s.len()),
    decreases s.len() - from,
{
    if from < s.len() && s[from] != '\n' {
        lemma_line_end(s, from + 1);
    }
}

/// The one-line summary of a frame's rendering: its first line.
pub fn summary_line(debug: &str) -> (r: String)
    ensures
        r@ == first_line(debug@),
{
    let v = crate::text::chars_of(debug);
    let mut k: usize = 0;
    while k < v.len() && v[k] != '\n'
        invariant
            v@ == debug@,
            k <= v@.len(),
            line_end(debug@, 0) == line_end(debug@, k as int),
        decreases v@.len() - k,
    {
        k = k + 1;
    }
    let end: usize = if k < v.len() && k > 0 && v[k - 1] == '\r' {
        k - 1
    } else {
        k
    };
    let mut out = String::new();
    let mut i: usize = 0;
    while i < end
        invariant
            v@ == debug@,
            end <= v@.len(),
            i <= end,
            out@ == debug@.take(i as int),
        decreases end - i,
    {
        push_char(&mut out, v[i]);
        i = i + 1;
        assert(out@ =~= debug@.take(i as int));
    }
    if k >= v.len() {
        assert(debug@.take(end as int) =~= debug@);
    }
    out
}

/// JSON string escaping as the export does it: backslashes doubled, double
/// quotes and line feeds escaped.
pub open spec fn json_escaped(s: Seq<char>) -> Seq<char>
    decreases s.len(),
{
    if s.len() == 0 {
        Seq::empty()
    } else {
        let c = s.last();
        json_escaped(s.drop_last()) + if c == '\\' {
            "\\\\"@
        } else if c == '"' {
            "\\\""@
        } else if c == '\n' {
            "\\n"@
        } else {
            seq![c]
        }
    }
}

/// Appends `s` escaped for a JSON string.
pub fn push_json_escaped(out: &mut String, s: &str)
    ensures
        final(out)@ == old(out)@ + json_escaped(s@),
{
    let v = crate::text::chars_of(s);
    let mut i: usize = 0;
    assert(s@.take(0) =~= Seq::<char>::empty());
    while i < v.len()
        invariant
            v@ == s@,
            i <= v@.len(),
            out@ == old(out)@ + json_escaped(s@.take(i as int)),
        decreases v@.len() - i,
    {
        let c = v[i];
        assert(s@.take(i + 1).drop_last() =~= s@.take(i as int));
        assert(s@.take(i + 1).last() == c);
        if c == '\\' {
            push_str(out, "\\\\");
        } else if c == '"' {
            push_str(out, "\\\"");
        } else if c == '\n' {
            push_str(out, "\\n");
        } else {
            push_char(out, c);
            assert(out@ =~= old(out)@ + json_escaped(s@.take(i + 1)));
        }
        i = i + 1;
    }
    assert(s@.take(s@.len() as int) =~= s@);
}

/// The JSON object for one frame, given how its time is shown.
pub open spec fn frame_json(e: Entry, at: Seq<char>) -> Seq<char> {
    "  {\"at\":\""@ + at + "\",\"variant\":\""@ + e.variant@ + "\",\"bytes\":"@
        + crate::text::decimal(e.frame_size as nat) + ",\"debug\":\""@ + json_escaped(e.debug@)
        + "\"}"@
}

/// The JSON array body for the frames `es` (times `times`) that show under
/// the lower-cased filter: objects separated by ",\n".
pub open spec fn frames_json(es: Seq<Entry>, times: Seq<Seq<char>>, filter_lc: Seq<char>) -> Seq<char>
    decreases es.len(),
{
    if es.len() == 0 || times.len() < es.len() {
        Seq::empty()
    } else {
        let rest = frames_json(es.drop_last(), times.take(es.len() - 1), filter_lc);
        let e = es.last();
        if frame_visible(e, filter_lc) {
            if rest.len() == 0 {
                frame_json(e, times[es.len() - 1])
            } else {
                rest + ",\n"@ + frame_json(e, times[es.len() - 1])
            }
        } else {
            rest
        }
    }
}

proof fn lemma_frame_json_nonempty(e: Entry, at: Seq<char>)
    ensures
        frame_json(e, at).len() > 0,
{
}

/// The frames that show, as a JSON array for the clipboard; `times[i]` is
/// how the time of `state.entries[i]` is shown. The filter is trimmed and
/// lower-cased.
pub fn export_json(state: &InspectorUi, times: &Vec<String>) -> (r: String)
    requires
        times@.len() == state.entries@.len(),
    ensures
        r@ == "[\n"@ + frames_json(
            state.entries@,
            times@.map_values(|t: String| t@),
            lowercase(crate::text::trimmed(state.filter@)),
        ) + "\n]\n"@,
{
    let trimmed_filter = crate::text::trim(state.filter.as_str());
    let filter_lc = to_lowercase(trimmed_filter.as_str());
    let ghost ts = times@.map_values(|t: String| t@);
    let mut body = String::new();
    let mut first = true;
    let mut i: usize = 0;
    assert(state.entries@.take(0) =~= Seq::<Entry>::empty());
    while i < state.entries.len()
        invariant
            i <= state.entries@.len(),
            times@.len() == state.entries@.len(),
            ts == times@.map_values(|t: String| t@),
            filter_lc@ == lowercase(crate::text::trimmed(state.filter@)),
            body@ == frames_json(state.entries@.take(i as int), ts.take(i as int), filter_lc@),
            first == (body@.len() == 0),
        decreases state.entries@.len() - i,
    {
        let e = &state.entries[i];
        let ghost es = state.entries@.take(i + 1);
        assert(es.drop_last() =~= state.entries@.take(i as int));
        assert(ts.take(i + 1).take(i as int) =~= ts.take(i as int));
        assert(es.last() == *e);
        assert(ts.take(i + 1)[i as int] == times@[i as int]@);
        if is_visible(e, filter_lc.as_str()) {
            if !first {
                push_str(&mut body, ",\n");
            }
            first = false;
            push_str(&mut body, "  {\"at\":\"");
            push_str(&mut body, times[i].as_str());
            push_str(&mut body, "\",\"variant\":\"");
            push_str(&mut body, e.variant.as_str());
            push_str(&mut body, "\",\"bytes\":");
            push_decimal(&mut body, e.frame_size as u64);
            push_str(&mut body, ",\"debug\":\"");
            push_json_escaped(&mut body, e.debug.as_str());
            push_str(&mut body, "\"}");
            proof {
                lemma_frame_json_nonempty(*e, times@[i as int]@);
            }
        }
        i = i + 1;
    }
    assert(state.entries@.take(state.entries@.len() as int) =~= state.entries@);
    assert(ts.take(ts.len() as int) =~= ts);
    let mut out = String::from_str("[\n");
    push_str(&mut out, body.as_str());
    push_str(&mut out, "\n]\n");
    out
}

} // verus!
