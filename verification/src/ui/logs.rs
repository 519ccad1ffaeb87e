use vstd::prelude::*;

use std::collections::VecDeque;

use crate::text::{contains_seq, contains_str, lowercase, push_str, to_lowercase};

verus! {

broadcast use vstd::std_specs::vecdeque::group_vec_dequeue_axioms;

/// How many log lines are kept; older ones are dropped first.
pub const LOG_CAPACITY: usize = 5000;

/// The buffer `s` after appending `x` when at most `cap` items are kept: the
/// oldest item goes when the buffer is full.
pub open spec fn ring_pushed<T>(s: Seq<T>, cap: nat, x: T) -> Seq<T> {
    if s.len() >= cap {
        s.subrange(1, s.len() as int).push(x)
    } else {
        s.push(x)
    }
}

/// A bounded buffer stays bounded and keeps the newest item last.
pub proof fn lemma_ring_bounded<T>(s: Seq<T>, cap: nat, x: T)
    requires
        s.len() <= cap,
        cap > 0,
    ensures
        ring_pushed(s, cap, x).len() <= cap,
        ring_pushed(s, cap, x).last() == x,
        ring_pushed(s, cap, x).len() == if s.len() == cap { s.len() } else { s.len() + 1 },
{
}

/// Severity of a line of the radio's own log, in increasing order.
#[derive(Copy, Clone, Debug, PartialEq, Eq, Structural)]
pub enum Level {
    Trace,
    Debug,
    Info,
    Warning,
    Error,
    Critical,
    Unknown,
}

/// The level for the radio's numeric log level.
pub open spec fn level_of(v: i32) -> Level {
    if v == 5 {
        Level::Trace
    } else if v == 10 {
        Level::Debug
    } else if v == 20 {
        Level::Info
    } else if v == 30 {
        Level::Warning
    } else if v == 40 {
        Level::Error
    } else if v == 50 {
        Level::Critical
    } else {
        Level::Unknown
    }
}

/// Position of a level in severity order.
pub open spec fn level_rank(l: Level) -> nat {
    match l {
        Level::Trace => 0,
        Level::Debug => 1,
        Level::Info => 2,
        Level::Warning => 3,
        Level::Error => 4,
        Level::Critical => 5,
        Level::Unknown => 6,
    }
}

/// The short name a level is shown with.
pub open spec fn level_label_text(l: Level) -> Seq<char> {
    match l {
        Level::Trace => "TRACE"@,
        Level::Debug => "DEBUG"@,
        Level::Info => "INFO"@,
        Level::Warning => "WARN"@,
        Level::Error => "ERROR"@,
        Level::Critical => "CRIT"@,
        Level::Unknown => "?"@,
    }
}

impl Level {
    /// The level for the radio's numeric log level (unknown numbers read as
    /// `Unknown`).
    pub fn from_proto(v: i32) -> (r: Self)
        ensures
            r == level_of(v),
    {
        match v {
            5 => Level::Trace,
            10 => Level::Debug,
            20 => Level::Info,
            30 => Level::Warning,
            40 => Level::Error,
            50 => Level::Critical,
            _ => Level::Unknown,
        }
    }

    /// The short name the level is shown with.
    pub fn label(self) -> (r: &'static str)
        ensures
            r@ == level_label_text(self),
    {
        match self {
            Level::Trace => "TRACE",
            Level::Debug => "DEBUG",
            Level::Info => "INFO",
            Level::Warning => "WARN",
            Level::Error => "ERROR",
            Level::Critical => "CRIT",
            Level::Unknown => "?",
        }
    }

    /// Position of the level in severity order.
    pub fn rank(self) -> (r: u8)
        ensures
            r as nat == level_rank(self),
    {
        match self {
            Level::Trace => 0,
            Level::Debug => 1,
            Level::Info => 2,
            Level::Warning => 3,
            Level::Error => 4,
            Level::Critical => 5,
            Level::Unknown => 6,
        }
    }
}

/// One line of the radio's log, received at `at_ms` (milliseconds since the
/// epoch).
#[derive(Debug)]
pub struct Entry {
    pub at_ms: u64,
    pub level: Level,
    pub source: String,
    pub message: String,
}

/// The log tab: the kept lines (oldest first), the filter text, the lowest
/// level shown, and whether recording is paused.
#[derive(Debug)]
pub struct LogsUi {
    pub entries: VecDeque<Entry>,
    pub filter: String,
    pub min_level: Level,
    pub paused: bool,
}

impl Default for LogsUi {
    fn default() -> (r: Self)
        ensures
            r.entries@.len() == 0,
            r.filter@.len() == 0,
            r.min_level == Level::Debug,
            !r.paused,
    {
        LogsUi {
            entries: VecDeque::new(),
            filter: String::new(),
            min_level: Level::Debug,
            paused: false,
        }
    }
}

impl LogsUi {
    /// Records a log line, unless paused; the oldest line goes once the
    /// buffer holds `LOG_CAPACITY` lines.
    pub fn push(&mut self, at_ms: u64, level: i32, source: String, message: String)
        ensures
            old(self).entries@.len() <= LOG_CAPACITY ==> final(self).entries@.len()
                <= LOG_CAPACITY,
            final(self).filter == old(self).filter,
            final(self).min_level == old(self).min_level,
            final(self).paused == old(self).paused,
            old(self).paused ==> final(self).entries@ == old(self).entries@,
            !old(self).paused ==> final(self).entries@ == ring_pushed(
                old(self).entries@,
                LOG_CAPACITY as nat,
                Entry { at_ms, level: level_of(level), source, message },
            ),
    {
        if self.paused {
            return;
        }
        if self.entries.len() >= LOG_CAPACITY {
            let _ = self.entries.pop_front();
        }
        self.entries.push_back(Entry { at_ms, level: Level::from_proto(level), source, message });
    }
}

/// Whether a log line shows: its level is at least `min` (lines of unknown
/// level always pass), and the lower-cased filter `filter_lc` is empty or
/// occurs in its lower-cased source or message.
pub open spec fn log_visible(e: Entry, min: Level, filter_lc: Seq<char>) -> bool {
    &&& level_rank(e.level) >= level_rank(min) || e.level == Level::Unknown
    &&& filter_lc.len() == 0 || contains_seq(lowercase(e.source@), filter_lc) || contains_seq(
        lowercase(e.message@),
        filter_lc,
    )
}

/// Whether a log line shows under `min` and the lower-cased filter.
pub fn is_visible(e: &Entry, min: Level, filter_lc: &str) -> (r: bool)
    ensures
        r == log_visible(*e, min, filter_lc@),
{
    let level_ok = e.level.rank() >= min.rank() || e.level == Level::Unknown;
    if !level_ok {
        return false;
    }
    if filter_lc.is_empty() {
        return true;
    }
    let source_lc = to_lowercase(e.source.as_str());
    if contains_str(source_lc.as_str(), filter_lc) {
        return true;
    }
    let message_lc = to_lowercase(e.message.as_str());
    contains_str(message_lc.as_str(), filter_lc)
}

/// The exported text of the lines `es` whose rendered times are `times`:
/// one line per visible entry, "time [LEVEL] source: message".
pub open spec fn export_lines(es: Seq<Entry>, times: Seq<Seq<char>>, min: Level, filter_lc: Seq<char>) -> Seq<char>
    decreases es.len(),
{
    if es.len() == 0 || times.len() < es.len() {
        Seq::empty()
    } else {
        let rest = export_lines(es.drop_last(), times.take(es.len() - 1), min, filter_lc);
        let e = es.last();
        if log_visible(e, min, filter_lc) {
            rest + times[es.len() - 1] + " ["@ + level_label_text(e.level) + "] "@ + e.source@
                + ": "@ + e.message@ + "\n"@
        } else {
            rest
        }
    }
}

/// The visible lines as text for the clipboard; `times[i]` is how the time
/// of `state.entries[i]` is shown. The filter is trimmed and lower-cased.
pub fn export_text(state: &LogsUi, times: &Vec<String>) -> (r: String)
    requires
        times@.len() == state.entries@.len(),
    ensures
        r@ == export_lines(
            state.entries@,
            times@.map_values(|t: String| t@),
            state.min_level,
            lowercase(crate::text::trimmed(state.filter@)),
        ),
{
    let trimmed_filter = crate::text::trim(state.filter.as_str());
    let filter_lc = to_lowercase(trimmed_filter.as_str());
    let ghost ts = times@.map_values(|t: String| t@);
    let mut out = String::new();
    let mut i: usize = 0;
    assert(state.entries@.take(0) =~= Seq::<Entry>::empty());
    while i < state.entries.len()
        invariant
            i <= state.entries@.len(),
            times@.len() == state.entries@.len(),
            ts == times@.map_values(|t: String| t@),
            filter_lc@ == lowercase(crate::text::trimmed(state.filter@)),
            out@ == export_lines(state.entries@.take(i as int), ts.take(i as int), state.min_level, filter_lc@),
        decreases state.entries@.len() - i,
    {
        let e = &state.entries[i];
        let ghost es = state.entries@.take(i + 1);
        assert(es.drop_last() =~= state.entries@.take(i as int));
        assert(ts.take(i + 1).take(i as int) =~= ts.take(i as int));
        assert(es.last() == *e);
        assert(ts.take(i + 1)[i as int] == times@[i as int]@);
        if is_visible(e, state.min_level, filter_lc.as_str()) {
            push_str(&mut out, times[i].as_str());
            push_str(&mut out, " [");
            push_str(&mut out, e.level.label());
            push_str(&mut out, "] ");
            push_str(&mut out, e.source.as_str());
            push_str(&mut out, ": ");
            push_str(&mut out, e.message.as_str());
            push_str(&mut out, "\n");
        }
        i = i + 1;
    }
    assert(state.entries@.take(state.entries@.len() as int) =~= state.entries@);
    assert(ts.take(ts.len() as int) =~= ts);
    out
}

} // verus!
