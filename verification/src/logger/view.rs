use vstd::prelude::*;

use crate::logger::level::{
    filter_rank, level_color, level_enabled, level_tag, Level, LevelFilter, LogColor,
};
use crate::text::{chars_of, contains_chars, contains_seq};

verus! {

/// The severity that a log line carries: the first of `[ERROR]`, `[WARN]`,
/// `[INFO]`, `[DEBUG]`, `[TRACE]` (in that order) that occurs in it, or
/// none if it carries no marker.
#[verifier::opaque]
pub open spec fn entry_level(log: Seq<char>) -> Option<Level> {
    if contains_seq(log, level_tag(Level::Error)) {
        Some(Level::Error)
    } else if contains_seq(log, level_tag(Level::Warn)) {
        Some(Level::Warn)
    } else if contains_seq(log, level_tag(Level::Info)) {
        Some(Level::Info)
    } else if contains_seq(log, level_tag(Level::Debug)) {
        Some(Level::Debug)
    } else if contains_seq(log, level_tag(Level::Trace)) {
        Some(Level::Trace)
    } else {
        None
    }
}

/// A log line is displayed under `filter` when it carries a severity that
/// passes the filter.
pub open spec fn entry_shown(log: Seq<char>, filter: LevelFilter) -> bool {
    &&& entry_level(log) is Some
    &&& level_enabled(entry_level(log)->0, filter)
}

/// One displayed line: which stored entry it is, its severity and its colour.
#[derive(Clone, Copy, Debug, PartialEq, Eq, Structural)]
pub struct VisibleEntry {
    pub index: usize,
    pub level: Level,
    pub color: LogColor,
}

/// The lines displayed for the first `n` entries of `logs`, in order.
pub open spec fn visible_prefix(logs: Seq<String>, filter: LevelFilter, n: nat) -> Seq<VisibleEntry>
    decreases n,
{
    if n == 0 {
        Seq::empty()
    } else {
        let earlier = visible_prefix(logs, filter, (n - 1) as nat);
        let log = logs[n - 1]@;
        if entry_shown(log, filter) {
            let level = entry_level(log)->0;
            earlier.push(VisibleEntry { index: (n - 1) as usize, level, color: level_color(level) })
        } else {
            earlier
        }
    }
}

/// The lines displayed for all of `logs` under `filter`.
pub open spec fn visible_lines(logs: Seq<String>, filter: LevelFilter) -> Seq<VisibleEntry> {
    visible_prefix(logs, filter, logs.len())
}

/// The severity marked in a log line (see `entry_level`).
pub fn parse_level(log: &str) -> (res: Option<Level>)
    ensures
        res == entry_level(log@),
{
    reveal(entry_level);
    let chars = chars_of(log);
    if contains_chars(&chars, &Level::Error.tag_chars()) {
        Some(Level::Error)
    } else if contains_chars(&chars, &Level::Warn.tag_chars()) {
        Some(Level::Warn)
    } else if contains_chars(&chars, &Level::Info.tag_chars()) {
        Some(Level::Info)
    } else if contains_chars(&chars, &Level::Debug.tag_chars()) {
        Some(Level::Debug)
    } else if contains_chars(&chars, &Level::Trace.tag_chars()) {
        Some(Level::Trace)
    } else {
        None
    }
}

/// Log view state: the collected log lines and the most verbose severity displayed.
pub struct LogView {
    pub logs: Vec<String>,
    pub log_level: LevelFilter,
}

impl LogView {
    /// A view of `logs` that displays information and more severe records.
    pub fn new(logs: Vec<String>) -> (view: Self)
        ensures
            view.logs@ == logs@,
            view.log_level == LevelFilter::Info,
    {
        LogView { logs, log_level: LevelFilter::Info }
    }

    /// The severity and colour of a log line, or `None` when it carries no
    /// severity marker (such a line is never displayed).
    pub fn parse_log_entry(&self, log: &str) -> (res: Option<(Level, LogColor)>)
        ensures
            res == (match entry_level(log@) {
                Some(level) => Some((level, level_color(level))),
                None => None,
            }),
    {
        match parse_level(log) {
            Some(level) => Some((level, level.color())),
            None => None,
        }
    }

    /// The lines to display, in the order in which they were collected: each
    /// entry that carries a severity passing `log_level`, with its colour.
    pub fn visible_entries(&self) -> (lines: Vec<VisibleEntry>)
        ensures
            lines@ == visible_lines(self.logs@, self.log_level),
            displays_faithfully(self.logs@, self.log_level, lines@, self.logs@.len()),
    {
        let n: usize = self.logs.len();
        proof {
            lemma_visible_lines(self.logs@, self.log_level);
        }
        let mut lines: Vec<VisibleEntry> = Vec::new();
        let mut i: usize = 0;
        while i < n
            invariant
                n == self.logs@.len(),
                i <= n,
                lines@ == visible_prefix(self.logs@, self.log_level, i as nat),
            decreases n - i,
        {
            if let Some((level, color)) = self.parse_log_entry(self.logs[i].as_str()) {
                if level.enabled_by(self.log_level) {
                    lines.push(VisibleEntry { index: i, level, color });
                }
            }
            i = i + 1;
        }
        lines
    }

    /// Removes every collected line; the displayed severity stays.
    pub fn clear(&mut self)
        ensures
            final(self).logs@.len() == 0,
            final(self).log_level == old(self).log_level,
    {
        self.logs.clear();
    }
}

impl Clone for LogView {
    fn clone(&self) -> (res: Self)
        ensures
            res.logs@ == self.logs@,
            res.log_level == self.log_level,
    {
        let n: usize = self.logs.len();
        let mut logs: Vec<String> = Vec::new();
        let mut i: usize = 0;
        while i < n
            invariant
                n == self.logs@.len(),
                i <= n,
                logs@ == self.logs@.take(i as int),
            decreases n - i,
        {
            logs.push(self.logs[i].clone());
            assert(self.logs@.take(i + 1) =~= self.logs@.take(i as int).push(self.logs@[i as int]));
            i = i + 1;
        }
        assert(self.logs@.take(n as int) =~= self.logs@);
        LogView { logs, log_level: self.log_level }
    }
}

/// `lines` displays the first `n` entries of `logs` faithfully: exactly the
/// entries whose marked severity passes `filter`, each once, in collection
/// order, with the colour of its severity.
pub open spec fn displays_faithfully(logs: Seq<String>, filter: LevelFilter, lines: Seq<VisibleEntry>, n: nat) -> bool {
    &&& forall|k: int|
        0 <= k < lines.len() ==> {
            &&& (#[trigger] lines[k]).index < n
            &&& entry_shown(logs[lines[k].index as int]@, filter)
            &&& lines[k].level == entry_level(logs[lines[k].index as int]@)->0
            &&& lines[k].color == level_color(lines[k].level)
        }
    &&& forall|k1: int, k2: int|
        0 <= k1 < k2 < lines.len() ==> (#[trigger] lines[k1]).index < (#[trigger] lines[k2]).index
    &&& forall|i: int| 0 <= i < n && entry_shown(logs[i]@, filter) ==> #[trigger] displays_index(lines, i)
}

/// Some line of `lines` displays entry `i`.
pub open spec fn displays_index(lines: Seq<VisibleEntry>, i: int) -> bool {
    exists|k: int| 0 <= k < lines.len() && lines[k].index == i
}

/// The lines displayed for the first `n` entries display them faithfully.
proof fn lemma_visible_prefix(logs: Seq<String>, filter: LevelFilter, n: nat)
    requires
        n <= logs.len(),
        n <= usize::MAX + 1,
    ensures
        displays_faithfully(logs, filter, visible_prefix(logs, filter, n), n),
    decreases n,
{
    if n > 0 {
        lemma_visible_prefix(logs, filter, (n - 1) as nat);
        let earlier = visible_prefix(logs, filter, (n - 1) as nat);
        let v = visible_prefix(logs, filter, n);
        let log = logs[n - 1]@;
        if entry_shown(log, filter) {
            let level = entry_level(log)->0;
            let e = VisibleEntry { index: (n - 1) as usize, level, color: level_color(level) };
            assert(v == earlier.push(e));
            assert(e.index == n - 1);
            assert forall|k: int| 0 <= k < v.len() implies {
                &&& (#[trigger] v[k]).index < n
                &&& entry_shown(logs[v[k].index as int]@, filter)
                &&& v[k].level == entry_level(logs[v[k].index as int]@)->0
                &&& v[k].color == level_color(v[k].level)
            } by {
                if k < earlier.len() {
                    assert(v[k] == earlier[k]);
                }
            }
            assert forall|k1: int, k2: int| 0 <= k1 < k2 < v.len() implies (#[trigger] v[k1]).index
                < (#[trigger] v[k2]).index by {
                assert(v[k1] == earlier[k1]);
                if k2 < earlier.len() {
                    assert(v[k2] == earlier[k2]);
                }
            }
            assert forall|i: int| 0 <= i < n && entry_shown(logs[i]@, filter) implies #[trigger] displays_index(v, i) by {
                if i < n - 1 {
                    assert(displays_index(earlier, i));
                    let k = choose|k: int| 0 <= k < earlier.len() && earlier[k].index == i;
                    assert(v[k] == earlier[k]);
                } else {
                    assert(v[v.len() - 1] == e);
                }
            }
        } else {
            assert(v == earlier);
            assert forall|i: int| 0 <= i < n && entry_shown(logs[i]@, filter) implies #[trigger] displays_index(v, i) by {
                if i < n - 1 {
                    assert(displays_index(earlier, i));
                }
            }
        }
    }
}

/// Every entry is displayed exactly when its marked severity passes the
/// filter; displayed lines keep collection order and carry their severity's colour.
pub proof fn lemma_visible_lines(logs: Seq<String>, filter: LevelFilter)
    requires
        logs.len() <= usize::MAX,
    ensures
        displays_faithfully(logs, filter, visible_lines(logs, filter), logs.len()),
{
    lemma_visible_prefix(logs, filter, logs.len());
}

/// Choosing a more verbose filter never hides a line that was displayed;
/// `Off` displays nothing and `Trace` displays every marked line.
pub proof fn lemma_filter_monotone(log: Seq<char>, quieter: LevelFilter, louder: LevelFilter)
    requires
        filter_rank(quieter) <= filter_rank(louder),
    ensures
        entry_shown(log, quieter) ==> entry_shown(log, louder),
        !entry_shown(log, LevelFilter::Off),
        entry_shown(log, LevelFilter::Trace) == (entry_level(log) is Some),
{
}

/// Once the log is cleared nothing is displayed, whatever the filter.
pub proof fn lemma_cleared_shows_nothing(logs: Seq<String>, filter: LevelFilter)
    requires
        logs.len() == 0,
    ensures
        visible_lines(logs, filter).len() == 0,
{
}

} // verus!
