use vstd::prelude::*;
use vstd::string::StringExecFns;

use crate::logger::collector::{format_log_line as format_record, log_line, opt_view, thread_label};
use crate::logger::level::{level_color, level_enabled, level_rank, level_tag, Level, LevelFilter, LogColor};
use crate::text::{contains_seq, occurs_at};
use crate::logger::collector::{lemma_read_back, line_head, no_more_severe_marker};
use crate::logger::view::{entry_level, parse_level, VisibleEntry};

verus! {

/// The severity under which this view shows a line: its marked severity, or
/// information when it carries no marker.
pub open spec fn entry_level_or_info(log: Seq<char>) -> Level {
    match entry_level(log) {
        Some(level) => level,
        None => Level::Info,
    }
}

/// The lines displayed for the first `n` entries of `logs`: every entry whose
/// severity (information when unmarked) passes `filter`.
pub open spec fn visible_prefix(logs: Seq<String>, filter: LevelFilter, n: nat) -> Seq<VisibleEntry>
    decreases n,
{
    if n == 0 {
        Seq::empty()
    } else {
        let earlier = visible_prefix(logs, filter, (n - 1) as nat);
        let level = entry_level_or_info(logs[n - 1]@);
        if level_enabled(level, filter) {
            earlier.push(VisibleEntry { index: (n - 1) as usize, level, color: level_color(level) })
        } else {
            earlier
        }
    }
}

/// Log view state in which unmarked lines count as information.
pub struct LogView {
    pub logs: Vec<String>,
    pub log_level: LevelFilter,
}

impl LogView {
    /// A view of `logs` that displays information and more severe records.
    pub fn new(logs: Vec<String>) -> (view: Self)
        ensures
            view.logs@ == logs@,
            view.log_level == LevelFilter::Info,
    {
        LogView { logs, log_level: LevelFilter::Info }
    }

    /// The severity under which `log` is shown (information when it carries
    /// no marker) and its colour.
    pub fn entry_style(&self, log: &str) -> (res: (Level, LogColor))
        ensures
            res == (entry_level_or_info(log@), level_color(entry_level_or_info(log@))),
            entry_level(log@) matches Some(level) ==> res == (level, level_color(level)),
            entry_level(log@) is None ==> res == (Level::Info, LogColor::Black),
    {
        let level = match parse_level(log) {
            Some(level) => level,
            None => Level::Info,
        };
        (level, level.color())
    }

    /// The lines to display, in collection order: every entry whose severity
    /// (information when unmarked) passes `log_level`, with its colour.
    pub fn visible_entries(&self) -> (lines: Vec<VisibleEntry>)
        ensures
            lines@ == visible_prefix(self.logs@, self.log_level, self.logs@.len()),
    {
        let n: usize = self.logs.len();
        let mut lines: Vec<VisibleEntry> = Vec::new();
        let mut i: usize = 0;
        while i < n
            invariant
                n == self.logs@.len(),
                i <= n,
                lines@ == visible_prefix(self.logs@, self.log_level, i as nat),
            decreases n - i,
        {
            let (level, color) = self.entry_style(self.logs[i].as_str());
            if level.enabled_by(self.log_level) {
                lines.push(VisibleEntry { index: i, level, color });
            }
            i = i + 1;
        }
        lines
    }

    /// Removes every collected line; the displayed severity stays.
    pub fn clear(&mut self)
        ensures
            final(self).logs@.len() == 0,
            final(self).log_level == old(self).log_level,
    {
        self.logs.clear();
    }
}

/// Formats one record as this logger writes it, one record per line:
/// `[<timestamp>] [<thread name or <unnamed>>] [<LEVEL>] <message>` and a newline.
pub fn format_log_line(timestamp: &str, thread_name: Option<&str>, level: Level, message: &str) -> (line: String)
    ensures
        line@ == log_line(timestamp@, thread_label(opt_view(thread_name)), level, message@) + seq!['\n'],
{
    proof {
        reveal_strlit("\n");
    }
    let mut line = format_record(timestamp, thread_name, level, message);
    line.append("\n");
    line
}

/// A newline after a text adds no severity marker to it.
proof fn lemma_newline_adds_no_marker(message: Seq<char>, w: Level)
    ensures
        contains_seq(message + seq!['\n'], level_tag(w)) == contains_seq(message, level_tag(w)),
{
    let longer = message + seq!['\n'];
    let tw = level_tag(w);
    if contains_seq(message, tw) {
        let i = choose|i: int| occurs_at(message, tw, i);
        assert(longer.subrange(i, i + tw.len()) =~= message.subrange(i, i + tw.len()));
        assert(occurs_at(longer, tw, i));
    }
    if contains_seq(longer, tw) {
        let i = choose|i: int| occurs_at(longer, tw, i);
        if i + tw.len() > message.len() {
            assert(longer.subrange(i, i + tw.len())[tw.len() - 1] == longer[i + tw.len() - 1]);
            assert(tw[tw.len() - 1] == ']');
        }
        assert(message.subrange(i, i + tw.len()) =~= longer.subrange(i, i + tw.len()));
        assert(occurs_at(message, tw, i));
    }
}

/// A record written by this logger (with its trailing newline) is read back
/// with its severity or a more severe one, and with exactly its severity when
/// neither the head (`[<timestamp>] [<thread>] `) nor the message holds the
/// marker of a more severe severity.
pub proof fn lemma_record_read_back(timestamp: Seq<char>, thread: Seq<char>, level: Level, message: Seq<char>)
    ensures
        entry_level(log_line(timestamp, thread, level, message) + seq!['\n']) is Some,
        level_rank(entry_level(log_line(timestamp, thread, level, message) + seq!['\n'])->0) <= level_rank(level),
        (entry_level(log_line(timestamp, thread, level, message) + seq!['\n']) == Some(level)) == (
        no_more_severe_marker(line_head(timestamp, thread), level) && no_more_severe_marker(message, level)),
{
    let longer = message + seq!['\n'];
    reveal(log_line);
    assert(log_line(timestamp, thread, level, message) + seq!['\n'] =~= log_line(timestamp, thread, level, longer));
    lemma_read_back(timestamp, thread, level, longer);
    assert forall|w: Level| #![trigger level_tag(w)] contains_seq(longer, level_tag(w)) == contains_seq(message, level_tag(w)) by {
        lemma_newline_adds_no_marker(message, w);
    }
}

/// A line that carries a severity marker is shown under that marker's
/// severity, exactly as the newer view reads it; only a line without any
/// marker falls back to information.
pub proof fn lemma_marked_lines_keep_severity(log: Seq<char>)
    ensures
        entry_level(log) matches Some(level) ==> entry_level_or_info(log) == level,
        entry_level(log) is None ==> entry_level_or_info(log) == Level::Info,
        entry_level(log) matches Some(level) ==> (level_enabled(entry_level_or_info(log), LevelFilter::Warn)
            == (level == Level::Error || level == Level::Warn)),
{
}

} // verus!
