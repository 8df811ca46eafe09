use vstd::prelude::*;
use vstd::string::StringExecFns;
use vstd::utf8::{encode_utf8, encode_utf8_decode_utf8, encode_utf8_valid_utf8, valid_utf8};

use crate::logger::level::{level_name, level_rank, level_tag, Level};
use crate::logger::level::{level_enabled, LevelFilter};
use crate::logger::view::{displays_index, entry_level, entry_shown, lemma_visible_lines, visible_lines};
use crate::text::{contains_seq, occurs_at};

verus! {

/// Name for the text that `String::from_utf8_lossy` makes of a byte sequence.
pub uninterp spec fn utf8_lossy(bytes: Seq<u8>) -> Seq<char>;

/// Calls `String::from_utf8_lossy` and takes the text it returns.
/// Trusted: the text is named `utf8_lossy` of the bytes, and, as the standard
/// documentation says, valid UTF-8 comes back as the very characters it encodes.
/// What replaces an invalid sequence is left unsaid.
#[verifier::external_body]
fn decode_utf8_lossy(bytes: &[u8]) -> (text: String)
    ensures
        text@ == utf8_lossy(bytes@),
        valid_utf8(bytes@) ==> encode_utf8(text@) == bytes@,
{
    String::from_utf8_lossy(bytes).into_owned()
}

/// Log collector: the sink into which the logger writes formatted records;
/// each write becomes one stored log line.
pub struct LogCollector {
    pub logs: Vec<String>,
}

impl LogCollector {
    /// A collector that appends to `logs`.
    pub fn new(logs: Vec<String>) -> (collector: Self)
        ensures
            collector.logs@ == logs@,
    {
        LogCollector { logs }
    }

    /// Stores the bytes of one write as a new line (invalid UTF-8 replaced as
    /// `String::from_utf8_lossy` does) and reports the whole buffer as written.
    pub fn write(&mut self, buf: &[u8]) -> (written: usize)
        ensures
            written == buf@.len(),
            final(self).logs@.len() == old(self).logs@.len() + 1,
            final(self).logs@.drop_last() == old(self).logs@,
            final(self).logs@.last()@ == utf8_lossy(buf@),
            valid_utf8(buf@) ==> encode_utf8(final(self).logs@.last()@) == buf@,
    {
        let log = decode_utf8_lossy(buf);
        self.logs.push(log);
        assert(self.logs@.drop_last() =~= old(self).logs@);
        buf.len()
    }

    /// Nothing is buffered, so flushing changes nothing.
    pub fn flush(&mut self)
        ensures
            final(self).logs@ == old(self).logs@,
    {
    }
}

/// `s` holds neither `[` nor `]`.
pub open spec fn bracket_free(s: Seq<char>) -> bool {
    &&& !s.contains('[')
    &&& !s.contains(']')
}

/// `s` is the name of some severity.
pub open spec fn is_level_name(s: Seq<char>) -> bool {
    exists|level: Level| s == level_name(level)
}

/// What a log line starts with: `[<timestamp>] [<thread>] `.
pub open spec fn line_head(timestamp: Seq<char>, thread: Seq<char>) -> Seq<char> {
    seq!['['] + timestamp + seq![']', ' ', '['] + thread + seq![']', ' ']
}

/// The line the logger writes for one record:
/// `[<timestamp>] [<thread>] [<LEVEL>] <message>`.
#[verifier::opaque]
pub open spec fn log_line(timestamp: Seq<char>, thread: Seq<char>, level: Level, message: Seq<char>) -> Seq<char> {
    line_head(timestamp, thread) + level_tag(level) + (seq![' '] + message)
}

/// The thread name written into a line: the thread's name, or `<unnamed>`.
pub open spec fn thread_label(name: Option<Seq<char>>) -> Seq<char> {
    match name {
        Some(n) => n,
        None => seq!['<', 'u', 'n', 'n', 'a', 'm', 'e', 'd', '>'],
    }
}

/// The view of an optional string slice.
pub open spec fn opt_view(name: Option<&str>) -> Option<Seq<char>> {
    match name {
        Some(n) => Some(n@),
        None => None,
    }
}

/// Formats one record as the logger writes it:
/// `[<timestamp>] [<thread name or <unnamed>>] [<LEVEL>] <message>`.
pub fn format_log_line(timestamp: &str, thread_name: Option<&str>, level: Level, message: &str) -> (line: String)
    ensures
        line@ == log_line(timestamp@, thread_label(opt_view(thread_name)), level, message@),
        thread_name matches Some(n) ==> line@ == seq!['['] + timestamp@ + seq![']', ' ', '['] + n@ + seq![
            ']',
            ' ',
            '[',
        ] + level_name(level) + seq![']', ' '] + message@,
{
    proof {
        lemma_format_keeps_parts(timestamp@, thread_label(opt_view(thread_name)), level, message@);
        reveal_strlit("[");
        reveal_strlit("] [");
        reveal_strlit("] ");
        reveal_strlit("<unnamed>");
    }
    let thread: &str = match thread_name {
        Some(n) => n,
        None => "<unnamed>",
    };
    let mut line = String::new();
    line.append("[");
    line.append(timestamp);
    line.append("] [");
    line.append(thread);
    line.append("] [");
    line.append(level.as_str());
    line.append("] ");
    line.append(message);
    proof {
        reveal(log_line);
    }
    assert(line@ =~= log_line(timestamp@, thread_label(opt_view(thread_name)), level, message@));
    line
}


/// Two bracketed words read at the same place of a line are the same word.
proof fn lemma_same_bracketed_word(s: Seq<char>, j: int, x: Seq<char>, y: Seq<char>)
    requires
        0 <= j,
        j + x.len() + 2 <= s.len(),
        j + y.len() + 2 <= s.len(),
        s.subrange(j, j + x.len() + 2) == seq!['['] + x + seq![']'],
        s.subrange(j, j + y.len() + 2) == seq!['['] + y + seq![']'],
        !x.contains(']'),
        !y.contains(']'),
    ensures
        x == y,
{
    let bx = seq!['['] + x + seq![']'];
    let by = seq!['['] + y + seq![']'];
    let lx = x.len() as int;
    let ly = y.len() as int;
    if lx < ly {
        assert(bx[lx + 1] == ']');
        assert(s[j + lx + 1] == bx[lx + 1]);
        assert(s[j + lx + 1] == by[lx + 1]);
        assert(by[lx + 1] == y[lx]);
        assert(y.contains(']'));
    } else if ly < lx {
        assert(by[ly + 1] == ']');
        assert(s[j + ly + 1] == by[ly + 1]);
        assert(s[j + ly + 1] == bx[ly + 1]);
        assert(bx[ly + 1] == x[ly]);
        assert(x.contains(']'));
    } else {
        assert forall|k: int| 0 <= k < x.len() implies x[k] == y[k] by {
            assert(bx[k + 1] == s[j + k + 1]);
            assert(by[k + 1] == s[j + k + 1]);
        }
        assert(x =~= y);
    }
}

/// Severity names hold no bracket, and different severities have different names.
proof fn lemma_level_names(level: Level, other: Level)
    ensures
        bracket_free(level_name(level)),
        level_name(level) == level_name(other) ==> level == other,
        !level_name(level).contains(' '),
        level_tag(level).len() == level_name(level).len() + 2,
{
    assert(level_name(level).len() >= 4);
    assert(!level_name(level).contains('[')) by {
        if level_name(level).contains('[') {
            let k = choose|k: int| 0 <= k < level_name(level).len() && level_name(level)[k] == '[';
        }
    }
    assert(!level_name(level).contains(']')) by {
        if level_name(level).contains(']') {
            let k = choose|k: int| 0 <= k < level_name(level).len() && level_name(level)[k] == ']';
        }
    }
    assert(!level_name(level).contains(' ')) by {
        if level_name(level).contains(' ') {
            let k = choose|k: int| 0 <= k < level_name(level).len() && level_name(level)[k] == ' ';
        }
    }
    if level_name(level) == level_name(other) && level != other {
        assert(level_name(level)[0] == level_name(other)[0]);
        assert(level_name(level)[1] == level_name(other)[1]);
    }
}

/// In a line whose timestamp, thread name and message hold no `[`, a `[`
/// opens only the timestamp, the thread name or the severity marker.
proof fn lemma_open_brackets(timestamp: Seq<char>, thread: Seq<char>, level: Level, message: Seq<char>, i: int)
    requires
        !timestamp.contains('['),
        !thread.contains('['),
        !message.contains('['),
        0 <= i < log_line(timestamp, thread, level, message).len(),
        log_line(timestamp, thread, level, message)[i] == '[',
    ensures
        i == 0 || i == timestamp.len() + 3 || i == timestamp.len() + thread.len() + 6,
{
    reveal(log_line);
    lemma_level_names(level, level);
    let line = log_line(timestamp, thread, level, message);
    let t = timestamp.len() as int;
    let h = thread.len() as int;
    let n = level_name(level).len() as int;
    if 1 <= i < t + 1 {
        assert(line[i] == timestamp[i - 1]);
        assert(timestamp.contains('['));
    } else if t + 4 <= i < t + h + 4 {
        assert(line[i] == thread[i - t - 4]);
        assert(thread.contains('['));
    } else if t + h + 7 <= i < t + h + n + 7 {
        assert(line[i] == level_name(level)[i - t - h - 7]);
        assert(level_name(level).contains('['));
    } else if t + h + n + 9 <= i {
        assert(line[i] == message[i - t - h - n - 9]);
        assert(message.contains('['));
    }
}

/// The three bracketed words of a formatted line, read where they stand.
proof fn lemma_line_words(timestamp: Seq<char>, thread: Seq<char>, level: Level, message: Seq<char>)
    ensures
        ({
            let line = log_line(timestamp, thread, level, message);
            let t = timestamp.len() as int;
            let h = thread.len() as int;
            &&& line.subrange(0, t + 2) == seq!['['] + timestamp + seq![']']
            &&& line.subrange(t + 3, t + h + 5) == seq!['['] + thread + seq![']']
            &&& line.subrange(t + h + 6, t + h + 6 + level_tag(level).len()) == level_tag(level)
            &&& t + h + 6 + level_tag(level).len() <= line.len()
        }),
{
    reveal(log_line);
    let line = log_line(timestamp, thread, level, message);
    let t = timestamp.len() as int;
    let h = thread.len() as int;
    assert(line.subrange(0, t + 2) =~= seq!['['] + timestamp + seq![']']);
    assert(line.subrange(t + 3, t + h + 5) =~= seq!['['] + thread + seq![']']);
    assert(line.subrange(t + h + 6, t + h + 6 + level_tag(level).len()) =~= level_tag(level));
}

/// A severity marker found where the bracketed word `x` stands names `x`.
proof fn lemma_tag_names_word(line: Seq<char>, j: int, x: Seq<char>, other: Level)
    requires
        0 <= j,
        j + x.len() + 2 <= line.len(),
        line.subrange(j, j + x.len() + 2) == seq!['['] + x + seq![']'],
        !x.contains(']'),
        occurs_at(line, level_tag(other), j),
    ensures
        x == level_name(other),
{
    lemma_level_names(other, other);
    lemma_same_bracketed_word(line, j, x, level_name(other));
}

/// The marker of a severity other than the one a line was written with does
/// not occur in that line.
proof fn lemma_other_tag_absent(timestamp: Seq<char>, thread: Seq<char>, level: Level, message: Seq<char>, other: Level)
    requires
        bracket_free(timestamp),
        bracket_free(thread),
        !is_level_name(timestamp),
        !is_level_name(thread),
        !message.contains('['),
        other != level,
    ensures
        !contains_seq(log_line(timestamp, thread, level, message), level_tag(other)),
{
    let line = log_line(timestamp, thread, level, message);
    let t = timestamp.len() as int;
    let h = thread.len() as int;
    lemma_line_words(timestamp, thread, level, message);
    lemma_level_names(level, other);
    if contains_seq(line, level_tag(other)) {
        let i = choose|i: int| occurs_at(line, level_tag(other), i);
        assert(line[i] == line.subrange(i, i + level_tag(other).len())[0]);
        lemma_open_brackets(timestamp, thread, level, message, i);
        if i == 0 {
            lemma_tag_names_word(line, 0, timestamp, other);
            assert(is_level_name(timestamp));
        } else if i == t + 3 {
            lemma_tag_names_word(line, t + 3, thread, other);
            assert(is_level_name(thread));
        } else {
            lemma_tag_names_word(line, t + h + 6, level_name(level), other);
        }
    }
}

/// A plain condition under which a formatted line is read back with exactly
/// its own severity: the timestamp and thread name hold no bracket and are
/// not themselves severity names, and the message holds no `[` (the exact
/// condition is the one of `lemma_read_back`).
pub proof fn lemma_formatted_line_level(timestamp: Seq<char>, thread: Seq<char>, level: Level, message: Seq<char>)
    requires
        bracket_free(timestamp),
        bracket_free(thread),
        !is_level_name(timestamp),
        !is_level_name(thread),
        !message.contains('['),
    ensures
        entry_level(log_line(timestamp, thread, level, message)) == Some(level),
{
    reveal(entry_level);
    let line = log_line(timestamp, thread, level, message);
    let p = timestamp.len() + thread.len() + 6int;
    lemma_line_words(timestamp, thread, level, message);
    assert(occurs_at(line, level_tag(level), p));
    if level != Level::Error {
        lemma_other_tag_absent(timestamp, thread, level, message, Level::Error);
    }
    if level != Level::Warn {
        lemma_other_tag_absent(timestamp, thread, level, message, Level::Warn);
    }
    if level != Level::Info {
        lemma_other_tag_absent(timestamp, thread, level, message, Level::Info);
    }
    if level != Level::Debug {
        lemma_other_tag_absent(timestamp, thread, level, message, Level::Debug);
    }
}

/// No marker of a severity more severe than `level` occurs in `text`.
pub open spec fn no_more_severe_marker(text: Seq<char>, level: Level) -> bool {
    forall|w: Level| level_rank(w) < level_rank(level) ==> !contains_seq(text, #[trigger] level_tag(w))
}

/// A line that holds the marker of `level` is read back with `level` or a
/// more severe severity, and with `level` exactly when it holds no marker of
/// a more severe one.
proof fn lemma_entry_level_with_tag(log: Seq<char>, level: Level)
    requires
        contains_seq(log, level_tag(level)),
    ensures
        entry_level(log) is Some,
        level_rank(entry_level(log)->0) <= level_rank(level),
        (entry_level(log) == Some(level)) == no_more_severe_marker(log, level),
{
    reveal(entry_level);
    if entry_level(log) == Some(level) {
        assert forall|w: Level| level_rank(w) < level_rank(level) implies !contains_seq(log, #[trigger] level_tag(w)) by {
            match w {
                Level::Error => {},
                Level::Warn => {},
                Level::Info => {},
                Level::Debug => {},
                Level::Trace => {},
            }
        }
    } else {
        let k = entry_level(log)->0;
        assert(level_rank(k) < level_rank(level));
        assert(contains_seq(log, level_tag(k)));
    }
}

/// A marker found where a severity marker stands names that severity.
proof fn lemma_marker_at_marker(line: Seq<char>, p: int, level: Level, w: Level)
    requires
        0 <= p,
        p + level_tag(level).len() <= line.len(),
        line.subrange(p, p + level_tag(level).len()) == level_tag(level),
        occurs_at(line, level_tag(w), p),
    ensures
        w == level,
{
    lemma_level_names(level, w);
    lemma_level_names(w, level);
    lemma_same_bracketed_word(line, p, level_name(level), level_name(w));
}

/// Apart from the record's own marker, a severity marker occurs in a
/// formatted line exactly when it occurs in the head (`[<timestamp>] [<thread>] `)
/// or in the message: no marker straddles two parts.
proof fn lemma_marker_location(timestamp: Seq<char>, thread: Seq<char>, level: Level, message: Seq<char>, w: Level)
    requires
        w != level,
    ensures
        contains_seq(log_line(timestamp, thread, level, message), level_tag(w)) == (contains_seq(
            line_head(timestamp, thread),
            level_tag(w),
        ) || contains_seq(message, level_tag(w))),
{
    reveal(log_line);
    let line = log_line(timestamp, thread, level, message);
    let head = line_head(timestamp, thread);
    let tag = level_tag(level);
    let tw = level_tag(w);
    let p = head.len() as int;
    let n = tag.len() as int;
    let lw = tw.len() as int;
    let q = p + n + 1;
    lemma_level_names(level, w);
    lemma_level_names(w, level);
    assert(line =~= head + tag + (seq![' '] + message));
    if contains_seq(head, tw) {
        let i = choose|i: int| occurs_at(head, tw, i);
        assert(line.subrange(i, i + lw) =~= head.subrange(i, i + lw));
        assert(occurs_at(line, tw, i));
    }
    if contains_seq(message, tw) {
        let i = choose|i: int| occurs_at(message, tw, i);
        assert(line.subrange(q + i, q + i + lw) =~= message.subrange(i, i + lw));
        assert(occurs_at(line, tw, q + i));
    }
    if contains_seq(line, tw) {
        let i = choose|i: int| occurs_at(line, tw, i);
        assert(line.subrange(i, i + lw)[0] == tw[0]);
        assert(tw[0] == '[');
        if i + lw <= p {
            assert(head.subrange(i, i + lw) =~= line.subrange(i, i + lw));
            assert(occurs_at(head, tw, i));
        } else if i < p {
            // The occurrence would hold the space that ends the head.
            let j = p - 1 - i;
            assert(head[p - 1] == ' ');
            assert(line.subrange(i, i + lw)[j] == line[p - 1]);
            assert(tw[j] == ' ');
            if 0 < j < lw - 1 {
                assert(level_name(w)[j - 1] == ' ');
            }
        } else if i == p {
            assert(line.subrange(p, p + n) =~= tag);
            lemma_marker_at_marker(line, p, level, w);
        } else if i < q {
            assert(line[i] == tag[i - p] || line[i] == ' ');
            if i < p + n {
                assert(line[i] == tag[i - p]);
                if i - p < n - 1 {
                    assert(tag[i - p] == level_name(level)[i - p - 1]);
                    assert(level_name(level).contains('['));
                }
            }
        } else {
            assert(message.subrange(i - q, i - q + lw) =~= line.subrange(i, i + lw));
            assert(occurs_at(message, tw, i - q));
        }
    }
}

/// What the logger writes is read back with the severity it was written
/// with, or a more severe one, never a less severe one; and with exactly its
/// own severity when neither the head (`[<timestamp>] [<thread>] `) nor the
/// message holds the marker of a more severe severity.
pub proof fn lemma_read_back(timestamp: Seq<char>, thread: Seq<char>, level: Level, message: Seq<char>)
    ensures
        entry_level(log_line(timestamp, thread, level, message)) is Some,
        level_rank(entry_level(log_line(timestamp, thread, level, message))->0) <= level_rank(level),
        (entry_level(log_line(timestamp, thread, level, message)) == Some(level)) == (no_more_severe_marker(
            line_head(timestamp, thread),
            level,
        ) && no_more_severe_marker(message, level)),
{
    let line = log_line(timestamp, thread, level, message);
    let p = timestamp.len() + thread.len() + 6int;
    lemma_line_words(timestamp, thread, level, message);
    assert(occurs_at(line, level_tag(level), p));
    lemma_entry_level_with_tag(line, level);
    let head = line_head(timestamp, thread);
    if no_more_severe_marker(head, level) && no_more_severe_marker(message, level) {
        assert forall|w: Level| level_rank(w) < level_rank(level) implies !contains_seq(line, #[trigger] level_tag(w)) by {
            lemma_marker_location(timestamp, thread, level, message, w);
        }
    }
    if no_more_severe_marker(line, level) {
        assert forall|w: Level| level_rank(w) < level_rank(level) implies !contains_seq(head, #[trigger] level_tag(w)) by {
            lemma_marker_location(timestamp, thread, level, message, w);
        }
        assert forall|w: Level| level_rank(w) < level_rank(level) implies !contains_seq(message, #[trigger] level_tag(w)) by {
            lemma_marker_location(timestamp, thread, level, message, w);
        }
    }
}

/// What the logger writes is what the view shows: when a formatted record's
/// bytes are written into the collector (which then stores the newest line as
/// `LogCollector::write` states), that line is the formatted record; it is
/// read back with the record's severity or a more severe one; and when
/// neither head nor message holds the marker of a more severe severity, it is
/// read back with exactly the record's severity and colour and displayed
/// exactly when that severity passes the selected level.
pub proof fn lemma_written_record_displayed(
    logs: Seq<String>,
    timestamp: Seq<char>,
    thread: Seq<char>,
    level: Level,
    message: Seq<char>,
    filter: LevelFilter,
)
    requires
        logs.len() >= 1,
        logs.len() <= usize::MAX,
        valid_utf8(encode_utf8(log_line(timestamp, thread, level, message))) ==> encode_utf8(logs.last()@)
            == encode_utf8(log_line(timestamp, thread, level, message)),
    ensures
        logs.last()@ == log_line(timestamp, thread, level, message),
        level_rank(entry_level(logs.last()@)->0) <= level_rank(level),
        no_more_severe_marker(line_head(timestamp, thread), level) && no_more_severe_marker(message, level) ==> {
            &&& entry_level(logs.last()@) == Some(level)
            &&& entry_shown(logs.last()@, filter) == level_enabled(level, filter)
            &&& displays_index(visible_lines(logs, filter), logs.len() - 1) == level_enabled(level, filter)
        },
{
    let line = log_line(timestamp, thread, level, message);
    encode_utf8_valid_utf8(line);
    encode_utf8_decode_utf8(line);
    encode_utf8_decode_utf8(logs.last()@);
    assert(logs.last()@ == line);
    lemma_read_back(timestamp, thread, level, message);
    lemma_visible_lines(logs, filter);
    let lines = visible_lines(logs, filter);
    if displays_index(lines, logs.len() - 1) {
        let k = choose|k: int| 0 <= k < lines.len() && lines[k].index == logs.len() - 1;
        assert(lines[k].index < logs.len());
    }
}

/// Every part of a record stands whole and in order in its line:
/// `[` timestamp `] [` thread `] [` LEVEL `] ` message, nothing cut or added;
/// a named thread is written under its whole name, whatever its length, and
/// an unnamed one as `<unnamed>`.
pub proof fn lemma_format_keeps_parts(timestamp: Seq<char>, thread: Seq<char>, level: Level, message: Seq<char>)
    ensures
        log_line(timestamp, thread, level, message) == seq!['['] + timestamp + seq![']', ' ', '['] + thread + seq![
            ']',
            ' ',
            '[',
        ] + level_name(level) + seq![']', ' '] + message,
        log_line(timestamp, thread, level, message).len() == timestamp.len() + thread.len() + level_name(
            level,
        ).len() + message.len() + 9,
        forall|name: Seq<char>| thread_label(Some(name)) == name,
        thread_label(None) == seq!['<', 'u', 'n', 'n', 'a', 'm', 'e', 'd', '>'],
{
    reveal(log_line);
    assert(log_line(timestamp, thread, level, message) =~= seq!['['] + timestamp + seq![']', ' ', '['] + thread
        + seq![']', ' ', '['] + level_name(level) + seq![']', ' '] + message);
}

} // verus!
