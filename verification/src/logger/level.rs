use vstd::prelude::*;

verus! {

/// Severity of one log record, most severe first.
#[derive(Clone, Copy, Debug, PartialEq, Eq, Structural)]
pub enum Level {
    Error,
    Warn,
    Info,
    Debug,
    Trace,
}

/// The most verbose severity that is displayed; `Off` displays nothing.
#[derive(Clone, Copy, Debug, PartialEq, Eq, Structural)]
pub enum LevelFilter {
    Off,
    Error,
    Warn,
    Info,
    Debug,
    Trace,
}

/// The colour in which a record of a given severity is displayed.
#[derive(Clone, Copy, Debug, PartialEq, Eq, Structural)]
pub enum LogColor {
    Red,
    Yellow,
    Black,
    Gray,
}

/// The position of a severity in the verbosity order (1 is the most severe).
pub open spec fn level_rank(level: Level) -> nat {
    match level {
        Level::Error => 1,
        Level::Warn => 2,
        Level::Info => 3,
        Level::Debug => 4,
        Level::Trace => 5,
    }
}

/// The position of a filter in the verbosity order (0 lets nothing through).
pub open spec fn filter_rank(filter: LevelFilter) -> nat {
    match filter {
        LevelFilter::Off => 0,
        LevelFilter::Error => 1,
        LevelFilter::Warn => 2,
        LevelFilter::Info => 3,
        LevelFilter::Debug => 4,
        LevelFilter::Trace => 5,
    }
}

/// A record of severity `level` passes `filter`.
pub open spec fn level_enabled(level: Level, filter: LevelFilter) -> bool {
    level_rank(level) <= filter_rank(filter)
}

/// The upper-case name under which a severity is written into a log line.
pub open spec fn level_name(level: Level) -> Seq<char> {
    match level {
        Level::Error => seq!['E', 'R', 'R', 'O', 'R'],
        Level::Warn => seq!['W', 'A', 'R', 'N'],
        Level::Info => seq!['I', 'N', 'F', 'O'],
        Level::Debug => seq!['D', 'E', 'B', 'U', 'G'],
        Level::Trace => seq!['T', 'R', 'A', 'C', 'E'],
    }
}

/// The bracketed marker, such as `[ERROR]`, that identifies a severity in a log line.
pub open spec fn level_tag(level: Level) -> Seq<char> {
    seq!['['] + level_name(level) + seq![']']
}

/// The colour of a severity: errors red, warnings yellow, information black,
/// debug and trace grey.
pub open spec fn level_color(level: Level) -> LogColor {
    match level {
        Level::Error => LogColor::Red,
        Level::Warn => LogColor::Yellow,
        Level::Info => LogColor::Black,
        Level::Debug => LogColor::Gray,
        Level::Trace => LogColor::Gray,
    }
}

/// The name under which a filter is shown in the level selector.
pub open spec fn filter_name(filter: LevelFilter) -> Seq<char> {
    match filter {
        LevelFilter::Off => seq!['O', 'f', 'f'],
        LevelFilter::Error => seq!['E', 'r', 'r', 'o', 'r'],
        LevelFilter::Warn => seq!['W', 'a', 'r', 'n'],
        LevelFilter::Info => seq!['I', 'n', 'f', 'o'],
        LevelFilter::Debug => seq!['D', 'e', 'b', 'u', 'g'],
        LevelFilter::Trace => seq!['T', 'r', 'a', 'c', 'e'],
    }
}

impl Level {
    /// The upper-case name of this severity, as it appears in a log line.
    pub fn as_str(&self) -> (s: &'static str)
        ensures
            s@ == level_name(*self),
    {
        match self {
            Level::Error => {
                proof {
                    reveal_strlit("ERROR");
                }
                "ERROR"
            },
            Level::Warn => {
                proof {
                    reveal_strlit("WARN");
                }
                "WARN"
            },
            Level::Info => {
                proof {
                    reveal_strlit("INFO");
                }
                "INFO"
            },
            Level::Debug => {
                proof {
                    reveal_strlit("DEBUG");
                }
                "DEBUG"
            },
            Level::Trace => {
                proof {
                    reveal_strlit("TRACE");
                }
                "TRACE"
            },
        }
    }

    /// The characters of this severity's bracketed marker.
    pub fn tag_chars(&self) -> (v: Vec<char>)
        ensures
            v@ == level_tag(*self),
    {
        let v = match self {
            Level::Error => vec!['[', 'E', 'R', 'R', 'O', 'R', ']'],
            Level::Warn => vec!['[', 'W', 'A', 'R', 'N', ']'],
            Level::Info => vec!['[', 'I', 'N', 'F', 'O', ']'],
            Level::Debug => vec!['[', 'D', 'E', 'B', 'U', 'G', ']'],
            Level::Trace => vec!['[', 'T', 'R', 'A', 'C', 'E', ']'],
        };
        assert(v@ =~= level_tag(*self));
        v
    }

    /// The colour in which records of this severity are displayed.
    pub fn color(&self) -> (c: LogColor)
        ensures
            c == level_color(*self),
    {
        match self {
            Level::Error => LogColor::Red,
            Level::Warn => LogColor::Yellow,
            Level::Info => LogColor::Black,
            Level::Debug => LogColor::Gray,
            Level::Trace => LogColor::Gray,
        }
    }

    /// The verbosity rank of this severity (1 for errors up to 5 for trace).
    pub fn rank(&self) -> (r: u8)
        ensures
            r == level_rank(*self),
    {
        match self {
            Level::Error => 1,
            Level::Warn => 2,
            Level::Info => 3,
            Level::Debug => 4,
            Level::Trace => 5,
        }
    }

    /// Whether a record of this severity passes `filter`, the comparison
    /// `level <= filter` of the two verbosity ranks.
    pub fn enabled_by(&self, filter: LevelFilter) -> (b: bool)
        ensures
            b == level_enabled(*self, filter),
            b == (level_rank(*self) <= filter_rank(filter)),
    {
        self.rank() <= filter.rank()
    }
}

impl LevelFilter {
    /// The verbosity rank of this filter (0 for `Off` up to 5 for trace).
    pub fn rank(&self) -> (r: u8)
        ensures
            r == filter_rank(*self),
    {
        match self {
            LevelFilter::Off => 0,
            LevelFilter::Error => 1,
            LevelFilter::Warn => 2,
            LevelFilter::Info => 3,
            LevelFilter::Debug => 4,
            LevelFilter::Trace => 5,
        }
    }

    /// The name under which this filter is shown in the level selector.
    pub fn name(&self) -> (s: &'static str)
        ensures
            s@ == filter_name(*self),
    {
        match self {
            LevelFilter::Off => {
                proof {
                    reveal_strlit("Off");
                }
                "Off"
            },
            LevelFilter::Error => {
                proof {
                    reveal_strlit("Error");
                }
                "Error"
            },
            LevelFilter::Warn => {
                proof {
                    reveal_strlit("Warn");
                }
                "Warn"
            },
            LevelFilter::Info => {
                proof {
                    reveal_strlit("Info");
                }
                "Info"
            },
            LevelFilter::Debug => {
                proof {
                    reveal_strlit("Debug");
                }
                "Debug"
            },
            LevelFilter::Trace => {
                proof {
                    reveal_strlit("Trace");
                }
                "Trace"
            },
        }
    }
}

/// The filters offered in the level selector, least verbose first; `Off` is not offered.
pub fn selectable_levels() -> (v: Vec<LevelFilter>)
    ensures
        v@ == seq![
            LevelFilter::Error,
            LevelFilter::Warn,
            LevelFilter::Info,
            LevelFilter::Debug,
            LevelFilter::Trace,
        ],
{
    let v = vec![
        LevelFilter::Error,
        LevelFilter::Warn,
        LevelFilter::Info,
        LevelFilter::Debug,
        LevelFilter::Trace,
    ];
    assert(v@ =~= seq![
        LevelFilter::Error,
        LevelFilter::Warn,
        LevelFilter::Info,
        LevelFilter::Debug,
        LevelFilter::Trace,
    ]);
    v
}

/// Severities are ordered from most to least severe as Error, Warn, Info,
/// Debug, Trace; filters as Off, Error, Warn, Info, Debug, Trace; and each
/// filter stands at the rank of the severity of the same name.
pub proof fn lemma_severity_order()
    ensures
        level_rank(Level::Error) < level_rank(Level::Warn),
        level_rank(Level::Warn) < level_rank(Level::Info),
        level_rank(Level::Info) < level_rank(Level::Debug),
        level_rank(Level::Debug) < level_rank(Level::Trace),
        filter_rank(LevelFilter::Off) < filter_rank(LevelFilter::Error),
        filter_rank(LevelFilter::Error) == level_rank(Level::Error),
        filter_rank(LevelFilter::Warn) == level_rank(Level::Warn),
        filter_rank(LevelFilter::Info) == level_rank(Level::Info),
        filter_rank(LevelFilter::Debug) == level_rank(Level::Debug),
        filter_rank(LevelFilter::Trace) == level_rank(Level::Trace),
{
}

/// A record passes a filter exactly when it is at least as severe as the
/// filter: each severity passes the filter of its own name and not the next
/// quieter one, a more severe record passes wherever a less severe one does,
/// `Off` lets nothing through and `Trace` everything.
pub proof fn lemma_filter_passes(level: Level, other: Level, filter: LevelFilter)
    ensures
        level_rank(level) <= level_rank(other) && level_enabled(other, filter) ==> level_enabled(level, filter),
        filter_rank(filter) == level_rank(level) ==> level_enabled(level, filter),
        filter_rank(filter) + 1 == level_rank(level) ==> !level_enabled(level, filter),
        level_enabled(level, filter) == (level_rank(level) <= filter_rank(filter)),
        !level_enabled(level, LevelFilter::Off),
        level_enabled(level, LevelFilter::Trace),
        level_enabled(Level::Warn, LevelFilter::Warn) && !level_enabled(Level::Info, LevelFilter::Warn),
{
}

/// The colours: errors red, warnings yellow, information black, debug and
/// trace grey; only debug and trace share a colour.
pub proof fn lemma_level_colors(level: Level, other: Level)
    ensures
        level_color(Level::Error) == LogColor::Red,
        level_color(Level::Warn) == LogColor::Yellow,
        level_color(Level::Info) == LogColor::Black,
        level_color(Level::Debug) == LogColor::Gray,
        level_color(Level::Trace) == LogColor::Gray,
        level != other && level_color(level) == level_color(other) ==> level_rank(level) >= 4 && level_rank(other)
            >= 4,
{
}

/// The lower-case form of an upper-case ASCII letter; other characters stay.
pub open spec fn ascii_lower(c: char) -> char {
    if 'A' <= c && c <= 'Z' {
        ((c as u32) + 32) as char
    } else {
        c
    }
}

/// A word with its first character kept and the rest in lower case.
pub open spec fn title_case(word: Seq<char>) -> Seq<char> {
    Seq::new(word.len(), |i: int| if i == 0 { word[0] } else { ascii_lower(word[i]) })
}

/// The names under which severities are written into log lines, as the
/// logging facade prints them.
pub proof fn lemma_level_names_written()
    ensures
        level_name(Level::Error) == seq!['E', 'R', 'R', 'O', 'R'],
        level_name(Level::Warn) == seq!['W', 'A', 'R', 'N'],
        level_name(Level::Info) == seq!['I', 'N', 'F', 'O'],
        level_name(Level::Debug) == seq!['D', 'E', 'B', 'U', 'G'],
        level_name(Level::Trace) == seq!['T', 'R', 'A', 'C', 'E'],
{
}

/// Each filter is offered under its own name: the filter at a severity's rank
/// is named as that severity, in title case (`Info` for `INFO`); `Off` is
/// named `Off`; and different filters have different names.
pub proof fn lemma_selector_names(level: Level, filter: LevelFilter, other: LevelFilter)
    ensures
        filter_rank(filter) == level_rank(level) ==> filter_name(filter) == title_case(level_name(level)),
        filter_name(LevelFilter::Off) == seq!['O', 'f', 'f'],
        filter != other ==> filter_name(filter) != filter_name(other),
{
    if filter_rank(filter) == level_rank(level) {
        assert(filter_name(filter) =~= title_case(level_name(level)));
    }
    if filter != other && filter_name(filter) == filter_name(other) {
        assert(filter_name(filter)[0] == filter_name(other)[0]);
        assert(filter_name(filter).len() == filter_name(other).len());
    }
}

} // verus!
