use key_monitor::logger::collector::format_log_line;
use key_monitor::logger::level::{selectable_levels, Level, LevelFilter, LogColor};
use key_monitor::logger::view::{parse_level, VisibleEntry};
use key_monitor::logger::{LogCollector, LogView};
use key_monitor::logging;

fn strings(lines: &[&str]) -> Vec<String> {
    lines.iter().map(|s| s.to_string()).collect()
}

#[test]
fn new_view_defaults_to_info() {
    let view = LogView::new(strings(&["a", "b"]));
    assert_eq!(view.log_level, LevelFilter::Info);
    assert_eq!(view.logs, strings(&["a", "b"]));
}

#[test]
fn parse_log_entry_reads_each_marker() {
    let view = LogView::new(Vec::new());
    assert_eq!(view.parse_log_entry("[t] [main] [ERROR] boom"), Some((Level::Error, LogColor::Red)));
    assert_eq!(view.parse_log_entry("[t] [main] [WARN] careful"), Some((Level::Warn, LogColor::Yellow)));
    assert_eq!(view.parse_log_entry("[t] [main] [INFO] hello"), Some((Level::Info, LogColor::Black)));
    assert_eq!(view.parse_log_entry("[t] [main] [DEBUG] detail"), Some((Level::Debug, LogColor::Gray)));
    assert_eq!(view.parse_log_entry("[t] [main] [TRACE] noise"), Some((Level::Trace, LogColor::Gray)));
}

#[test]
fn parse_log_entry_without_marker_is_none() {
    let view = LogView::new(Vec::new());
    assert_eq!(view.parse_log_entry("plain text"), None);
    assert_eq!(view.parse_log_entry(""), None);
    assert_eq!(view.parse_log_entry("[error] lower case"), None);
    assert_eq!(view.parse_log_entry("[ERROR"), None);
}

#[test]
fn parse_log_entry_prefers_the_most_severe_marker() {
    let view = LogView::new(Vec::new());
    assert_eq!(view.parse_log_entry("[INFO] then [ERROR]"), Some((Level::Error, LogColor::Red)));
    assert_eq!(view.parse_log_entry("[TRACE] [WARN]"), Some((Level::Warn, LogColor::Yellow)));
    assert_eq!(parse_level("[DEBUG][TRACE]"), Some(Level::Debug));
}

#[test]
fn parse_handles_non_ascii_text() {
    assert_eq!(parse_level("日志 [WARN] 警告"), Some(Level::Warn));
    assert_eq!(parse_level("日志 警告"), None);
}

#[test]
fn visible_entries_filter_by_level() {
    let mut view = LogView::new(strings(&[
        "[x] [m] [ERROR] e",
        "[x] [m] [WARN] w",
        "no marker",
        "[x] [m] [INFO] i",
        "[x] [m] [DEBUG] d",
        "[x] [m] [TRACE] t",
    ]));
    let shown = view.visible_entries();
    assert_eq!(
        shown,
        vec![
            VisibleEntry { index: 0, level: Level::Error, color: LogColor::Red },
            VisibleEntry { index: 1, level: Level::Warn, color: LogColor::Yellow },
            VisibleEntry { index: 3, level: Level::Info, color: LogColor::Black },
        ]
    );
    view.log_level = LevelFilter::Error;
    assert_eq!(view.visible_entries().len(), 1);
    view.log_level = LevelFilter::Off;
    assert!(view.visible_entries().is_empty());
    view.log_level = LevelFilter::Trace;
    let all: Vec<usize> = view.visible_entries().iter().map(|e| e.index).collect();
    assert_eq!(all, vec![0, 1, 3, 4, 5]);
}

#[test]
fn more_verbose_filter_hides_nothing() {
    let logs = strings(&["[ERROR] a", "[WARN] b", "[INFO] c", "[DEBUG] d", "[TRACE] e"]);
    let filters = [
        LevelFilter::Off,
        LevelFilter::Error,
        LevelFilter::Warn,
        LevelFilter::Info,
        LevelFilter::Debug,
        LevelFilter::Trace,
    ];
    let mut previous: Vec<usize> = Vec::new();
    for (n, filter) in filters.iter().enumerate() {
        let mut view = LogView::new(logs.clone());
        view.log_level = *filter;
        let shown: Vec<usize> = view.visible_entries().iter().map(|e| e.index).collect();
        assert_eq!(shown.len(), n);
        assert!(previous.iter().all(|i| shown.contains(i)));
        previous = shown;
    }
}

#[test]
fn clear_empties_logs_and_keeps_level() {
    let mut view = LogView::new(strings(&["[ERROR] a", "[INFO] b"]));
    view.log_level = LevelFilter::Debug;
    view.clear();
    assert!(view.logs.is_empty());
    assert_eq!(view.log_level, LevelFilter::Debug);
    assert!(view.visible_entries().is_empty());
}

#[test]
fn clone_copies_logs_and_level() {
    let mut view = LogView::new(strings(&["[WARN] a"]));
    view.log_level = LevelFilter::Warn;
    let copy = view.clone();
    assert_eq!(copy.logs, view.logs);
    assert_eq!(copy.log_level, LevelFilter::Warn);
}

#[test]
fn collector_stores_each_write() {
    let mut collector = LogCollector::new(strings(&["first"]));
    assert_eq!(collector.write(b"second"), 6);
    assert_eq!(collector.write(b""), 0);
    assert_eq!(collector.logs, strings(&["first", "second", ""]));
    collector.flush();
    assert_eq!(collector.logs.len(), 3);
}

#[test]
fn collector_replaces_invalid_utf8() {
    let mut collector = LogCollector::new(Vec::new());
    assert_eq!(collector.write(&[b'a', 0xff, b'b']), 3);
    assert_eq!(collector.logs[0], "a\u{FFFD}b");
    assert_eq!(collector.write("héllo".as_bytes()), 6);
    assert_eq!(collector.logs[1], "héllo");
}

#[test]
fn format_log_line_layout() {
    assert_eq!(
        format_log_line("2024-05-01 10:00:00", Some("main"), Level::Warn, "disk almost full"),
        "[2024-05-01 10:00:00] [main] [WARN] disk almost full"
    );
    assert_eq!(
        format_log_line("t", None, Level::Trace, ""),
        "[t] [<unnamed>] [TRACE] "
    );
}

#[test]
fn formatted_line_reads_back_its_level() {
    let view = LogView::new(Vec::new());
    for level in [Level::Error, Level::Warn, Level::Info, Level::Debug, Level::Trace] {
        let line = format_log_line("2024-05-01 10:00:00", Some("KeyboardInputThread-0"), level, "message");
        assert_eq!(view.parse_log_entry(&line), Some((level, level.color())));
    }
}

#[test]
fn timestamp_named_like_a_level_breaks_the_round_trip() {
    let line = format_log_line("ERROR", Some("main"), Level::Info, "m");
    assert_eq!(parse_level(&line), Some(Level::Error));
}

#[test]
fn collector_then_view_displays_written_record() {
    let mut collector = LogCollector::new(Vec::new());
    let line = format_log_line("2024-05-01 10:00:00", Some("main"), Level::Debug, "detail");
    collector.write(line.as_bytes());
    let mut view = LogView::new(collector.logs);
    assert!(view.visible_entries().is_empty());
    view.log_level = LevelFilter::Debug;
    assert_eq!(
        view.visible_entries(),
        vec![VisibleEntry { index: 0, level: Level::Debug, color: LogColor::Gray }]
    );
}

#[test]
fn level_names_and_ranks() {
    assert_eq!(Level::Error.as_str(), "ERROR");
    assert_eq!(Level::Warn.as_str(), "WARN");
    assert_eq!(Level::Info.as_str(), "INFO");
    assert_eq!(Level::Debug.as_str(), "DEBUG");
    assert_eq!(Level::Trace.as_str(), "TRACE");
    assert_eq!(LevelFilter::Off.name(), "Off");
    assert_eq!(LevelFilter::Trace.name(), "Trace");
    assert!(Level::Info.enabled_by(LevelFilter::Info));
    assert!(!Level::Debug.enabled_by(LevelFilter::Info));
    assert!(!Level::Error.enabled_by(LevelFilter::Off));
    assert_eq!(Level::Error.rank(), 1);
    assert_eq!(LevelFilter::Off.rank(), 0);
}

#[test]
fn selector_offers_five_levels() {
    assert_eq!(
        selectable_levels(),
        vec![LevelFilter::Error, LevelFilter::Warn, LevelFilter::Info, LevelFilter::Debug, LevelFilter::Trace]
    );
}

#[test]
fn older_view_treats_unmarked_lines_as_info() {
    let mut view = logging::LogView::new(strings(&["plain", "[DEBUG] d", "[ERROR] e"]));
    assert_eq!(view.log_level, LevelFilter::Info);
    assert_eq!(view.entry_style("plain"), (Level::Info, LogColor::Black));
    let shown: Vec<usize> = view.visible_entries().iter().map(|e| e.index).collect();
    assert_eq!(shown, vec![0, 2]);
    view.log_level = LevelFilter::Error;
    let shown: Vec<usize> = view.visible_entries().iter().map(|e| e.index).collect();
    assert_eq!(shown, vec![2]);
    view.clear();
    assert!(view.logs.is_empty());
    assert_eq!(view.log_level, LevelFilter::Error);
}

#[test]
fn older_format_ends_with_newline() {
    let line = logging::format_log_line("t", Some("main"), Level::Error, "x");
    assert_eq!(line, "[t] [main] [ERROR] x\n");
    assert_eq!(parse_level(&line), Some(Level::Error));
}

#[test]
fn thread_named_like_a_level_reads_back_more_severe() {
    let line = format_log_line("2024-05-01 10:00:00", Some("WARN"), Level::Info, "m");
    assert_eq!(parse_level(&line), Some(Level::Warn));
    let line = format_log_line("2024-05-01 10:00:00", Some("WARN"), Level::Error, "m");
    assert_eq!(parse_level(&line), Some(Level::Error));
}

#[test]
fn message_with_a_marker_reads_back_the_more_severe_one() {
    let line = format_log_line("t", Some("main"), Level::Debug, "got [ERROR] from peer");
    assert_eq!(parse_level(&line), Some(Level::Error));
    let line = format_log_line("t", Some("main"), Level::Debug, "see [TRACE] output");
    assert_eq!(parse_level(&line), Some(Level::Debug));
}
