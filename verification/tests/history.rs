use launcher::ansi::AnsiSegment;
use launcher::color::AnsiColor;
use launcher::log::{add_log_impl, LogBuffer, MAX_LOG_LINES};

fn line(text: &str) -> Vec<AnsiSegment> {
    vec![AnsiSegment { text: text.to_string(), color: None }]
}

fn texts(log: &LogBuffer) -> Vec<String> {
    log.snapshot()
        .iter()
        .map(|l| l.iter().map(|s| s.text.as_str()).collect::<String>())
        .collect()
}

#[test]
fn capacity_is_five_hundred() {
    assert_eq!(MAX_LOG_LINES, 500);
}

#[test]
fn new_history_is_empty() {
    let log = LogBuffer::new();
    assert_eq!(log.len(), 0);
    assert!(log.snapshot().is_empty());
}

#[test]
fn lines_come_out_oldest_first() {
    let mut log = LogBuffer::new();
    log.append(line("a"));
    log.append(line("b"));
    log.append(line("c"));
    assert_eq!(texts(&log), vec!["a", "b", "c"]);
}

#[test]
fn line_without_segments_is_not_stored() {
    let mut log = LogBuffer::new();
    log.append(line("a"));
    log.append(Vec::new());
    assert_eq!(texts(&log), vec!["a"]);
}

#[test]
fn full_history_drops_the_oldest() {
    let mut log = LogBuffer::new();
    for i in 0..MAX_LOG_LINES {
        log.append(line(&format!("line {}", i)));
    }
    assert_eq!(log.len(), MAX_LOG_LINES);
    assert_eq!(texts(&log)[0], "line 0");
    log.append(line("line 500"));
    assert_eq!(log.len(), MAX_LOG_LINES);
    let all = texts(&log);
    assert_eq!(all[0], "line 1");
    assert_eq!(all[MAX_LOG_LINES - 1], "line 500");
}

#[test]
fn after_many_appends_the_most_recent_remain() {
    let mut log = LogBuffer::new();
    for i in 0..1234 {
        log.append(line(&format!("{}", i)));
        assert!(log.len() <= MAX_LOG_LINES);
    }
    let expected: Vec<String> = (734..1234).map(|i| format!("{}", i)).collect();
    assert_eq!(texts(&log), expected);
}

#[test]
fn empty_line_on_full_history_evicts_nothing() {
    let mut log = LogBuffer::new();
    for i in 0..MAX_LOG_LINES {
        log.append(line(&format!("{}", i)));
    }
    log.append(Vec::new());
    assert_eq!(log.len(), MAX_LOG_LINES);
    assert_eq!(texts(&log)[0], "0");
}

#[test]
fn clear_removes_everything() {
    let mut log = LogBuffer::new();
    log.append(line("a"));
    log.append(line("b"));
    log.clear();
    assert_eq!(log.len(), 0);
    log.append(line("c"));
    assert_eq!(texts(&log), vec!["c"]);
}

#[test]
fn snapshot_is_a_copy() {
    let mut log = LogBuffer::new();
    log.append(vec![
        AnsiSegment { text: "a".to_string(), color: Some(AnsiColor::Red) },
        AnsiSegment { text: "b".to_string(), color: None },
    ]);
    let mut copy = log.snapshot();
    assert_eq!(copy.len(), 1);
    assert_eq!(copy[0].len(), 2);
    assert_eq!(copy[0][0].color, Some(AnsiColor::Red));
    copy[0][0].text.push('!');
    copy.clear();
    assert_eq!(texts(&log), vec!["ab"]);
}

#[test]
fn message_is_parsed_before_it_is_stored() {
    let mut log = LogBuffer::new();
    add_log_impl(&mut log, "\x1b[32mok\x1b[0m done".to_string());
    let lines = log.snapshot();
    assert_eq!(lines.len(), 1);
    assert_eq!(lines[0].len(), 2);
    assert_eq!(lines[0][0].text, "ok");
    assert_eq!(lines[0][0].color, Some(AnsiColor::Green));
    assert_eq!(lines[0][1].text, " done");
    assert_eq!(lines[0][1].color, None);
}

#[test]
fn message_without_text_is_not_stored() {
    let mut log = LogBuffer::new();
    add_log_impl(&mut log, String::new());
    add_log_impl(&mut log, "\x1b[31m\x1b[0m".to_string());
    assert_eq!(log.len(), 0);
}
