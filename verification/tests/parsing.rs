use launcher::ansi::{parse_line, segments_from_blocks, AnsiBlock, AnsiSegment};
use launcher::color::AnsiColor;

fn flat(segments: &[AnsiSegment]) -> Vec<(String, Option<AnsiColor>)> {
    segments.iter().map(|s| (s.text.clone(), s.color)).collect()
}

fn seg(text: &str, color: Option<AnsiColor>) -> (String, Option<AnsiColor>) {
    (text.to_string(), color)
}

#[test]
fn red_error_then_plain_text() {
    let segments = parse_line("\x1b[31mERROR\x1b[0m: failed");
    assert_eq!(
        flat(&segments),
        vec![seg("ERROR", Some(AnsiColor::Red)), seg(": failed", None)]
    );
}

#[test]
fn plain_line_is_one_default_segment() {
    assert_eq!(flat(&parse_line("hello world")), vec![seg("hello world", None)]);
}

#[test]
fn empty_line_has_no_segments() {
    assert!(parse_line("").is_empty());
}

#[test]
fn line_of_control_sequences_only_has_no_segments() {
    assert!(parse_line("\x1b[31m\x1b[0m\x1b[m\x1b[2J").is_empty());
}

#[test]
fn consecutive_sequences_give_no_empty_segment() {
    let segments = parse_line("\x1b[m\x1b[31m\x1b[32mgo\x1b[0m\x1b[0m");
    assert_eq!(flat(&segments), vec![seg("go", Some(AnsiColor::Green))]);
    assert!(segments.iter().all(|s| !s.text.is_empty()));
}

#[test]
fn empty_parameter_resets_to_default() {
    let segments = parse_line("\x1b[34mblue\x1b[mplain");
    assert_eq!(
        flat(&segments),
        vec![seg("blue", Some(AnsiColor::Blue)), seg("plain", None)]
    );
}

#[test]
fn parameter_39_resets_to_default() {
    let segments = parse_line("\x1b[96mcyan\x1b[39mplain");
    assert_eq!(
        flat(&segments),
        vec![seg("cyan", Some(AnsiColor::BrightCyan)), seg("plain", None)]
    );
}

#[test]
fn bold_neither_splits_nor_shows() {
    assert_eq!(flat(&parse_line("a\x1b[1mb")), vec![seg("ab", None)]);
}

#[test]
fn background_colour_is_ignored() {
    assert_eq!(
        flat(&parse_line("\x1b[33myel\x1b[44mlow")),
        vec![seg("yellow", Some(AnsiColor::Yellow))]
    );
}

#[test]
fn several_parameters_apply_in_order() {
    assert_eq!(
        flat(&parse_line("\x1b[1;32mok")),
        vec![seg("ok", Some(AnsiColor::Green))]
    );
    assert_eq!(
        flat(&parse_line("x\x1b[31;0;35my")),
        vec![seg("x", None), seg("y", Some(AnsiColor::Magenta))]
    );
}

#[test]
fn cursor_movement_leaves_no_trace() {
    assert_eq!(flat(&parse_line("ab\x1b[2Acd\x1b[Kef")), vec![seg("abcdef", None)]);
}

#[test]
fn same_colour_twice_still_splits() {
    assert_eq!(
        flat(&parse_line("\x1b[31ma\x1b[31mb")),
        vec![seg("a", Some(AnsiColor::Red)), seg("b", Some(AnsiColor::Red))]
    );
}

#[test]
fn blocks_fold_into_segments() {
    let blocks = vec![
        AnsiBlock::Text("one ".to_string()),
        AnsiBlock::Control,
        AnsiBlock::Text("two".to_string()),
        AnsiBlock::Graphics(vec![1, 91]),
        AnsiBlock::Graphics(vec![4]),
        AnsiBlock::Text("three".to_string()),
        AnsiBlock::Graphics(vec![]),
        AnsiBlock::Text("".to_string()),
        AnsiBlock::Graphics(vec![97]),
    ];
    assert_eq!(
        flat(&segments_from_blocks(&blocks)),
        vec![seg("one two", None), seg("three", Some(AnsiColor::BrightRed))]
    );
}

#[test]
fn no_blocks_no_segments() {
    assert!(segments_from_blocks(&Vec::new()).is_empty());
}

#[test]
fn every_colour_parameter_maps_to_its_colour() {
    let all = [
        (30u8, AnsiColor::Black),
        (31, AnsiColor::Red),
        (32, AnsiColor::Green),
        (33, AnsiColor::Yellow),
        (34, AnsiColor::Blue),
        (35, AnsiColor::Magenta),
        (36, AnsiColor::Cyan),
        (37, AnsiColor::White),
        (90, AnsiColor::BrightBlack),
        (91, AnsiColor::BrightRed),
        (92, AnsiColor::BrightGreen),
        (93, AnsiColor::BrightYellow),
        (94, AnsiColor::BrightBlue),
        (95, AnsiColor::BrightMagenta),
        (96, AnsiColor::BrightCyan),
        (97, AnsiColor::BrightWhite),
    ];
    for (code, color) in all {
        assert_eq!(AnsiColor::from_code(code), Some(color));
        assert_eq!(color.code(), code);
    }
}

#[test]
fn other_parameters_select_no_colour() {
    for code in [0u8, 1, 29, 38, 39, 40, 47, 49, 89, 98, 100, 107, 255] {
        assert_eq!(AnsiColor::from_code(code), None);
    }
}

#[test]
fn palette_values() {
    assert_eq!(AnsiColor::Black.rgb(), (0, 0, 0));
    assert_eq!(AnsiColor::Red.rgb(), (0xCD, 0x5C, 0x5C));
    assert_eq!(AnsiColor::Blue.rgb(), (0x46, 0x82, 0xB4));
    assert_eq!(AnsiColor::BrightBlack.rgb(), (0x80, 0x80, 0x80));
    assert_eq!(AnsiColor::BrightWhite.rgb(), (255, 255, 255));
}

#[test]
fn segment_clone_keeps_text_and_colour() {
    let segment = AnsiSegment { text: "x".to_string(), color: Some(AnsiColor::Cyan) };
    let copy = segment.clone();
    assert_eq!(copy.text, "x");
    assert_eq!(copy.color, Some(AnsiColor::Cyan));
}
