use rust_ui::svg_path::{parse_svg_path, PathCommand, PathStep};

fn ops(step: &PathStep) -> Vec<Option<&str>> {
    step.operands.iter().map(|o| o.as_deref()).collect()
}

#[test]
fn absolute_move_line_close() {
    let s = parse_svg_path("M 1 2 L 3 4 Z");
    assert_eq!(s.len(), 3);
    assert_eq!(s[0].command, PathCommand::MoveTo);
    assert!(!s[0].relative);
    assert_eq!(ops(&s[0]), vec![Some("1"), Some("2")]);
    assert_eq!(s[1].command, PathCommand::LineTo);
    assert_eq!(ops(&s[1]), vec![Some("3"), Some("4")]);
    assert_eq!(s[2].command, PathCommand::ClosePath);
    assert!(ops(&s[2]).is_empty());
}

#[test]
fn line_before_any_move_starts_at_current_point() {
    let s = parse_svg_path("l 5 -5");
    assert_eq!(s.len(), 2);
    assert_eq!(s[0].command, PathCommand::MoveTo);
    assert!(s[0].relative);
    assert!(s[0].operands.is_empty());
    assert_eq!(s[1].command, PathCommand::LineTo);
    assert!(s[1].relative);
    assert_eq!(ops(&s[1]), vec![Some("5"), Some("-5")]);
}

#[test]
fn close_then_line_still_needs_a_move() {
    let s = parse_svg_path("Z L 1 1");
    let cmds: Vec<PathCommand> = s.iter().map(|x| x.command).collect();
    assert_eq!(cmds, vec![PathCommand::ClosePath, PathCommand::MoveTo, PathCommand::LineTo]);
}

#[test]
fn curve_takes_six_words() {
    let s = parse_svg_path("M0 0\tc 1 2 3 4 5 6\nL 7 8");
    // "M0" is one word and names no command, so it is skipped with "0 0".
    assert_eq!(s.len(), 3);
    assert_eq!(s[0].command, PathCommand::MoveTo);
    assert!(s[0].operands.is_empty());
    assert_eq!(s[1].command, PathCommand::CurveTo);
    assert!(s[1].relative);
    assert_eq!(ops(&s[1]), vec![Some("1"), Some("2"), Some("3"), Some("4"), Some("5"), Some("6")]);
    assert_eq!(s[2].command, PathCommand::LineTo);
    assert!(!s[2].relative);
    assert_eq!(ops(&s[2]), vec![Some("7"), Some("8")]);
}

#[test]
fn missing_coordinates_are_none() {
    let s = parse_svg_path("M 1");
    assert_eq!(s.len(), 1);
    assert_eq!(ops(&s[0]), vec![Some("1"), None]);
}

#[test]
fn coordinate_words_are_taken_even_when_they_name_commands() {
    let s = parse_svg_path("M Z 1 L");
    assert_eq!(s.len(), 2);
    assert_eq!(ops(&s[0]), vec![Some("Z"), Some("1")]);
    assert_eq!(s[1].command, PathCommand::LineTo);
    assert_eq!(ops(&s[1]), vec![None, None]);
}

#[test]
fn empty_and_blank_data_draw_nothing() {
    assert!(parse_svg_path("").is_empty());
    assert!(parse_svg_path("  \n\t ").is_empty());
    assert!(parse_svg_path("X Y 3").is_empty());
}

#[test]
fn icon_data_with_letter_glued_to_number() {
    let d = rust_ui::widget::icon::lucide_path_data("check").unwrap();
    let s = parse_svg_path(&d);
    // "M20" is a single word that names no command.
    let cmds: Vec<PathCommand> = s.iter().map(|x| x.command).collect();
    assert_eq!(cmds, vec![PathCommand::MoveTo, PathCommand::LineTo, PathCommand::LineTo]);
    assert!(s[0].operands.is_empty());
    assert_eq!(ops(&s[1]), vec![Some("9"), Some("17")]);
    assert_eq!(ops(&s[2]), vec![Some("4"), Some("12")]);
}
