use cloudwatch_logger::format::{
    colored_level, format_record, level_label, max_target_width, padded, render_line, Color,
    FormatState, Level,
};

#[test]
fn info_line_at_width_five() {
    assert_eq!(render_line(Level::Info, "net", 5, "up"), " INFO  net   > up");
}

#[test]
fn line_for_each_level() {
    assert_eq!(render_line(Level::Trace, "net", 5, "up"), " TRACE net   > up");
    assert_eq!(render_line(Level::Debug, "net", 5, "up"), " DEBUG net   > up");
    assert_eq!(render_line(Level::Warn, "net", 5, "up"), " WARN  net   > up");
    assert_eq!(render_line(Level::Error, "net", 5, "up"), " ERROR net   > up");
}

#[test]
fn tag_wider_than_width_is_not_cut() {
    assert_eq!(render_line(Level::Info, "network", 3, "m"), " INFO  network > m");
    assert_eq!(render_line(Level::Info, "", 0, ""), " INFO   > ");
}

#[test]
fn labels_and_colors() {
    assert_eq!(level_label(Level::Info), "INFO ");
    assert_eq!(level_label(Level::Warn), "WARN ");
    assert_eq!(level_label(Level::Error), "ERROR");
    assert_eq!(colored_level(Level::Trace), Color::Magenta);
    assert_eq!(colored_level(Level::Debug), Color::Blue);
    assert_eq!(colored_level(Level::Info), Color::Green);
    assert_eq!(colored_level(Level::Warn), Color::Yellow);
    assert_eq!(colored_level(Level::Error), Color::Red);
}

#[test]
fn padding() {
    assert_eq!(padded("ab", 4), "ab  ");
    assert_eq!(padded("abcd", 2), "abcd");
    assert_eq!(padded("", 3), "   ");
}

#[test]
fn width_is_running_maximum() {
    let mut state = FormatState::new();
    let tags = ["a", "abc", "ab", "abcdef", "", "abcd"];
    let expected = [1, 3, 3, 6, 6, 6];
    for (tag, want) in tags.iter().zip(expected.iter()) {
        assert_eq!(max_target_width(&mut state, tag), *want);
        assert_eq!(state.max_tag_width, *want);
    }
}

#[test]
fn width_same_for_any_order() {
    let orders = [["net", "db", "server"], ["server", "net", "db"], ["db", "server", "net"]];
    for order in orders.iter() {
        let mut state = FormatState::new();
        for tag in order.iter() {
            max_target_width(&mut state, tag);
        }
        assert_eq!(state.max_tag_width, 6);
    }
}

#[test]
fn earlier_lines_stay_narrow() {
    let mut state = FormatState::new();
    assert_eq!(format_record(&mut state, Level::Info, "db", "a"), " INFO  db > a");
    assert_eq!(format_record(&mut state, Level::Warn, "server", "b"), " WARN  server > b");
    assert_eq!(format_record(&mut state, Level::Info, "db", "c"), " INFO  db     > c");
}
