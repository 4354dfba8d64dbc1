use lite_editor::Row;

#[test]
fn row_keeps_every_character_as_given() {
    for text in ["", "hello world", "  padded\t line  ", "caf\u{e9} \u{4e16}\u{754c}", "a\rb"] {
        let row = Row::from(text);
        assert_eq!(row.render(0, row.len()), text);
    }
}

#[test]
fn row_round_trips_a_text_with_line_breaks_too() {
    let text = "first\nsecond\r\nthird";
    let row = Row::from(text);
    assert_eq!(row.len(), 19);
    assert_eq!(row.render(0, row.len()), text);
}

#[test]
fn row_len_counts_characters_not_bytes() {
    assert_eq!(Row::from("").len(), 0);
    assert_eq!(Row::from("hello").len(), 5);
    assert_eq!(Row::from("h\u{e9}llo").len(), 5);
    assert_eq!(Row::from("\u{4e16}\u{754c}").len(), 2);
}

#[test]
fn row_render_gives_the_columns_of_the_range() {
    let row = Row::from("hello world");
    assert_eq!(row.render(0, 5), "hello");
    assert_eq!(row.render(2, 5), "llo");
    assert_eq!(row.render(6, 11), "world");
    assert_eq!(row.render(10, 11), "d");
}

#[test]
fn row_render_clamps_the_end_to_the_length() {
    let row = Row::from("hello world");
    assert_eq!(row.render(6, 100), "world");
    assert_eq!(row.render(0, usize::MAX), "hello world");
}

#[test]
fn row_render_is_empty_from_the_length_on() {
    let row = Row::from("hello");
    assert_eq!(row.render(5, 10), "");
    assert_eq!(row.render(20, 30), "");
    assert_eq!(row.render(usize::MAX, usize::MAX), "");
}

#[test]
fn row_render_is_empty_where_the_range_is() {
    let row = Row::from("hello");
    assert_eq!(row.render(3, 3), "");
    assert_eq!(row.render(4, 2), "");
    assert_eq!(row.render(0, 0), "");
}

#[test]
fn row_render_counts_columns_in_characters() {
    let row = Row::from("caf\u{e9} \u{4e16}\u{754c}!");
    assert_eq!(row.render(3, 6), "\u{e9} \u{4e16}");
    assert_eq!(row.render(5, 8), "\u{4e16}\u{754c}!");
}
