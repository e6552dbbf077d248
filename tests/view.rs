use hecto::{Buffer, MoveError, MovementDirection, Position, View};

fn view_with(text: &str, width: u16, height: u16) -> View {
    let mut view = View::new(width, height);
    view.fill_buffer(text);
    view
}

fn pos(x: usize, y: usize) -> Position {
    Position { x, y }
}

#[test]
fn load_splits_on_newlines_in_order() {
    let mut buffer = Buffer::new();
    buffer.load("abc\r\nde\n\nfghij\n");
    assert_eq!(buffer.contents, vec!["abc", "de", "", "fghij"]);
    assert_eq!(buffer.line_count(), 4);
    assert!(!buffer.is_empty());
    assert_eq!(buffer.line(1).map(|l| l.as_str()), Some("de"));
    assert_eq!(buffer.line(4), None);
}

#[test]
fn load_of_nothing_leaves_buffer_empty() {
    let mut buffer = Buffer::new();
    buffer.load("");
    assert!(buffer.is_empty());
    buffer.load("x");
    buffer.load("y\n");
    assert_eq!(buffer.contents, vec!["x", "y"]);
}

#[test]
fn load_keeps_a_final_bare_carriage_return() {
    let mut buffer = Buffer::new();
    buffer.load("a\r\nb\r");
    assert_eq!(buffer.contents, vec!["a", "b\r"]);
}

#[test]
fn four_rights_on_a_three_column_viewport_scroll_once() {
    let mut view = view_with("abc\nde\nfghij", 3, 5);
    for _ in 0..4 {
        assert_eq!(view.move_caret(MovementDirection::Right, 1), Ok(()));
    }
    assert_eq!(view.location, pos(3, 0));
    assert_eq!(view.position, pos(2, 0));
    assert_eq!(view.scroll_offset, pos(1, 0));
}

#[test]
fn home_after_scrolling_right_by_five_resets_columns() {
    let mut view = view_with("abcdefghijkl", 3, 5);
    for _ in 0..7 {
        view.move_caret(MovementDirection::Right, 1).unwrap();
    }
    assert_eq!(view.scroll_offset, pos(5, 0));
    assert_eq!(view.location, pos(7, 0));
    assert_eq!(view.position, pos(2, 0));
    view.move_caret(MovementDirection::FullLeft, 0).unwrap();
    assert_eq!(view.scroll_offset, pos(0, 0));
    assert_eq!(view.location, pos(0, 0));
    assert_eq!(view.position, pos(0, 0));
    assert!(view.needs_redraw);
}

#[test]
fn left_at_line_start_changes_nothing() {
    let mut view = view_with("abc\nde", 10, 5);
    let _ = view.render();
    assert!(!view.needs_redraw);
    view.move_caret(MovementDirection::Left, 1).unwrap();
    assert_eq!(view.location, pos(0, 0));
    assert_eq!(view.position, pos(0, 0));
    assert_eq!(view.scroll_offset, pos(0, 0));
    assert!(!view.needs_redraw);
}

#[test]
fn right_stops_at_line_end() {
    let mut view = view_with("abc", 10, 5);
    for _ in 0..5 {
        view.move_caret(MovementDirection::Right, 1).unwrap();
    }
    assert_eq!(view.location, pos(3, 0));
    assert_eq!(view.position, pos(3, 0));
    view.move_caret(MovementDirection::FullLeft, 0).unwrap();
    view.move_caret(MovementDirection::Right, 100).unwrap();
    assert_eq!(view.location, pos(3, 0));
}

#[test]
fn right_on_an_empty_buffer_is_line_missing() {
    let mut view = View::new(10, 5);
    assert_eq!(view.move_caret(MovementDirection::Right, 1), Err(MoveError::LineMissing));
    assert_eq!(view.move_caret(MovementDirection::FullRight, 0), Err(MoveError::LineMissing));
    assert_eq!(view.location, pos(0, 0));
    assert_eq!(view.move_caret(MovementDirection::Down, 1), Ok(()));
    assert_eq!(view.location, pos(0, 0));
}

#[test]
fn down_scrolls_at_the_bottom_row_and_stops_at_last_line() {
    let mut view = view_with("a\nb\nc\nd", 5, 2);
    for _ in 0..5 {
        view.move_caret(MovementDirection::Down, 1).unwrap();
    }
    assert_eq!(view.location, pos(0, 3));
    assert_eq!(view.position, pos(0, 1));
    assert_eq!(view.scroll_offset, pos(0, 2));
    for _ in 0..5 {
        view.move_caret(MovementDirection::Up, 1).unwrap();
    }
    assert_eq!(view.location, pos(0, 0));
    assert_eq!(view.position, pos(0, 0));
    assert_eq!(view.scroll_offset, pos(0, 0));
}

#[test]
fn top_and_bottom_snap_to_visible_rows() {
    let mut view = view_with("0\n1\n2\n3\n4\n5\n6\n7\n8\n9", 5, 4);
    view.move_caret(MovementDirection::Bottom, 0).unwrap();
    assert_eq!(view.location, pos(0, 3));
    assert_eq!(view.position, pos(0, 3));
    view.move_caret(MovementDirection::Down, 3).unwrap();
    assert_eq!(view.location, pos(0, 6));
    assert_eq!(view.position, pos(0, 3));
    assert_eq!(view.scroll_offset, pos(0, 3));
    view.move_caret(MovementDirection::Up, 1).unwrap();
    view.move_caret(MovementDirection::Top, 0).unwrap();
    assert_eq!(view.location, pos(0, 3));
    assert_eq!(view.position, pos(0, 0));
    view.move_caret(MovementDirection::Down, 6).unwrap();
    assert_eq!(view.location, pos(0, 9));
    assert_eq!(view.scroll_offset, pos(0, 6));
    view.move_caret(MovementDirection::Up, 2).unwrap();
    assert_eq!(view.position, pos(0, 1));
    view.move_caret(MovementDirection::Bottom, 0).unwrap();
    assert_eq!(view.location, pos(0, 9));
    assert_eq!(view.position, pos(0, 3));
}

#[test]
fn bottom_stops_at_the_last_line_when_the_text_ends_on_screen() {
    let mut view = view_with("a\nb\nc", 10, 8);
    view.move_caret(MovementDirection::Bottom, 0).unwrap();
    assert_eq!(view.location, pos(0, 2));
    assert_eq!(view.position, pos(0, 2));
}

#[test]
fn end_on_a_wide_line_scrolls_its_end_into_view() {
    let mut view = view_with("abcdefghij\nxy", 4, 3);
    view.move_caret(MovementDirection::FullRight, 0).unwrap();
    assert_eq!(view.location, pos(10, 0));
    assert_eq!(view.position, pos(3, 0));
    assert_eq!(view.scroll_offset, pos(7, 0));
    view.move_caret(MovementDirection::Down, 1).unwrap();
    view.move_caret(MovementDirection::FullRight, 0).unwrap();
    assert_eq!(view.location, pos(2, 1));
    assert_eq!(view.position, pos(2, 1));
    assert_eq!(view.scroll_offset, pos(0, 0));
}

#[test]
fn scroll_saturates_at_zero_and_marks_redraw() {
    let mut view = view_with("abc", 10, 5);
    let _ = view.render();
    view.scroll(MovementDirection::Left, 3);
    assert_eq!(view.scroll_offset, pos(0, 0));
    assert!(view.needs_redraw);
    view.scroll(MovementDirection::Up, 1);
    assert_eq!(view.scroll_offset, pos(0, 0));
    view.scroll(MovementDirection::Right, 4);
    view.scroll(MovementDirection::Down, 2);
    assert_eq!(view.scroll_offset, pos(4, 2));
    view.scroll(MovementDirection::Left, 10);
    assert_eq!(view.scroll_offset, pos(0, 2));
    view.scroll(MovementDirection::Right, usize::MAX);
    assert_eq!(view.scroll_offset.x, usize::MAX);
}

#[test]
fn narrower_terminal_clips_rows_to_new_width() {
    let mut view = view_with("hello world\nhi\n", 20, 4);
    let rows = view.render();
    assert_eq!(rows, vec!["hello world", "hi", "", ""]);
    assert!(!view.needs_redraw);
    view.update_terminal_size(4, 3);
    assert!(view.needs_redraw);
    let rows = view.render();
    assert_eq!(rows, vec!["hell", "hi", ""]);
    assert!(!view.needs_redraw);
}

#[test]
fn render_clips_to_the_scrolled_window() {
    let mut view = view_with("abcdef\nxy\nlong line here", 3, 2);
    view.scroll(MovementDirection::Right, 2);
    view.scroll(MovementDirection::Down, 1);
    assert_eq!(view.render(), vec!["", "ng "]);
    assert_eq!(view.draw_line("abcdef"), "cde");
}

#[test]
fn keep_caret_visible_scrolls_after_shrinking() {
    let mut view = view_with("abcdefghij\nb\nc\nd\ne", 20, 10);
    view.move_caret(MovementDirection::FullRight, 0).unwrap();
    view.move_caret(MovementDirection::Down, 4).unwrap();
    assert_eq!(view.position, pos(10, 4));
    view.update_terminal_size(5, 2);
    view.keep_caret_visible();
    assert_eq!(view.scroll_offset, pos(6, 3));
    assert_eq!(view.position, pos(4, 1));
    assert_eq!(view.location, pos(10, 4));
}

#[test]
fn title_screen_fills_rows_and_centres_banner() {
    let mut view = View::new(80, 24);
    let title = view.render_title_screen();
    assert_eq!(title.rows.len(), 24);
    assert!(title.rows.iter().all(|r| r == "~"));
    assert_eq!(title.name_at, pos(38, 6));
    assert_eq!(title.version_at, pos(40, 7));
    assert!(!view.needs_redraw);
    assert_eq!(View::draw_empty_line(), "~");
}

#[test]
fn title_banner_stays_on_a_tiny_screen() {
    let view = View::new(3, 4);
    assert_eq!(view.draw_title(), (pos(0, 0), pos(2, 1)));
}

#[test]
fn wrapped_render_splits_and_trims_wide_lines() {
    let mut view = view_with("  ab  cd\nxyz\n a", 4, 10);
    let rows = view.render_wrapped();
    assert_eq!(rows, vec!["ab", "cd", "xyz", "a"]);
    assert!(!view.needs_redraw);
}

#[test]
fn wrapped_render_stops_at_the_last_row() {
    let mut view = view_with("abcdefghij\nk", 3, 3);
    assert_eq!(view.render_wrapped(), vec!["abc", "def", "ghi"]);
    let mut rows = Vec::new();
    assert_eq!(view.draw_line_wrapped("abcdefghij", &mut rows), 4);
    assert_eq!(rows, vec!["abc", "def", "ghi", "j"]);
}

#[test]
fn visible_range_is_offset_plus_size() {
    let mut view = view_with("abc", 7, 4);
    assert_eq!(view.visible_range(), ((0, 4), (0, 7)));
    view.scroll(MovementDirection::Right, 3);
    view.scroll(MovementDirection::Down, 2);
    assert_eq!(view.visible_range(), ((2, 6), (3, 10)));
    view.scroll(MovementDirection::Down, usize::MAX);
    assert_eq!(view.visible_range().0, (usize::MAX, usize::MAX));
}
