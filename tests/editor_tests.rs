use rustytext::{
    Buffer, Direction, Editor, Intent, Location, SaveError, Size, View,
};

fn lines_of(b: &Buffer) -> Vec<String> {
    b.lines.clone()
}

fn view_with(contents: &str) -> View {
    let mut v = View::new();
    v.load("notes.txt", contents);
    v
}

fn press(v: &mut View, dir: Direction, times: usize, size: Size) {
    for _ in 0..times {
        v.move_cursor_press(dir, size);
    }
}

const WIDE: Size = Size { cols: 80, rows: 24 };

#[test]
fn load_splits_on_line_feeds() {
    let b = Buffer::load("f.txt", "abc\nde\n");
    assert_eq!(lines_of(&b), vec!["abc".to_string(), "de".to_string()]);
    assert_eq!(b.line_count(), 2);
    assert!(!b.is_empty());
}

#[test]
fn load_without_final_terminator() {
    let b = Buffer::load("f.txt", "abc\nde");
    assert_eq!(lines_of(&b), vec!["abc".to_string(), "de".to_string()]);
}

#[test]
fn load_drops_carriage_returns_before_line_feeds() {
    let b = Buffer::load("f.txt", "a\r\nb\r\n");
    assert_eq!(lines_of(&b), vec!["a".to_string(), "b".to_string()]);
}

#[test]
fn load_empty_text_gives_empty_buffer() {
    let b = Buffer::load("f.txt", "");
    assert!(b.is_empty());
    assert_eq!(b.line_count(), 0);
}

#[test]
fn load_keeps_blank_lines() {
    let b = Buffer::load("f.txt", "\n\nx\n");
    assert_eq!(lines_of(&b), vec!["".to_string(), "".to_string(), "x".to_string()]);
}

#[test]
fn line_length_past_end_is_zero() {
    let b = Buffer::load("f.txt", "héllo\n");
    assert_eq!(b.line_length(0), 5);
    assert_eq!(b.line_length(1), 0);
    assert_eq!(b.line_length(100), 0);
}

#[test]
fn save_round_trips_terminated_text() {
    let text = "hello\n\nworld  \n";
    let b = Buffer::load("f.txt", text);
    let req = b.save().ok().unwrap();
    assert_eq!(req.path, "f.txt");
    assert_eq!(req.text, text);
}

#[test]
fn save_round_trips_empty_text() {
    let b = Buffer::load("f.txt", "");
    assert_eq!(b.save().ok().unwrap().text, "");
}

#[test]
fn save_terminates_every_line() {
    let b = Buffer::load("f.txt", "a\nb");
    assert_eq!(b.text(), "a\nb\n");
}

#[test]
fn save_without_file_fails() {
    let b = Buffer::new();
    assert_eq!(b.save().err(), Some(SaveError::NoDestination));
    let v = View::new();
    assert_eq!(v.save().err(), Some(SaveError::NoDestination));
}

#[test]
fn insert_on_append_row_adds_one_line() {
    let mut b = Buffer::load("f.txt", "ab\ncd\n");
    b.insert('q', Location { x: 7, y: 2 });
    assert_eq!(b.line_count(), 3);
    assert_eq!(lines_of(&b), vec!["ab".to_string(), "cd".to_string(), "q".to_string()]);
    let mut e = Buffer::new();
    e.insert('x', Location { x: 0, y: 0 });
    assert_eq!(lines_of(&e), vec!["x".to_string()]);
}

#[test]
fn insert_past_append_row_does_nothing() {
    let mut b = Buffer::load("f.txt", "ab\n");
    b.insert('q', Location { x: 0, y: 5 });
    assert_eq!(lines_of(&b), vec!["ab".to_string()]);
}

#[test]
fn insert_inside_line() {
    let mut b = Buffer::load("f.txt", "ac\n");
    b.insert('b', Location { x: 1, y: 0 });
    assert_eq!(lines_of(&b), vec!["abc".to_string()]);
    b.insert('_', Location { x: 0, y: 0 });
    assert_eq!(lines_of(&b), vec!["_abc".to_string()]);
}

#[test]
fn insert_clamps_column_to_line_end() {
    let mut b = Buffer::load("f.txt", "ab\n");
    b.insert('z', Location { x: 10, y: 0 });
    assert_eq!(lines_of(&b), vec!["abz".to_string()]);
}

#[test]
fn insert_counts_columns_in_characters() {
    let mut b = Buffer::load("f.txt", "éa\n");
    b.insert('x', Location { x: 1, y: 0 });
    assert_eq!(lines_of(&b), vec!["éxa".to_string()]);
}

#[test]
fn right_moves_stop_at_line_end() {
    let mut v = view_with("abc\nde\n");
    press(&mut v, Direction::Right, 3, WIDE);
    assert_eq!(v.cursor(), Location { x: 3, y: 0 });
    press(&mut v, Direction::Right, 1, WIDE);
    assert_eq!(v.cursor(), Location { x: 3, y: 0 });
}

#[test]
fn up_at_top_stays_on_first_row() {
    let mut v = view_with("abc\nde\n");
    v.move_cursor_press(Direction::Up, WIDE);
    assert_eq!(v.cursor(), Location { x: 0, y: 0 });
}

#[test]
fn left_at_line_start_stays() {
    let mut v = view_with("abc\n");
    v.move_cursor_press(Direction::Left, WIDE);
    assert_eq!(v.cursor(), Location { x: 0, y: 0 });
    press(&mut v, Direction::Right, 2, WIDE);
    v.move_cursor_press(Direction::Left, WIDE);
    assert_eq!(v.cursor(), Location { x: 1, y: 0 });
}

#[test]
fn down_snaps_to_shorter_line_and_stops_at_append_row() {
    let mut v = view_with("abc\nde\n");
    press(&mut v, Direction::Right, 3, WIDE);
    v.move_cursor_press(Direction::Down, WIDE);
    assert_eq!(v.cursor(), Location { x: 2, y: 1 });
    press(&mut v, Direction::Down, 3, WIDE);
    assert_eq!(v.cursor(), Location { x: 0, y: 2 });
    v.move_cursor_press(Direction::Up, WIDE);
    assert_eq!(v.cursor(), Location { x: 0, y: 1 });
}

#[test]
fn moves_keep_cursor_in_bounds() {
    let mut v = view_with("hello\n\nab\nlonger line\n");
    let dirs = [
        Direction::Right, Direction::Right, Direction::Down, Direction::Right,
        Direction::Down, Direction::Right, Direction::Right, Direction::Right,
        Direction::Down, Direction::Right, Direction::Down, Direction::Down,
        Direction::Up, Direction::Left, Direction::Up, Direction::Up,
    ];
    for d in dirs.iter() {
        v.move_cursor_press(*d, WIDE);
        let c = v.cursor();
        let b = v.buffer();
        assert!((c.y as usize) <= b.line_count());
        assert!((c.x as usize) <= b.line_length(c.y as usize));
    }
}

#[test]
fn scroll_follows_cursor_down_and_back() {
    let mut v = view_with("1\n2\n3\n4\n5\n6\n7\n8\n9\n10\n");
    let size = Size { cols: 80, rows: 3 };
    press(&mut v, Direction::Down, 5, size);
    assert_eq!(v.cursor(), Location { x: 0, y: 5 });
    assert_eq!(v.scroll_offset(), Location { x: 0, y: 3 });
    assert_eq!(v.get_location(), (0, 2));
    press(&mut v, Direction::Up, 4, size);
    assert_eq!(v.scroll_offset(), Location { x: 0, y: 1 });
    assert_eq!(v.get_location(), (0, 0));
}

#[test]
fn scroll_follows_cursor_right_and_slices_rows() {
    let mut v = view_with("hello world\n");
    let size = Size { cols: 5, rows: 2 };
    v.render(size);
    press(&mut v, Direction::Right, 7, size);
    assert_eq!(v.scroll_offset(), Location { x: 3, y: 0 });
    assert_eq!(v.get_location(), (4, 0));
    let rows = v.render(size).unwrap();
    assert_eq!(rows, vec!["lo wo".to_string(), "~".to_string()]);
}

#[test]
fn scroll_keeps_cursor_in_window_after_resize() {
    let mut v = view_with("0\n1\n2\n3\n4\n5\n6\n7\n");
    press(&mut v, Direction::Down, 7, WIDE);
    assert_eq!(v.scroll_offset(), Location { x: 0, y: 0 });
    v.render(WIDE);
    v.resize(Size { cols: 4, rows: 2 });
    assert!(v.needs_redraw());
    assert_eq!(v.scroll_offset(), Location { x: 0, y: 6 });
    assert_eq!(v.get_location(), (0, 1));
}

#[test]
fn render_twice_draws_once() {
    let mut v = view_with("abc\n");
    assert!(v.needs_redraw());
    assert!(v.render(WIDE).is_some());
    assert!(!v.needs_redraw());
    assert!(v.render(WIDE).is_none());
}

#[test]
fn render_empty_buffer_shows_banner() {
    let mut v = View::new();
    let rows = v.render(WIDE).unwrap();
    assert_eq!(rows.len(), 24);
    let banner = format!("~{}Welcome to RustyText!", " ".repeat(29));
    for (i, row) in rows.iter().enumerate() {
        if i == 8 {
            assert_eq!(row, &banner);
        } else {
            assert_eq!(row, "~");
        }
    }
}

#[test]
fn render_banner_cut_to_narrow_terminal() {
    let mut v = View::default();
    let rows = v.render(Size { cols: 10, rows: 2 }).unwrap();
    assert_eq!(rows, vec!["~Welcome t".to_string(), "~".to_string()]);
}

#[test]
fn render_marks_rows_past_document_end() {
    let mut v = view_with("ab\ncdef\n");
    let rows = v.render(Size { cols: 3, rows: 4 }).unwrap();
    assert_eq!(rows, vec!["ab".to_string(), "cde".to_string(), "~".to_string(), "~".to_string()]);
}

#[test]
fn render_zero_rows_is_empty() {
    let mut v = view_with("ab\n");
    let rows = v.render(Size { cols: 3, rows: 0 }).unwrap();
    assert!(rows.is_empty());
}

#[test]
fn view_insert_stays_in_place_and_marks_stale() {
    let mut v = view_with("ab\n");
    v.render(WIDE);
    v.move_cursor_press(Direction::Right, WIDE);
    v.render(WIDE);
    v.insert('x');
    assert!(v.needs_redraw());
    assert_eq!(v.cursor(), Location { x: 1, y: 0 });
    assert_eq!(v.buffer().lines, vec!["axb".to_string()]);
    let req = v.save().ok().unwrap();
    assert_eq!(req.path, "notes.txt");
    assert_eq!(req.text, "axb\n");
}

#[test]
fn editor_quit_and_ignored_intents() {
    let mut e = Editor::new(view_with("ab\n"));
    e.refresh_screen(WIDE);
    e.evaluate_event(Intent::Ignored, WIDE);
    assert!(!e.is_quitting());
    assert!(!e.view().needs_redraw());
    e.evaluate_event(Intent::Quit, WIDE);
    assert!(e.is_quitting());
}

#[test]
fn editor_moves_inserts_and_refreshes() {
    let mut e = Editor::new(View::new());
    let first = e.refresh_screen(WIDE);
    assert_eq!(first.rows.unwrap().len(), 24);
    assert!(e.refresh_screen(WIDE).rows.is_none());
    e.evaluate_event(Intent::Insert('h'), WIDE);
    e.evaluate_event(Intent::Move(Direction::Right), WIDE);
    e.evaluate_event(Intent::Insert('i'), WIDE);
    e.evaluate_event(Intent::Move(Direction::Right), WIDE);
    let frame = e.refresh_screen(Size { cols: 80, rows: 2 });
    assert_eq!(frame.rows.unwrap(), vec!["hi".to_string(), "~".to_string()]);
    assert_eq!((frame.cursor_col, frame.cursor_row), (2, 0));
    e.evaluate_event(Intent::Resize, Size { cols: 1, rows: 1 });
    let frame = e.refresh_screen(Size { cols: 1, rows: 1 });
    assert_eq!(frame.rows.unwrap(), vec!["".to_string()]);
    assert_eq!((frame.cursor_col, frame.cursor_row), (0, 0));
    assert_eq!(e.view().scroll_offset(), Location { x: 2, y: 0 });
}
