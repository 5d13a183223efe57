use editor_core::keys::Key;
use editor_core::output::Output;
use editor_core::rows::EditorRows;
use editor_core::search::{SearchDirection, SearchIndex};

fn open(text: &str) -> Output {
    Output::new((80, 25), EditorRows::from_file("f.txt".to_string(), text))
}

fn lines(output: &Output) -> Vec<String> {
    (0..output.editor_rows.num_rows())
        .map(|i| output.editor_rows.get_row(i).row_content.iter().collect())
        .collect()
}

fn place(output: &mut Output, x: usize, y: usize) {
    output.cursor_controller.cursor_x = x;
    output.cursor_controller.cursor_y = y;
}

fn cursor(output: &Output) -> (usize, usize) {
    (output.cursor_controller.cursor_x, output.cursor_controller.cursor_y)
}

#[test]
fn new_output_leaves_a_row_for_the_status_bar() {
    let output = open("a");
    assert_eq!(output.size, (80, 24));
    assert_eq!((output.cursor_controller.size_x, output.cursor_controller.size_y), (80, 24));
    assert_eq!(output.dirty, 0);
    assert_eq!(output.search_index, SearchIndex::new());
}

#[test]
fn backspace_at_line_start_joins_rows() {
    let mut output = open("hello\nworld");
    place(&mut output, 0, 1);
    output.backspace();
    assert_eq!(lines(&output), vec!["helloworld"]);
    assert_eq!(cursor(&output), (5, 0));
    assert_eq!(output.dirty, 1);
}

#[test]
fn backspace_removes_the_character_before_the_cursor() {
    let mut output = open("abc");
    place(&mut output, 2, 0);
    output.backspace();
    assert_eq!(lines(&output), vec!["ac"]);
    assert_eq!(cursor(&output), (1, 0));
}

#[test]
fn backspace_at_document_start() {
    let mut output = open("abc");
    output.backspace();
    assert_eq!(lines(&output), vec!["abc"]);
    assert_eq!(cursor(&output), (0, 0));
    assert_eq!(output.dirty, 1);
    let mut output = open("\n");
    assert_eq!(output.editor_rows.num_rows(), 1);
    output.backspace();
    assert_eq!(output.editor_rows.num_rows(), 0);
    let mut output = Output::new((80, 25), EditorRows::new());
    output.backspace();
    assert_eq!(output.editor_rows.num_rows(), 0);
    assert_eq!(output.dirty, 1);
}

#[test]
fn backspace_past_the_last_row_moves_left() {
    let mut output = open("ab\ncd");
    place(&mut output, 0, 2);
    output.backspace();
    assert_eq!(lines(&output), vec!["ab", "cd"]);
    assert_eq!(cursor(&output), (2, 1));
}

#[test]
fn delete_removes_the_character_under_the_cursor() {
    let mut output = open("abc\nde");
    place(&mut output, 1, 0);
    output.del();
    assert_eq!(lines(&output), vec!["ac", "de"]);
    assert_eq!(cursor(&output), (1, 0));
    assert_eq!(output.dirty, 1);
}

#[test]
fn delete_at_line_end_joins_the_next_row() {
    let mut output = open("abc\nde\nf");
    place(&mut output, 3, 0);
    output.del();
    assert_eq!(lines(&output), vec!["abcde", "f"]);
    assert_eq!(cursor(&output), (3, 0));
}

#[test]
fn delete_at_document_end_does_nothing() {
    let mut output = open("abc\nde");
    place(&mut output, 2, 1);
    output.del();
    assert_eq!(lines(&output), vec!["abc", "de"]);
    place(&mut output, 0, 2);
    output.del();
    assert_eq!(lines(&output), vec!["abc", "de"]);
    assert_eq!(output.dirty, 2);
}

#[test]
fn delete_in_empty_documents() {
    let mut output = Output::new((80, 25), EditorRows::new());
    output.del();
    assert_eq!(output.editor_rows.num_rows(), 0);
    assert_eq!(output.dirty, 1);
    let mut output = open("\n");
    output.del();
    assert_eq!(output.editor_rows.num_rows(), 0);
}

#[test]
fn enter_splits_the_row() {
    let mut output = open("hello world\nnext");
    place(&mut output, 5, 0);
    output.enter();
    assert_eq!(lines(&output), vec!["hello", " world", "next"]);
    assert_eq!(cursor(&output), (0, 1));
    assert_eq!(output.dirty, 1);
}

#[test]
fn enter_renders_both_halves() {
    let mut output = open("a\tb\tc");
    place(&mut output, 2, 0);
    output.enter();
    assert_eq!(lines(&output), vec!["a\t", "b\tc"]);
    let first: String = output.editor_rows.get_render(0).iter().collect();
    let second: String = output.editor_rows.get_render(1).iter().collect();
    assert_eq!(first, "a       ");
    assert_eq!(second, "b       c");
}

#[test]
fn enter_past_the_last_row_adds_a_row() {
    let mut output = open("a");
    place(&mut output, 0, 1);
    output.enter();
    assert_eq!(lines(&output), vec!["a", ""]);
    assert_eq!(cursor(&output), (0, 2));
}

#[test]
fn insert_char_types_at_the_cursor() {
    let mut output = Output::new((80, 25), EditorRows::new());
    output.insert_char('h');
    output.insert_char('i');
    assert_eq!(lines(&output), vec!["hi"]);
    assert_eq!(cursor(&output), (2, 0));
    assert_eq!(output.dirty, 2);
    place(&mut output, 1, 0);
    output.insert_char('\t');
    assert_eq!(lines(&output), vec!["h\ti"]);
    let render: String = output.editor_rows.get_render(0).iter().collect();
    assert_eq!(render, "h       i");
}

#[test]
fn insert_then_backspace_restores_the_row() {
    let mut output = open("some\ttext");
    for p in 0..=9 {
        place(&mut output, p, 0);
        output.insert_char('x');
        output.backspace();
        assert_eq!(lines(&output), vec!["some\ttext"]);
        assert_eq!(cursor(&output), (p, 0));
    }
}

#[test]
fn move_cursor_goes_through_the_controller() {
    let mut output = Output::new((80, 25), EditorRows::new());
    for _ in 0..8 {
        output.move_cursor(Key::Down);
    }
    output.move_cursor(Key::Up);
    assert_eq!(cursor(&output), (0, 0));
    let mut output = open("ab\ncd");
    output.move_cursor(Key::Down);
    output.move_cursor(Key::End);
    assert_eq!(cursor(&output), (2, 1));
    assert_eq!(output.dirty, 0);
}

#[test]
fn search_finds_first_match_then_next_row() {
    let mut output = open("foo\nbar foo\nbaz");
    output.find_callback("foo", Some(Key::Char('o')));
    assert_eq!(cursor(&output), (0, 0));
    assert_eq!((output.search_index.x_index, output.search_index.y_index), (0, 0));
    output.find_callback("foo", Some(Key::Down));
    assert_eq!(cursor(&output), (4, 1));
    assert_eq!((output.search_index.x_index, output.search_index.y_index), (4, 1));
    assert_eq!(output.search_index.y_direction, Some(SearchDirection::Forward));
    assert_eq!(output.search_index.x_direction, None);
}

#[test]
fn search_without_match_changes_nothing() {
    let mut output = open("foo\nbar foo\nbaz");
    output.find_callback("foo", Some(Key::Char('o')));
    output.find_callback("foo", Some(Key::Down));
    let before = (cursor(&output), output.search_index);
    output.find_callback("foo", Some(Key::Down));
    assert_eq!((cursor(&output), output.search_index), before);
    output.find_callback("nowhere", Some(Key::Char('e')));
    assert_eq!((cursor(&output), output.search_index), before);
    output.find_callback("foo", None);
    assert_eq!((cursor(&output), output.search_index), before);
}

#[test]
fn search_upwards_and_along_the_row() {
    let mut output = open("foo foo\nbar\nfoo");
    output.find_callback("foo", Some(Key::Char('o')));
    assert_eq!(cursor(&output), (0, 0));
    output.find_callback("foo", Some(Key::Right));
    assert_eq!(cursor(&output), (4, 0));
    assert_eq!(output.search_index.x_direction, Some(SearchDirection::Forward));
    output.find_callback("foo", Some(Key::Right));
    assert_eq!(cursor(&output), (4, 0));
    output.find_callback("foo", Some(Key::Left));
    assert_eq!(cursor(&output), (0, 0));
    output.find_callback("foo", Some(Key::Left));
    assert_eq!(cursor(&output), (0, 0));
    output.find_callback("foo", Some(Key::Down));
    assert_eq!(cursor(&output), (0, 2));
    output.find_callback("foo", Some(Key::Down));
    assert_eq!(cursor(&output), (0, 2));
    output.find_callback("foo", Some(Key::Up));
    assert_eq!(cursor(&output), (0, 0));
    output.find_callback("foo", Some(Key::Up));
    assert_eq!(cursor(&output), (0, 0));
}

#[test]
fn search_backwards_needs_the_whole_match_before_the_column() {
    let mut output = open("aaaa");
    output.search_index.x_index = 3;
    output.find_callback("aa", Some(Key::Left));
    assert_eq!(output.search_index.x_index, 1);
    output.find_callback("aa", Some(Key::Left));
    assert_eq!(output.search_index.x_index, 1);
}

#[test]
fn search_from_the_row_of_the_last_match() {
    let mut output = open("foo\nbar foo\nfoo baz");
    output.find_callback("foo", Some(Key::Char('o')));
    output.find_callback("foo", Some(Key::Down));
    assert_eq!(cursor(&output), (4, 1));
    output.find_callback("foo b", Some(Key::Char('b')));
    assert_eq!(cursor(&output), (0, 2));
}

#[test]
fn search_looks_at_the_rendered_text() {
    let mut output = open("\tfoo");
    output.find_callback("foo", Some(Key::Char('o')));
    assert_eq!(output.search_index.x_index, 8);
    assert_eq!(cursor(&output), (1, 0));
    output.refresh();
    assert_eq!(cursor(&output), (1, 0));
    assert_eq!(output.cursor_controller.render_x, 8);
}

#[test]
fn search_match_inside_the_spaces_of_a_tab_falls_on_the_tab() {
    let mut output = open("ab\tcd");
    output.find_callback("  c", Some(Key::Char('c')));
    assert_eq!(output.search_index.x_index, 6);
    assert_eq!(cursor(&output), (2, 0));
    output.find_callback(" ", Some(Key::Char(' ')));
    assert_eq!(output.search_index.x_index, 2);
    assert_eq!(cursor(&output), (2, 0));
}

#[test]
fn escape_and_enter_reset_the_search() {
    let mut output = open("foo\nbar foo");
    output.find_callback("foo", Some(Key::Down));
    assert_eq!(output.search_index.y_index, 1);
    output.find_callback("foo", Some(Key::Esc));
    assert_eq!(output.search_index, SearchIndex::new());
    assert_eq!(cursor(&output), (4, 1));
    output.find_callback("foo", Some(Key::Down));
    output.find_callback("foo", Some(Key::Enter));
    assert_eq!(output.search_index, SearchIndex::new());
}

#[test]
fn search_index_resets() {
    let mut index = SearchIndex::new();
    index.x_index = 3;
    index.y_index = 4;
    index.x_direction = Some(SearchDirection::Forward);
    index.y_direction = Some(SearchDirection::Backward);
    index.reset();
    assert_eq!((index.x_index, index.y_index), (0, 0));
    assert_eq!((index.x_direction, index.y_direction), (None, None));
}

#[test]
fn save_without_a_filename_reports_it() {
    let mut output = Output::new((80, 25), EditorRows::new());
    output.insert_char('a');
    assert!(output.save().is_none());
    assert_eq!(
        output.status_message.message().map(|m| m.as_str()),
        Some("Error \"no file name specified\"")
    );
    assert_eq!(output.dirty, 1);
    output.editor_rows.filename = Some("a.txt".to_string());
    let image = output.save().unwrap();
    assert_eq!(image.filename, "a.txt");
    assert_eq!(image.content, "a\n");
    assert_eq!(image.len, 2);
    output.save_finished(Ok(image.len));
    assert_eq!(output.dirty, 0);
    assert_eq!(
        output.status_message.message().map(|m| m.as_str()),
        Some("2 bytes written to disk")
    );
}

#[test]
fn failed_save_is_reported_and_keeps_the_document_dirty() {
    let mut output = open("abc");
    output.insert_char('x');
    output.save_finished(Err("disk \"full\"".to_string()));
    assert_eq!(output.dirty, 1);
    assert_eq!(
        output.status_message.message().map(|m| m.as_str()),
        Some("Error \"disk \\\"full\\\"\"")
    );
}

#[test]
fn save_counts_all_characters_and_one_line_feed_per_row() {
    let mut output = open("hello\nworld\n\nlast");
    let image = output.save().unwrap();
    assert_eq!(image.len, 5 + 5 + 0 + 4 + 4);
    output.save_finished(Ok(image.len));
    assert_eq!(
        output.status_message.message().map(|m| m.as_str()),
        Some("18 bytes written to disk")
    );
}
