use editor_core::rows::{EditorRows, Row, SaveError};

fn chars(s: &str) -> Vec<char> {
    s.chars().collect()
}

fn text(v: &[char]) -> String {
    v.iter().collect()
}

fn rendered(s: &str) -> String {
    let mut row = Row::new(chars(s), Vec::new());
    EditorRows::render_row(&mut row);
    text(&row.render)
}

fn lines_of(rows: &EditorRows) -> Vec<String> {
    (0..rows.num_rows()).map(|i| text(&rows.get_row(i).row_content)).collect()
}

#[test]
fn tab_expands_to_next_stop() {
    assert_eq!(rendered("a\tb"), "a       b");
    assert_eq!(rendered("\t"), "        ");
    assert_eq!(rendered("abcdefgh\tx"), "abcdefgh        x");
    assert_eq!(rendered("\t\t"), " ".repeat(16));
}

#[test]
fn render_is_never_shorter_than_content() {
    for s in ["", "plain", "a\tb", "\t\t\t", "1234567\t", "12345678\t9"] {
        let r = rendered(s);
        assert!(r.chars().count() >= s.chars().count());
        if !s.contains('\t') {
            assert_eq!(r, s);
        }
    }
}

#[test]
fn tab_one_step_before_a_stop_is_one_space() {
    let s = "abcdefg\t";
    assert_eq!(rendered(s), "abcdefg ");
    assert_eq!(rendered(s).len(), s.len());
}

#[test]
fn insert_then_delete_restores_row() {
    let mut row = Row::new(chars("he\tllo"), Vec::new());
    EditorRows::render_row(&mut row);
    row.insert_char('x', 3);
    assert_eq!(text(&row.row_content), "he\txllo");
    assert_eq!(text(&row.render), "he      xllo");
    row.delete_char(3);
    assert_eq!(text(&row.row_content), "he\tllo");
    assert_eq!(text(&row.render), "he      llo");
}

#[test]
fn insert_at_both_ends() {
    let mut row = Row::default();
    row.insert_char('b', 0);
    row.insert_char('a', 0);
    row.insert_char('c', 2);
    assert_eq!(text(&row.row_content), "abc");
    assert_eq!(text(&row.render), "abc");
}

#[test]
fn delete_past_the_end_changes_nothing() {
    let mut row = Row::new(chars("ab"), chars("ab"));
    row.delete_char(2);
    row.delete_char(7);
    assert_eq!(text(&row.row_content), "ab");
    assert_eq!(text(&row.render), "ab");
}

#[test]
fn new_document_is_empty_and_unnamed() {
    let rows = EditorRows::new();
    assert_eq!(rows.num_rows(), 0);
    assert!(rows.filename.is_none());
}

#[test]
fn from_file_splits_lines() {
    let rows = EditorRows::from_file("notes.txt".to_string(), "one\ntwo\r\n\nfour");
    assert_eq!(rows.filename.as_deref(), Some("notes.txt"));
    assert_eq!(lines_of(&rows), vec!["one", "two", "", "four"]);
    let rows = EditorRows::from_file("f".to_string(), "one\n");
    assert_eq!(lines_of(&rows), vec!["one"]);
    let rows = EditorRows::from_file("f".to_string(), "");
    assert_eq!(rows.num_rows(), 0);
    let rows = EditorRows::from_file("f".to_string(), "\n");
    assert_eq!(lines_of(&rows), vec![""]);
    let rows = EditorRows::from_file("f".to_string(), "a\rb\r");
    assert_eq!(lines_of(&rows), vec!["a\rb\r"]);
}

#[test]
fn from_file_splits_as_std_lines_does() {
    for s in ["", "a", "a\n", "a\nb", "a\r\nb\r\n", "\n\n", "x\r", "x\r\n\r", "\r\n", "a\n\rb"] {
        let rows = EditorRows::from_file("f".to_string(), s);
        let expected: Vec<String> = s.lines().map(|l| l.to_string()).collect();
        assert_eq!(lines_of(&rows), expected, "{:?}", s);
    }
}

#[test]
fn from_file_renders_rows() {
    let rows = EditorRows::from_file("f".to_string(), "a\tb\nc");
    assert_eq!(text(rows.get_render(0)), "a       b");
    assert_eq!(text(rows.get_render(1)), "c");
}

#[test]
fn rows_are_inserted_and_deleted() {
    let mut rows = EditorRows::from_file("f".to_string(), "a\nb\nc");
    rows.insert_row();
    assert_eq!(lines_of(&rows), vec!["a", "b", "c", ""]);
    rows.insert_row_at(1);
    assert_eq!(lines_of(&rows), vec!["a", "", "b", "c", ""]);
    rows.insert_row_at(5);
    assert_eq!(rows.num_rows(), 6);
    rows.delete_row(1);
    rows.delete_row(4);
    rows.delete_row(3);
    assert_eq!(lines_of(&rows), vec!["a", "b", "c"]);
}

#[test]
fn delete_row_shift_up_joins_rows() {
    let mut rows = EditorRows::from_file("f".to_string(), "a\t\nb\tc\nd");
    rows.delete_row_shift_up(1);
    assert_eq!(lines_of(&rows), vec!["a\tb\tc", "d"]);
    assert_eq!(text(rows.get_render(0)), "a       b       c");
    rows.delete_row_shift_up(1);
    assert_eq!(lines_of(&rows), vec!["a\tb\tcd"]);
}

#[test]
fn get_row_mut_changes_the_row_in_place() {
    let mut rows = EditorRows::from_file("f".to_string(), "ab\ncd");
    rows.get_row_mut(1).insert_char('x', 1);
    assert_eq!(lines_of(&rows), vec!["ab", "cxd"]);
    assert_eq!(text(rows.get_render(1)), "cxd");
}

#[test]
fn save_without_filename_fails() {
    let mut rows = EditorRows::new();
    rows.insert_row();
    rows.get_row_mut(0).insert_char('x', 0);
    assert!(matches!(rows.save(), Err(SaveError::MissingFilename)));
}

#[test]
fn save_with_filename_gives_every_line_with_a_line_feed() {
    let mut rows = EditorRows::new();
    rows.insert_row();
    rows.get_row_mut(0).insert_char('h', 0);
    rows.get_row_mut(0).insert_char('i', 1);
    rows.insert_row();
    rows.insert_row();
    rows.get_row_mut(2).insert_char('!', 0);
    assert!(rows.save().is_err());
    rows.filename = Some("out.txt".to_string());
    let image = rows.save().unwrap();
    assert_eq!(image.filename, "out.txt");
    assert_eq!(image.content, "hi\n\n!\n");
    assert_eq!(image.len, 3 + 3);
}

#[test]
fn save_counts_bytes() {
    let rows = EditorRows::from_file("f".to_string(), "\u{e9}t\u{e9}\n\u{1F525}");
    let image = rows.save().unwrap();
    assert_eq!(image.content, "\u{e9}t\u{e9}\n\u{1F525}\n");
    assert_eq!(image.len, 5 + 1 + 4 + 1);
}

#[test]
fn save_of_empty_document_is_empty() {
    let mut rows = EditorRows::new();
    rows.filename = Some("empty".to_string());
    let image = rows.save().unwrap();
    assert_eq!(image.content, "");
    assert_eq!(image.len, 0);
}
