use editor_core::editor::{decode, Action, Command, Editor, Mode, PromptKind};
use editor_core::keys::{Key, KeyEvent, Modifiers};
use editor_core::rows::EditorRows;
use editor_core::search::SearchIndex;

fn plain(code: Key) -> Option<KeyEvent> {
    Some(KeyEvent { code, modifiers: Modifiers::Plain })
}

fn shift(code: Key) -> Option<KeyEvent> {
    Some(KeyEvent { code, modifiers: Modifiers::Shift })
}

fn ctrl(c: char) -> Option<KeyEvent> {
    Some(KeyEvent { code: Key::Char(c), modifiers: Modifiers::Control })
}

fn open(text: &str) -> Editor {
    Editor::new((80, 25), EditorRows::from_file("f.txt".to_string(), text))
}

fn unnamed() -> Editor {
    Editor::new((80, 25), EditorRows::new())
}

fn press(editor: &mut Editor, event: Option<KeyEvent>) -> Action {
    editor.refresh();
    assert!(editor.is_wf());
    assert!(editor.is_ready());
    let action = editor.process_keyevent(event);
    assert!(editor.is_wf());
    action
}

fn type_text(editor: &mut Editor, text: &str) {
    for c in text.chars() {
        assert!(matches!(press(editor, plain(Key::Char(c))), Action::Continue));
    }
}

fn lines(editor: &Editor) -> Vec<String> {
    (0..editor.output.editor_rows.num_rows())
        .map(|i| editor.output.editor_rows.get_row(i).row_content.iter().collect())
        .collect()
}

fn cursor(editor: &Editor) -> (usize, usize) {
    (editor.output.cursor_controller.cursor_x, editor.output.cursor_controller.cursor_y)
}

fn status(editor: &mut Editor) -> Option<String> {
    editor.output.status_message.message().cloned()
}

#[test]
fn keys_decode_to_commands() {
    assert_eq!(decode(None), Command::Ignore);
    assert_eq!(decode(ctrl('q')), Command::Quit);
    assert_eq!(decode(ctrl('s')), Command::Save);
    assert_eq!(decode(ctrl('f')), Command::Find);
    assert_eq!(decode(ctrl('h')), Command::Move(Key::Char('h')));
    assert_eq!(decode(ctrl('x')), Command::Ignore);
    assert_eq!(decode(plain(Key::Up)), Command::Move(Key::Up));
    assert_eq!(decode(plain(Key::PageDown)), Command::Move(Key::PageDown));
    assert_eq!(decode(shift(Key::Up)), Command::Ignore);
    assert_eq!(decode(plain(Key::Backspace)), Command::Backspace);
    assert_eq!(decode(plain(Key::Delete)), Command::Delete);
    assert_eq!(decode(plain(Key::Enter)), Command::Enter);
    assert_eq!(decode(shift(Key::Enter)), Command::Ignore);
    assert_eq!(decode(plain(Key::Tab)), Command::Insert('\t'));
    assert_eq!(decode(shift(Key::Tab)), Command::Insert('\t'));
    assert_eq!(decode(plain(Key::Char('h'))), Command::Insert('h'));
    assert_eq!(decode(shift(Key::Char('h'))), Command::Insert('H'));
    assert_eq!(decode(shift(Key::Char('1'))), Command::Insert('1'));
    assert_eq!(decode(shift(Key::Char('\u{e9}'))), Command::Insert('\u{e9}'));
    assert_eq!(decode(plain(Key::Esc)), Command::Ignore);
    assert_eq!(decode(plain(Key::Other)), Command::Ignore);
    assert_eq!(
        decode(Some(KeyEvent { code: Key::Char('q'), modifiers: Modifiers::Other })),
        Command::Ignore
    );
}

#[test]
fn typing_and_editing() {
    let mut editor = unnamed();
    type_text(&mut editor, "hello");
    press(&mut editor, plain(Key::Enter));
    press(&mut editor, shift(Key::Char('w')));
    type_text(&mut editor, "orld");
    press(&mut editor, plain(Key::Tab));
    assert_eq!(lines(&editor), vec!["hello", "World\t"]);
    assert_eq!(cursor(&editor), (6, 1));
    press(&mut editor, plain(Key::Backspace));
    press(&mut editor, plain(Key::Home));
    press(&mut editor, plain(Key::Backspace));
    assert_eq!(lines(&editor), vec!["helloWorld"]);
    assert_eq!(cursor(&editor), (5, 0));
    press(&mut editor, plain(Key::Delete));
    assert_eq!(lines(&editor), vec!["helloorld"]);
    press(&mut editor, None);
    press(&mut editor, plain(Key::Other));
    assert_eq!(lines(&editor), vec!["helloorld"]);
    assert_eq!(editor.output.dirty, 15);
}

#[test]
fn movement_keys_move_the_cursor() {
    let mut editor = open("abc\nde\nf");
    press(&mut editor, plain(Key::Down));
    press(&mut editor, plain(Key::End));
    assert_eq!(cursor(&editor), (2, 1));
    press(&mut editor, plain(Key::Right));
    assert_eq!(cursor(&editor), (0, 2));
    press(&mut editor, ctrl('k'));
    press(&mut editor, ctrl('l'));
    assert_eq!(cursor(&editor), (1, 1));
    press(&mut editor, ctrl('h'));
    press(&mut editor, ctrl('h'));
    assert_eq!(cursor(&editor), (3, 0));
    press(&mut editor, ctrl('j'));
    assert_eq!(cursor(&editor), (2, 1));
    assert_eq!(editor.output.dirty, 0);
}

#[test]
fn end_on_a_row_with_tabs_goes_to_the_end_of_the_text() {
    let mut editor = open("\tx");
    press(&mut editor, plain(Key::End));
    assert_eq!(cursor(&editor), (2, 0));
    assert!(editor.is_ready());
    press(&mut editor, plain(Key::Char('!')));
    assert_eq!(lines(&editor), vec!["\tx!"]);
}

#[test]
fn search_leaves_the_cursor_in_the_text() {
    let mut editor = open("one\n\t\tneedle");
    press(&mut editor, ctrl('f'));
    type_text(&mut editor, "needle");
    assert_eq!(cursor(&editor), (2, 1));
    assert_eq!(editor.output.search_index.x_index, 16);
    assert!(editor.output.is_cursor_in_bounds());
    press(&mut editor, plain(Key::Enter));
    press(&mut editor, plain(Key::Char('>')));
    assert_eq!(lines(&editor), vec!["one", "\t\t>needle"]);
}

#[test]
fn quit_without_edits_quits_at_once() {
    let mut editor = open("abc");
    assert!(matches!(press(&mut editor, ctrl('q')), Action::Quit));
}

#[test]
fn quit_with_edits_asks_first() {
    let mut editor = open("abc");
    type_text(&mut editor, "x");
    assert!(matches!(press(&mut editor, ctrl('q')), Action::Continue));
    assert_eq!(editor.mode, Mode::ConfirmQuit);
    assert_eq!(status(&mut editor).as_deref(), Some("Modified! CTRL + q to exit or ESC to cancel"));
    assert!(matches!(press(&mut editor, None), Action::Continue));
    assert_eq!(editor.mode, Mode::ConfirmQuit);
    assert!(matches!(press(&mut editor, plain(Key::Esc)), Action::Continue));
    assert_eq!(editor.mode, Mode::Normal);
    assert_eq!(lines(&editor), vec!["xabc"]);
    press(&mut editor, ctrl('q'));
    assert!(matches!(press(&mut editor, ctrl('q')), Action::Quit));
}

#[test]
fn save_with_a_filename_hands_out_the_file() {
    let mut editor = open("abc\nde");
    type_text(&mut editor, "x");
    match press(&mut editor, ctrl('s')) {
        Action::Write(image) => {
            assert_eq!(image.filename, "f.txt");
            assert_eq!(image.content, "xabc\nde\n");
            assert_eq!(image.len, 8);
            editor.save_finished(Ok(image.len));
        }
        _ => panic!("no file to write"),
    }
    assert_eq!(editor.output.dirty, 0);
    assert_eq!(status(&mut editor).as_deref(), Some("8 bytes written to disk"));
    assert!(matches!(press(&mut editor, ctrl('q')), Action::Quit));
}

#[test]
fn save_without_a_filename_asks_for_one() {
    let mut editor = unnamed();
    type_text(&mut editor, "hi");
    assert!(matches!(press(&mut editor, ctrl('s')), Action::Continue));
    assert_eq!(editor.mode, Mode::Prompt(PromptKind::SaveAs));
    let frame = editor.refresh();
    assert!(frame.contains("Save as : "));
    type_text(&mut editor, "out");
    press(&mut editor, shift(Key::Char('x')));
    press(&mut editor, plain(Key::Char('y')));
    press(&mut editor, plain(Key::Backspace));
    type_text(&mut editor, ".txt");
    let frame = editor.refresh();
    assert!(frame.contains("Save as : outX.txt"));
    assert_eq!(lines(&editor), vec!["hi"]);
    match press(&mut editor, plain(Key::Enter)) {
        Action::Write(image) => {
            assert_eq!(image.filename, "outX.txt");
            assert_eq!(image.content, "hi\n");
            assert_eq!(image.len, 3);
        }
        _ => panic!("no file to write"),
    }
    assert_eq!(editor.mode, Mode::Normal);
    assert_eq!(editor.output.editor_rows.filename.as_deref(), Some("outX.txt"));
    assert_eq!(status(&mut editor).as_deref(), Some(""));
    editor.save_finished(Err("denied".to_string()));
    assert_eq!(editor.output.dirty, 2);
    assert_eq!(status(&mut editor).as_deref(), Some("Error \"denied\""));
}

#[test]
fn save_prompt_can_be_given_up() {
    let mut editor = unnamed();
    press(&mut editor, ctrl('s'));
    assert!(matches!(press(&mut editor, plain(Key::Enter)), Action::Continue));
    assert_eq!(editor.mode, Mode::Prompt(PromptKind::SaveAs));
    type_text(&mut editor, "name");
    assert!(matches!(press(&mut editor, plain(Key::Esc)), Action::Continue));
    assert_eq!(editor.mode, Mode::Normal);
    assert!(editor.output.editor_rows.filename.is_none());
    assert!(editor.input.is_empty());
}

#[test]
fn search_moves_the_cursor_to_the_match() {
    let mut editor = open("foo\nbar foo\nbaz");
    press(&mut editor, ctrl('f'));
    assert_eq!(editor.mode, Mode::Prompt(PromptKind::Find));
    type_text(&mut editor, "foo");
    assert_eq!(cursor(&editor), (0, 0));
    let frame = editor.refresh();
    assert!(frame.contains("Search: foo (ESC to Cancel, Enter to Confirm)"));
    press(&mut editor, plain(Key::Down));
    assert_eq!(cursor(&editor), (4, 1));
    press(&mut editor, plain(Key::Up));
    assert_eq!(cursor(&editor), (0, 0));
    press(&mut editor, plain(Key::Down));
    assert!(matches!(press(&mut editor, plain(Key::Enter)), Action::Continue));
    assert_eq!(editor.mode, Mode::Normal);
    assert_eq!(cursor(&editor), (4, 1));
    assert_eq!(editor.output.search_index, SearchIndex::new());
    assert_eq!(status(&mut editor).as_deref(), Some(""));
}

#[test]
fn search_given_up_puts_the_cursor_back() {
    let mut editor = open("one\ntwo\nthree");
    press(&mut editor, plain(Key::Down));
    press(&mut editor, plain(Key::Right));
    press(&mut editor, ctrl('f'));
    type_text(&mut editor, "thr");
    assert_eq!(cursor(&editor), (0, 2));
    press(&mut editor, plain(Key::Esc));
    assert_eq!(editor.mode, Mode::Normal);
    assert_eq!(cursor(&editor), (1, 1));
    assert_eq!(editor.output.search_index, SearchIndex::new());
    assert_eq!(lines(&editor), vec!["one", "two", "three"]);
    assert_eq!(editor.output.dirty, 0);
}

#[test]
fn search_prompt_edits_its_text() {
    let mut editor = open("alpha\nbeta\nalphabet");
    press(&mut editor, ctrl('f'));
    type_text(&mut editor, "alphab");
    assert_eq!(cursor(&editor), (0, 2));
    press(&mut editor, plain(Key::Backspace));
    assert_eq!(editor.input.iter().collect::<String>(), "alpha");
    assert_eq!(cursor(&editor), (0, 2));
    press(&mut editor, None);
    assert_eq!(cursor(&editor), (0, 2));
    press(&mut editor, plain(Key::Enter));
    assert_eq!(editor.mode, Mode::Normal);
}

#[test]
fn enter_on_an_empty_search_stays_in_the_prompt() {
    let mut editor = open("alpha");
    press(&mut editor, ctrl('f'));
    press(&mut editor, plain(Key::Enter));
    assert_eq!(editor.mode, Mode::Prompt(PromptKind::Find));
    press(&mut editor, plain(Key::Left));
    press(&mut editor, plain(Key::Right));
    assert_eq!(editor.mode, Mode::Prompt(PromptKind::Find));
    press(&mut editor, plain(Key::Esc));
    assert_eq!(editor.mode, Mode::Normal);
}
