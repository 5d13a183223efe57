//! The editor as a machine that is fed key presses: what each key does in
//! each mode, and what the caller is to do next.
//!
//! The caller owns the terminal and the disk. It shows the frame that
//! [`Editor::refresh`] composes, waits for a key, hands it to
//! [`Editor::process_keyevent`] and does what the returned [`Action`] says.

use vstd::prelude::*;
use crate::cursor_controller::CursorController;
use crate::keys::{ascii_upper, Key, KeyEvent, Modifiers};
use crate::output::{Output, HELP_MESSAGE};
use crate::rows::{serialized, EditorRows, FileImage};
use crate::search::SearchIndex;
use crate::text::{push_text, string_of};
use vstd::utf8::encode_utf8;

verus! {

/// The status message that asks whether to quit with unsaved edits.
pub const QUIT_WARNING: &'static str = "Modified! CTRL + q to exit or ESC to cancel";

/// What the search prompt shows before the text typed so far.
pub const SEARCH_PROMPT: &'static str = "Search: ";

/// What the search prompt shows after the text typed so far.
pub const SEARCH_PROMPT_HINT: &'static str = " (ESC to Cancel, Enter to Confirm)";

/// What the prompt for a file name shows before the text typed so far.
pub const SAVE_PROMPT: &'static str = "Save as : ";

/// What a key press asks of the editor while it edits.
#[derive(Clone, Copy, Debug, PartialEq, Eq, Structural)]
pub enum Command {
    Quit,
    /// Move the cursor as the key, a movement key, says.
    Move(Key),
    Save,
    Find,
    Backspace,
    Delete,
    Enter,
    /// Type the character.
    Insert(char),
    /// Nothing: the key has no meaning.
    Ignore,
}

/// What a prompt asks for.
#[derive(Clone, Copy, Debug, PartialEq, Eq, Structural)]
pub enum PromptKind {
    /// The name of the file to save to.
    SaveAs,
    /// The text to search for.
    Find,
}

#[derive(Clone, Copy, Debug, PartialEq, Eq, Structural)]
pub enum Mode {
    /// Keys edit the document.
    Normal,
    /// The next key decides whether the editor quits with unsaved edits.
    ConfirmQuit,
    /// Keys go to the text of a prompt.
    Prompt(PromptKind),
}

/// What the caller is to do after a key press.
pub enum Action {
    /// Go on with the next key.
    Continue,
    /// Leave the editor.
    Quit,
    /// Write the file and report with [`Editor::save_finished`].
    Write(FileImage),
}

pub struct Editor {
    pub output: Output,
    pub mode: Mode,
    /// The text typed into the prompt so far.
    pub input: Vec<char>,
    /// Where the cursor and the viewport were when the search began.
    pub saved_cursor: CursorController,
}

/// The command that a key press stands for while the editor edits.
///
/// Control with `q`, `s`, `f` quits, saves and searches; the arrow and
/// paging keys alone, and control with `h`, `j`, `k`, `l`, move the cursor;
/// backspace, delete and enter alone edit; tab and the characters, alone or
/// with shift, are typed, a letter with shift in upper case. Anything else,
/// and no key press, is nothing.
pub open spec fn command_of(event: Option<KeyEvent>) -> Command {
    match event {
        None => Command::Ignore,
        Some(event) => match (event.code, event.modifiers) {
            (Key::Char('q'), Modifiers::Control) => Command::Quit,
            (
                Key::Up
                | Key::Down
                | Key::Left
                | Key::Right
                | Key::Home
                | Key::End
                | Key::PageUp
                | Key::PageDown,
                Modifiers::Plain,
            ) => Command::Move(event.code),
            (
                Key::Char('h') | Key::Char('j') | Key::Char('k') | Key::Char('l'),
                Modifiers::Control,
            ) => Command::Move(event.code),
            (Key::Char('s'), Modifiers::Control) => Command::Save,
            (Key::Char('f'), Modifiers::Control) => Command::Find,
            (Key::Backspace, Modifiers::Plain) => Command::Backspace,
            (Key::Delete, Modifiers::Plain) => Command::Delete,
            (Key::Enter, Modifiers::Plain) => Command::Enter,
            (Key::Tab, Modifiers::Plain | Modifiers::Shift) => Command::Insert('\t'),
            (Key::Char(c), Modifiers::Plain) => Command::Insert(c),
            (Key::Char(c), Modifiers::Shift) => Command::Insert(ascii_upper(c)),
            _ => Command::Ignore,
        },
    }
}

/// The command that a key press stands for: see [`command_of`].
pub fn decode(event: Option<KeyEvent>) -> (command: Command)
    ensures
        command == command_of(event),
        command matches Command::Move(key) ==> key.motion() is Some,
{
    match event {
        None => Command::Ignore,
        Some(event) => match (event.code, event.modifiers) {
            (Key::Char('q'), Modifiers::Control) => Command::Quit,
            (
                Key::Up
                | Key::Down
                | Key::Left
                | Key::Right
                | Key::Home
                | Key::End
                | Key::PageUp
                | Key::PageDown,
                Modifiers::Plain,
            ) => Command::Move(event.code),
            (
                Key::Char('h') | Key::Char('j') | Key::Char('k') | Key::Char('l'),
                Modifiers::Control,
            ) => Command::Move(event.code),
            (Key::Char('s'), Modifiers::Control) => Command::Save,
            (Key::Char('f'), Modifiers::Control) => Command::Find,
            (Key::Backspace, Modifiers::Plain) => Command::Backspace,
            (Key::Delete, Modifiers::Plain) => Command::Delete,
            (Key::Enter, Modifiers::Plain) => Command::Enter,
            (Key::Tab, Modifiers::Plain | Modifiers::Shift) => Command::Insert('\t'),
            (Key::Char(c), Modifiers::Plain) => Command::Insert(c),
            (Key::Char(c), Modifiers::Shift) => Command::Insert(c.to_ascii_uppercase()),
            _ => Command::Ignore,
        },
    }
}

/// What a prompt of kind `kind` shows in the status bar when `input` has
/// been typed.
pub open spec fn prompt_text(kind: PromptKind, input: Seq<char>) -> Seq<char> {
    match kind {
        PromptKind::Find => SEARCH_PROMPT@ + input + SEARCH_PROMPT_HINT@,
        PromptKind::SaveAs => SAVE_PROMPT@ + input,
    }
}

/// The text of a prompt after a key press: backspace alone takes its last
/// character, a character alone or with shift is added, in upper case with
/// shift, and escape empties it. Any other key leaves it.
pub open spec fn input_after(input: Seq<char>, event: Option<KeyEvent>) -> Seq<char> {
    match event {
        Some(KeyEvent { code: Key::Backspace, modifiers: Modifiers::Plain }) => {
            if input.len() > 0 {
                input.drop_last()
            } else {
                input
            }
        },
        Some(KeyEvent { code: Key::Char(c), modifiers: Modifiers::Plain }) => input.push(c),
        Some(KeyEvent { code: Key::Char(c), modifiers: Modifiers::Shift }) => input.push(
            ascii_upper(c),
        ),
        Some(KeyEvent { code: Key::Esc, modifiers: _ }) => Seq::empty(),
        _ => input,
    }
}

/// Whether a key press ends a prompt with the text `input`: escape always,
/// and enter alone once there is any text.
pub open spec fn ends_prompt(input: Seq<char>, event: Option<KeyEvent>) -> bool {
    match event {
        Some(KeyEvent { code: Key::Esc, modifiers: _ }) => true,
        Some(KeyEvent { code: Key::Enter, modifiers: Modifiers::Plain }) => input.len() > 0,
        _ => false,
    }
}

/// The key that a key press hands to the search.
pub open spec fn code_of(event: Option<KeyEvent>) -> Option<Key> {
    match event {
        Some(event) => Some(event.code),
        None => None,
    }
}

impl Editor {
    /// The state of the output is well formed, a search that is under way
    /// has its last match on its row and can give the cursor back, and
    /// outside a search no match is remembered.
    pub open spec fn wf(&self) -> bool {
        &&& self.output.wf()
        &&& if self.mode == Mode::Prompt(PromptKind::Find) {
            &&& self.output.search_on_row()
            &&& self.saved_cursor.cursor_y <= self.output.editor_rows@.len()
            &&& self.saved_cursor.size_x == self.output.size.0
            &&& self.saved_cursor.size_y == self.output.size.1
        } else {
            self.output.search_index == SearchIndex::zero()
        }
    }

    /// Whether the next key press can be processed: in normal mode the
    /// cursor stands in the text and the count of edits has room for one
    /// more.
    pub open spec fn ready(&self) -> bool {
        self.mode == Mode::Normal ==> self.output.cursor_in_bounds() && self.output.dirty
            < u64::MAX
    }

    /// Whether `after` is `before` with its status message set to `text`.
    pub open spec fn is_with_message(after: &Output, before: &Output, text: Seq<char>) -> bool {
        &&& after.status_message.text() == Some(text)
        &&& *after == (Output { status_message: after.status_message, ..*before })
    }

    /// Whether `after` and `action` are what the key press `event` makes of
    /// `before` while the editor edits.
    ///
    /// Quitting with unsaved edits asks first; saving without a file name
    /// asks for one; searching remembers where the cursor is and asks for
    /// the text. Saving with a file name hands out what is to be written.
    /// The other commands do to the output what their keys say.
    pub open spec fn is_normal_step(
        before: &Editor,
        event: Option<KeyEvent>,
        after: &Editor,
        action: Action,
    ) -> bool {
        match command_of(event) {
            Command::Quit => if before.output.dirty > 0 {
                &&& action is Continue
                &&& Self::is_with_message(&after.output, &before.output, QUIT_WARNING@)
                &&& *after == (Editor {
                    output: after.output,
                    mode: Mode::ConfirmQuit,
                    ..*before
                })
            } else {
                action is Quit && *after == *before
            },
            Command::Save => if before.output.editor_rows.filename is None {
                &&& action is Continue
                &&& after.input@ == Seq::<char>::empty()
                &&& *after == (Editor {
                    mode: Mode::Prompt(PromptKind::SaveAs),
                    input: after.input,
                    ..*before
                })
            } else {
                &&& action matches Action::Write(image)
                &&& after.output.is_save_prepared_from(&before.output, Some(image))
                &&& *after == *before
            },
            Command::Find => {
                &&& action is Continue
                &&& after.input@ == Seq::<char>::empty()
                &&& *after == (Editor {
                    mode: Mode::Prompt(PromptKind::Find),
                    input: after.input,
                    saved_cursor: before.output.cursor_controller,
                    ..*before
                })
            },
            command => {
                &&& action is Continue
                &&& *after == (Editor { output: after.output, ..*before })
                &&& match command {
                    Command::Move(key) => key.motion() is Some && after.output.is_moved_from(
                        &before.output,
                        key.motion().unwrap(),
                    ),
                    Command::Backspace => after.output.is_backspaced_from(&before.output),
                    Command::Delete => after.output.is_deleted_from(&before.output),
                    Command::Enter => after.output.is_entered_from(&before.output),
                    Command::Insert(c) => after.output.is_typed_from(&before.output, c),
                    _ => after.output == before.output,
                }
            },
        }
    }

    /// Whether `after` and `action` are what the key press `event` makes of
    /// `before` while the editor waits for the word on quitting: control
    /// with `q` quits, any other key goes back to editing, and without a
    /// key the editor goes on waiting.
    pub open spec fn is_confirm_step(
        before: &Editor,
        event: Option<KeyEvent>,
        after: &Editor,
        action: Action,
    ) -> bool {
        match event {
            None => action is Continue && *after == *before,
            Some(KeyEvent { code: Key::Char('q'), modifiers: Modifiers::Control }) => {
                action is Quit && *after == *before
            },
            Some(_) => action is Continue && *after == (Editor { mode: Mode::Normal, ..*before }),
        }
    }

    /// Whether `after` and `action` are what the key press `event` makes of
    /// `before` in a prompt of kind `kind`.
    ///
    /// The key first edits the text of the prompt ([`input_after`]). A key
    /// that ends the prompt ([`ends_prompt`]) brings the editor back to
    /// editing. Enter empties the status message, and then the search
    /// forgets its position and leaves the cursor on the match, while the
    /// text of the other prompt becomes the file name and what is to be
    /// written is handed out. Escape gives up: the search forgets its
    /// position and puts the cursor back where it was, and the document
    /// stays without a file name. Any other key, and no key, goes to the
    /// search as its next step on the text typed so far, and does nothing
    /// more in the other prompt.
    pub open spec fn is_prompt_step(
        before: &Editor,
        kind: PromptKind,
        event: Option<KeyEvent>,
        after: &Editor,
        action: Action,
    ) -> bool {
        let input = input_after(before.input@, event);
        &&& after.input@ == input
        &&& after.saved_cursor == before.saved_cursor
        &&& if !ends_prompt(before.input@, event) {
            &&& action is Continue
            &&& after.mode == before.mode
            &&& match kind {
                PromptKind::Find => after.output.is_found_from(
                    &before.output,
                    input,
                    code_of(event),
                ),
                PromptKind::SaveAs => after.output == before.output,
            }
        } else if input.len() == 0 {
            &&& action is Continue
            &&& after.mode == Mode::Normal
            &&& match kind {
                PromptKind::Find => after.output == (Output {
                    search_index: SearchIndex::zero(),
                    cursor_controller: before.saved_cursor,
                    ..before.output
                }),
                PromptKind::SaveAs => {
                    &&& after.output.editor_rows.filename is None
                    &&& after.output.editor_rows.contents == before.output.editor_rows.contents
                    &&& after.output == (Output {
                        editor_rows: after.output.editor_rows,
                        ..before.output
                    })
                },
            }
        } else {
            &&& after.mode == Mode::Normal
            &&& after.output.status_message.text() == Some(Seq::<char>::empty())
            &&& match kind {
                PromptKind::Find => {
                    &&& action is Continue
                    &&& after.output == (Output {
                        search_index: SearchIndex::zero(),
                        status_message: after.output.status_message,
                        ..before.output
                    })
                },
                PromptKind::SaveAs => {
                    &&& after.output.editor_rows.filename matches Some(name) && name@ == input
                    &&& after.output.editor_rows.contents == before.output.editor_rows.contents
                    &&& after.output == (Output {
                        editor_rows: after.output.editor_rows,
                        status_message: after.output.status_message,
                        ..before.output
                    })
                    &&& action matches Action::Write(image)
                    &&& image.filename@ == input
                    &&& image.content@ == serialized(before.output.editor_rows.lines())
                    &&& image.len == encode_utf8(image.content@).len()
                },
            }
        }
    }

    /// Whether `after` and `action` are what the key press `event`, or the
    /// lack of one, makes of `before`.
    pub open spec fn is_step(
        before: &Editor,
        event: Option<KeyEvent>,
        after: &Editor,
        action: Action,
    ) -> bool {
        match before.mode {
            Mode::Normal => Self::is_normal_step(before, event, after, action),
            Mode::ConfirmQuit => Self::is_confirm_step(before, event, after, action),
            Mode::Prompt(kind) => Self::is_prompt_step(before, kind, event, after, action),
        }
    }

    /// Whether the editor is well formed.
    pub fn is_wf(&self) -> (ok: bool)
        ensures
            ok == self.wf(),
    {
        if !self.output.is_wf() {
            return false;
        }
        match self.mode {
            Mode::Prompt(PromptKind::Find) => {
                self.output.is_search_on_row() && self.saved_cursor.cursor_y
                    <= self.output.editor_rows.num_rows() && self.saved_cursor.size_x
                    == self.output.size.0 && self.saved_cursor.size_y == self.output.size.1
            },
            _ => {
                let index = self.output.search_index;
                index.x_index == 0 && index.y_index == 0 && index.x_direction.is_none()
                    && index.y_direction.is_none()
            },
        }
    }

    /// Whether the next key press can be processed.
    pub fn is_ready(&self) -> (ok: bool)
        ensures
            ok == self.ready(),
    {
        match self.mode {
            Mode::Normal => self.output.is_cursor_in_bounds() && self.output.dirty < u64::MAX,
            _ => true,
        }
    }

    /// An editor that has just opened the document `editor_rows` on a
    /// terminal of `terminal_size` columns and rows, of which there is at
    /// least one.
    pub fn new(terminal_size: (u16, u16), editor_rows: EditorRows) -> (editor: Self)
        requires
            terminal_size.1 >= 1,
            editor_rows.wf(),
        ensures
            editor.wf(),
            editor.ready(),
            editor.mode == Mode::Normal,
            editor.input@ == Seq::<char>::empty(),
            editor.saved_cursor == editor.output.cursor_controller,
            editor.output.editor_rows == editor_rows,
            editor.output.size == (terminal_size.0 as usize, (terminal_size.1 - 1) as usize),
            editor.output.cursor_controller == CursorController::at_origin(editor.output.size),
            editor.output.buffer@ == Seq::<char>::empty(),
            editor.output.status_message.text() == Some(HELP_MESSAGE@),
            editor.output.dirty == 0,
            editor.output.search_index == SearchIndex::zero(),
    {
        let output = Output::new(terminal_size, editor_rows);
        let saved_cursor = output.cursor_controller;
        Editor { output, mode: Mode::Normal, input: Vec::new(), saved_cursor }
    }

    /// Composes the frame to show before the next key is read. In a prompt,
    /// the status message is first set to what the prompt shows.
    pub fn refresh(&mut self) -> (frame: String)
        requires
            old(self).wf(),
        ensures
            final(self).wf(),
            final(self).output.cursor_in_bounds(),
            *final(self) == (Editor { output: final(self).output, ..*old(self) }),
            exists|shown: Output|
                {
                    &&& match old(self).mode {
                        Mode::Prompt(kind) => Self::is_with_message(
                            &shown,
                            &old(self).output,
                            prompt_text(kind, old(self).input@),
                        ),
                        _ => shown == old(self).output,
                    }
                    &&& #[trigger] final(self).output.is_refreshed_from(&shown, frame@)
                },
    {
        match self.mode {
            Mode::Prompt(kind) => {
                let mut text: Vec<char> = Vec::new();
                match kind {
                    PromptKind::Find => {
                        push_text(&mut text, SEARCH_PROMPT);
                        text.append(&mut self.input.clone());
                        push_text(&mut text, SEARCH_PROMPT_HINT);
                    },
                    PromptKind::SaveAs => {
                        push_text(&mut text, SAVE_PROMPT);
                        text.append(&mut self.input.clone());
                    },
                }
                assert(text@ =~= prompt_text(kind, self.input@));
                self.output.status_message.set_message(string_of(&text));
            },
            _ => {},
        }
        let ghost shown = self.output;
        let frame = self.output.refresh();
        assert(self.output.is_refreshed_from(&shown, frame@));
        frame
    }

    /// Takes the key press `event`, or takes note that there was none, and
    /// says what the caller is to do next: see [`Self::is_step`].
    pub fn process_keyevent(&mut self, event: Option<KeyEvent>) -> (action: Action)
        requires
            old(self).wf(),
            old(self).ready(),
        ensures
            final(self).wf(),
            Self::is_step(old(self), event, final(self), action),
    {
        match self.mode {
            Mode::Normal => self.edit(event),
            Mode::ConfirmQuit => match event {
                None => Action::Continue,
                Some(KeyEvent { code: Key::Char('q'), modifiers: Modifiers::Control }) => {
                    Action::Quit
                },
                Some(_) => {
                    self.mode = Mode::Normal;
                    Action::Continue
                },
            },
            Mode::Prompt(kind) => self.prompt(kind, event),
        }
    }

    /// Begins a search: remembers where the cursor and the viewport are, to
    /// put them back if the search is given up, and opens the prompt for
    /// the text to search for.
    pub fn find(&mut self)
        requires
            old(self).wf(),
            old(self).mode == Mode::Normal,
        ensures
            final(self).wf(),
            final(self).input@ == Seq::<char>::empty(),
            *final(self) == (Editor {
                mode: Mode::Prompt(PromptKind::Find),
                input: final(self).input,
                saved_cursor: old(self).output.cursor_controller,
                ..*old(self)
            }),
    {
        self.saved_cursor = self.output.cursor_controller;
        self.mode = Mode::Prompt(PromptKind::Find);
        self.input = Vec::new();
    }

    /// A key press while the editor edits.
    fn edit(&mut self, event: Option<KeyEvent>) -> (action: Action)
        requires
            old(self).wf(),
            old(self).ready(),
            old(self).mode == Mode::Normal,
        ensures
            final(self).wf(),
            Self::is_normal_step(old(self), event, final(self), action),
    {
        match decode(event) {
            Command::Quit => {
                if self.output.dirty > 0 {
                    self.output.status_message.set_message(QUIT_WARNING.to_owned());
                    self.mode = Mode::ConfirmQuit;
                    Action::Continue
                } else {
                    Action::Quit
                }
            },
            Command::Move(key) => {
                self.output.move_cursor(key);
                Action::Continue
            },
            Command::Save => {
                if self.output.editor_rows.filename.is_none() {
                    self.mode = Mode::Prompt(PromptKind::SaveAs);
                    self.input = Vec::new();
                    Action::Continue
                } else {
                    match self.output.save() {
                        Some(image) => Action::Write(image),
                        None => Action::Continue,
                    }
                }
            },
            Command::Find => {
                self.find();
                Action::Continue
            },
            Command::Backspace => {
                self.output.backspace();
                Action::Continue
            },
            Command::Delete => {
                self.output.del();
                Action::Continue
            },
            Command::Enter => {
                self.output.enter();
                Action::Continue
            },
            Command::Insert(c) => {
                self.output.insert_char(c);
                Action::Continue
            },
            Command::Ignore => Action::Continue,
        }
    }

    /// A key press in a prompt of kind `kind`.
    fn prompt(&mut self, kind: PromptKind, event: Option<KeyEvent>) -> (action: Action)
        requires
            old(self).wf(),
            old(self).mode == Mode::Prompt(kind),
        ensures
            final(self).wf(),
            Self::is_prompt_step(old(self), kind, event, final(self), action),
    {
        match event {
            Some(KeyEvent { code: Key::Enter, modifiers: Modifiers::Plain }) => {
                if self.input.len() > 0 {
                    self.output.status_message.set_message(String::new());
                    self.mode = Mode::Normal;
                    match kind {
                        PromptKind::Find => {
                            self.output.find_callback("", Some(Key::Enter));
                            return Action::Continue;
                        },
                        PromptKind::SaveAs => {
                            self.output.editor_rows.filename = Some(string_of(&self.input));
                            match self.output.save() {
                                Some(image) => {
                                    return Action::Write(image);
                                },
                                None => {
                                    return Action::Continue;
                                },
                            }
                        },
                    }
                }
            },
            Some(KeyEvent { code: Key::Backspace, modifiers: Modifiers::Plain }) => {
                if self.input.len() > 0 {
                    self.input.pop();
                }
            },
            Some(KeyEvent { code: Key::Char(c), modifiers: Modifiers::Plain }) => {
                self.input.push(c);
            },
            Some(KeyEvent { code: Key::Char(c), modifiers: Modifiers::Shift }) => {
                self.input.push(c.to_ascii_uppercase());
            },
            Some(KeyEvent { code: Key::Esc, modifiers: _ }) => {
                self.input.clear();
                self.mode = Mode::Normal;
                match kind {
                    PromptKind::Find => {
                        self.output.find_callback("", Some(Key::Esc));
                        self.output.cursor_controller = self.saved_cursor;
                    },
                    PromptKind::SaveAs => {
                        self.output.editor_rows.filename = None;
                    },
                }
                return Action::Continue;
            },
            _ => {},
        }
        match kind {
            PromptKind::Find => {
                let keyword = string_of(&self.input);
                let key_code = match event {
                    Some(event) => Some(event.code),
                    None => None,
                };
                self.output.find_callback(keyword.as_str(), key_code);
            },
            PromptKind::SaveAs => {},
        }
        Action::Continue
    }

    /// Takes note of how writing the document went: see
    /// [`Output::is_save_finished_from`].
    pub fn save_finished(&mut self, outcome: Result<usize, String>)
        requires
            old(self).wf(),
        ensures
            final(self).wf(),
            final(self).output.is_save_finished_from(&old(self).output, outcome),
            *final(self) == (Editor { output: final(self).output, ..*old(self) }),
    {
        self.output.save_finished(outcome);
    }
}

} // verus!
