//! The editor's state and what the keys do to it: the document, the cursor
//! and viewport, the status message, the search position, and the frame
//! that shows them.

use vstd::prelude::*;
use vstd::string::StringExecFns;
use vstd::utf8::encode_utf8;
use crate::ansi::{
    attribute, attribute_sequence, clear, clear_sequence, move_to, move_to_sequence, ClearKind,
    TextAttribute,
};
use crate::buffer::Buf;
use crate::cursor_controller::{content_len, CursorController};
use crate::keys::{Key, Motion};
use crate::rows::{serialized, with_char_deleted, with_char_inserted, EditorRows, FileImage};
use crate::screen::{
    document_info, document_info_text, draw_row, draw_status_line, file_name, is_display_name,
    position_info,
    position_info_text, screen_rows, status_line,
};
use crate::search::{is_search_result, search, SearchIndex};
use crate::status::StatusMessage;
use crate::tabs::buffer_column;
use crate::text::{chars_of, debug_quoted, decimal, push_decimal, push_text, quoted, string_of};

verus! {

/// The message that a new editor shows.
pub const HELP_MESSAGE: &'static str = "HELP: CTRL + {q: exits, s: save, f: search}";

pub struct Output {
    /// The width of the screen and the height of the part that shows the
    /// document: one row less than the screen has, which leaves the last
    /// row to the status bar.
    pub size: (usize, usize),
    pub buffer: Buf,
    pub cursor_controller: CursorController,
    pub editor_rows: EditorRows,
    pub status_message: StatusMessage,
    /// The number of edits since the document was last saved.
    pub dirty: u64,
    pub search_index: SearchIndex,
}

impl Output {
    /// The render caches of the document are up to date, the viewport has
    /// the size of the screen, which a terminal can have, and the cursor
    /// stands no further down than one past the last row.
    pub open spec fn wf(&self) -> bool {
        &&& self.editor_rows.wf()
        &&& self.cursor_controller.size_x == self.size.0
        &&& self.cursor_controller.size_y == self.size.1
        &&& self.size.0 <= u16::MAX
        &&& self.size.1 < u16::MAX
        &&& self.cursor_controller.cursor_y <= self.editor_rows@.len()
    }

    /// The cursor stands on or directly after a character of its line, and
    /// in column 0 where it stands past the last line.
    pub open spec fn cursor_in_bounds(&self) -> bool {
        self.cursor_controller.in_bounds(self.editor_rows.lines())
    }

    /// Whether `self` differs from `before` in nothing but the text of the
    /// document, the place of the cursor and the count of edits.
    pub open spec fn edited_from(&self, before: &Output) -> bool {
        &&& self.size == before.size
        &&& self.buffer == before.buffer
        &&& self.status_message == before.status_message
        &&& self.search_index == before.search_index
        &&& self.editor_rows.filename == before.editor_rows.filename
        &&& self.cursor_controller == (CursorController {
            cursor_x: self.cursor_controller.cursor_x,
            cursor_y: self.cursor_controller.cursor_y,
            ..before.cursor_controller
        })
    }

    /// The text of the document after `c` was typed at column `x` of line
    /// `y`: on the line after the last one it begins a new line.
    pub open spec fn lines_after_insert(
        lines: Seq<Seq<char>>,
        x: int,
        y: int,
        c: char,
    ) -> Seq<Seq<char>> {
        if y == lines.len() {
            lines.push(seq![c])
        } else {
            lines.update(y, with_char_inserted(lines[y], c, x))
        }
    }

    /// The text of the document and the place `(x, y)` of the cursor after
    /// a backspace at column `x` of line `y`.
    ///
    /// At the very start of the document nothing happens, but that a
    /// document of one empty line loses it. Past the last line the cursor
    /// moves left, to the end of the last line. At the start of a line the
    /// line is joined to the one above and the cursor stands where they
    /// meet. Elsewhere the character before the cursor goes.
    pub open spec fn after_backspace(
        lines: Seq<Seq<char>>,
        cursor: CursorController,
    ) -> (Seq<Seq<char>>, CursorController) {
        let x = cursor.cursor_x as int;
        let y = cursor.cursor_y as int;
        if y == 0 && x == 0 {
            if lines.len() == 1 && lines[0].len() == 0 {
                (lines.remove(0), cursor)
            } else {
                (lines, cursor)
            }
        } else if y == lines.len() {
            (lines, cursor.moved(Motion::Left, lines))
        } else if x == 0 {
            (
                EditorRows::lines_joined(lines, y),
                CursorController {
                    cursor_x: lines[y - 1].len() as usize,
                    cursor_y: (y - 1) as usize,
                    ..cursor
                },
            )
        } else {
            (
                lines.update(y, with_char_deleted(lines[y], x - 1)),
                CursorController { cursor_x: (x - 1) as usize, ..cursor },
            )
        }
    }

    /// The text of the document after the delete key at column `x` of line
    /// `y`; the cursor stays.
    ///
    /// A document of one empty line loses it. At the end of the last line,
    /// and past it, nothing happens. At the end of another line the next
    /// line is joined to it. Elsewhere the character under the cursor goes.
    pub open spec fn lines_after_del(lines: Seq<Seq<char>>, x: int, y: int) -> Seq<Seq<char>> {
        if lines.len() == 0 {
            lines
        } else if y == 0 && x == 0 && lines.len() == 1 && lines[0].len() == 0 {
            lines.remove(0)
        } else if x == content_len(lines, y) {
            if y >= lines.len() - 1 {
                lines
            } else {
                EditorRows::lines_joined(lines, y + 1)
            }
        } else {
            lines.update(y, with_char_deleted(lines[y], x))
        }
    }

    /// The text of the document after the enter key at column `x` of line
    /// `y`: the line is split at the cursor, and past the last line an empty
    /// line is added.
    pub open spec fn lines_after_enter(lines: Seq<Seq<char>>, x: int, y: int) -> Seq<Seq<char>> {
        if y == lines.len() {
            lines.push(Seq::empty())
        } else {
            lines.update(y, lines[y].take(x)).insert(y + 1, lines[y].skip(x))
        }
    }

    /// The status bar that shows `info`: in reverse video, the status line
    /// made of `info` and of the place of the cursor.
    pub open spec fn status_bar(&self, info: Seq<char>) -> Seq<char> {
        attribute_sequence(TextAttribute::Reverse) + status_line(
            info,
            position_info(
                self.editor_rows.lines(),
                self.cursor_controller.cursor_x as nat,
                self.cursor_controller.cursor_y as nat,
            ),
            self.size.0 as nat,
        ) + attribute_sequence(TextAttribute::Reset)
    }

    /// Whether the status bar may show `info` when reading the status
    /// message leaves `after`: the message, if it is still there and
    /// untouched; else what is to say of the document, under a name that
    /// is a part of what its file is called or, failing that, as unnamed.
    pub open spec fn is_status_info(&self, after: StatusMessage, info: Seq<char>) -> bool {
        match after.text() {
            Some(text) => after == self.status_message && info == text,
            None => exists|name: Option<Seq<char>>|
                {
                    &&& is_display_name(
                        match self.editor_rows.filename {
                            Some(path) => Some(path@),
                            None => None,
                        },
                        name,
                    )
                    &&& info == #[trigger] document_info(
                        name,
                        self.dirty,
                        self.editor_rows@.len(),
                    )
                },
        }
    }

    /// The frame that shows this state with `info` in the status bar: the
    /// cursor sent home, the rows of the viewport, the status bar, and the
    /// cursor sent to its place on the screen.
    pub open spec fn frame(&self, info: Seq<char>) -> Seq<char> {
        move_to_sequence(0, 0) + screen_rows(
            self.editor_rows.lines(),
            self.cursor_controller.row_offset as nat,
            self.cursor_controller.col_offset as nat,
            self.size,
            self.size.1 as nat,
        ) + self.status_bar(info) + move_to_sequence(
            (self.cursor_controller.render_x - self.cursor_controller.col_offset) as nat,
            (self.cursor_controller.cursor_y - self.cursor_controller.row_offset) as nat,
        )
    }

    /// The state after a step of the search on `key` found `found`: the
    /// cursor on the row of the match, in the buffer column that the
    /// rendered column of the match falls on, and the match and the
    /// direction remembered; the state as it was where nothing was found.
    pub open spec fn with_match(self, key: Key, found: Option<(usize, usize)>) -> Output {
        match found {
            None => self,
            Some((row, column)) => Output {
                search_index: SearchIndex {
                    x_index: column,
                    y_index: row,
                    ..self.search_index.after_key(key)
                },
                cursor_controller: CursorController {
                    cursor_y: row,
                    cursor_x: buffer_column(
                        self.editor_rows.lines()[row as int],
                        column as nat,
                    ) as usize,
                    ..self.cursor_controller
                },
                ..self
            },
        }
    }

    /// The message that tells how many bytes were saved.
    pub open spec fn saved_message(written: usize) -> Seq<char> {
        decimal(written as nat) + " bytes written to disk"@
    }

    /// The message that tells why the document was not saved.
    pub open spec fn error_message(reason: Seq<char>) -> Seq<char> {
        "Error "@ + debug_quoted(reason)
    }

    /// Whether `self` is `before` after the cursor moved by `motion`.
    pub open spec fn is_moved_from(&self, before: &Output, motion: Motion) -> bool {
        &&& self.edited_from(before)
        &&& self.editor_rows == before.editor_rows
        &&& self.dirty == before.dirty
        &&& self.cursor_controller == before.cursor_controller.moved(
            motion,
            before.editor_rows.lines(),
        )
    }

    /// Whether `self` is `before` after `c` was typed: `c` stands where the
    /// cursor was, the cursor one column further right, and the edit is
    /// counted.
    pub open spec fn is_typed_from(&self, before: &Output, c: char) -> bool {
        &&& self.edited_from(before)
        &&& self.editor_rows.lines() == Self::lines_after_insert(
            before.editor_rows.lines(),
            before.cursor_controller.cursor_x as int,
            before.cursor_controller.cursor_y as int,
            c,
        )
        &&& self.cursor_controller.cursor_x == before.cursor_controller.cursor_x + 1
        &&& self.cursor_controller.cursor_y == before.cursor_controller.cursor_y
        &&& self.dirty == before.dirty + 1
    }

    /// Whether `self` is `before` after the backspace key: text and cursor
    /// as [`Self::after_backspace`] says, and the edit counted.
    pub open spec fn is_backspaced_from(&self, before: &Output) -> bool {
        &&& self.edited_from(before)
        &&& (self.editor_rows.lines(), self.cursor_controller) == Self::after_backspace(
            before.editor_rows.lines(),
            before.cursor_controller,
        )
        &&& self.dirty == before.dirty + 1
    }

    /// Whether `self` is `before` after the delete key: the text as
    /// [`Self::lines_after_del`] says, the cursor where it was, and the edit
    /// counted.
    pub open spec fn is_deleted_from(&self, before: &Output) -> bool {
        &&& self.edited_from(before)
        &&& self.cursor_controller == before.cursor_controller
        &&& self.editor_rows.lines() == Self::lines_after_del(
            before.editor_rows.lines(),
            before.cursor_controller.cursor_x as int,
            before.cursor_controller.cursor_y as int,
        )
        &&& self.dirty == before.dirty + 1
    }

    /// Whether `self` is `before` after the enter key: the text as
    /// [`Self::lines_after_enter`] says, the cursor at the start of the next
    /// line, and the edit counted.
    pub open spec fn is_entered_from(&self, before: &Output) -> bool {
        &&& self.edited_from(before)
        &&& self.editor_rows.lines() == Self::lines_after_enter(
            before.editor_rows.lines(),
            before.cursor_controller.cursor_x as int,
            before.cursor_controller.cursor_y as int,
        )
        &&& self.cursor_controller.cursor_x == 0
        &&& self.cursor_controller.cursor_y == before.cursor_controller.cursor_y + 1
        &&& self.dirty == before.dirty + 1
    }

    /// Whether `self` is `before` after a step of the search for `keyword`
    /// on the key `key_code`.
    ///
    /// Escape and enter end the search and forget its position. Any other
    /// key sets the direction ([`SearchIndex::after_key`]) and searches
    /// ([`is_search_result`]); a match moves the cursor to it and is
    /// remembered ([`Self::with_match`]), and without a match nothing
    /// changes. Without a key nothing happens.
    pub open spec fn is_found_from(
        &self,
        before: &Output,
        keyword: Seq<char>,
        key_code: Option<Key>,
    ) -> bool {
        match key_code {
            None => *self == *before,
            Some(Key::Esc) | Some(Key::Enter) => *self == (Output {
                search_index: SearchIndex::zero(),
                ..*before
            }),
            Some(key) => exists|found: Option<(usize, usize)>|
                {
                    &&& is_search_result(
                        before.editor_rows.lines(),
                        before.search_index.after_key(key),
                        keyword,
                        found,
                    )
                    &&& *self == #[trigger] before.with_match(key, found)
                },
        }
    }

    /// The column of the last match lies on its rendered row, if the
    /// document still has that row.
    pub open spec fn search_on_row(&self) -> bool {
        self.search_index.y_index < self.editor_rows@.len() ==> self.search_index.x_index
            <= self.editor_rows@[self.search_index.y_index as int].render@.len()
    }

    /// Whether a step of the search on `key_code` can be made: a search
    /// backwards along the row starts on the row.
    pub open spec fn can_find(&self, key_code: Option<Key>) -> bool {
        key_code matches Some(key) ==> key == Key::Esc || key == Key::Enter
            || self.search_index.after_key(key).in_bounds(self.editor_rows.lines())
    }

    /// Whether `self` and `frame` are what refreshing the screen makes of
    /// `before`: the viewport reconciled with the cursor, the buffer empty,
    /// and in `frame` what the buffer held and the frame that shows the
    /// state, with the status message in the status bar while there is one.
    /// Reading the status message is what lets it run out.
    pub open spec fn is_refreshed_from(&self, before: &Output, frame: Seq<char>) -> bool {
        &&& self.cursor_controller == before.cursor_controller.scrolled(
            before.editor_rows.lines(),
        )
        &&& self.buffer@ == Seq::<char>::empty()
        &&& exists|info: Seq<char>|
            {
                &&& before.is_status_info(self.status_message, info)
                &&& frame == before.buffer@ + #[trigger] self.frame(info)
            }
        &&& *self == (Output {
            buffer: self.buffer,
            status_message: self.status_message,
            cursor_controller: self.cursor_controller,
            ..*before
        })
    }

    /// Whether `self` and `request` are what preparing to save makes of
    /// `before`. With a file name, `request` is what is to be written and
    /// nothing changes. Without one, the status message says so and there
    /// is no request.
    pub open spec fn is_save_prepared_from(
        &self,
        before: &Output,
        request: Option<FileImage>,
    ) -> bool {
        match request {
            Some(image) => {
                &&& before.editor_rows.filename == Some(image.filename)
                &&& image.content@ == serialized(before.editor_rows.lines())
                &&& image.len == encode_utf8(image.content@).len()
                &&& *self == *before
            },
            None => {
                &&& before.editor_rows.filename is None
                &&& self.status_message.text() == Some(
                    Self::error_message("no file name specified"@),
                )
                &&& *self == (Output { status_message: self.status_message, ..*before })
            },
        }
    }

    /// Whether `self` is `before` after writing the document ended in
    /// `outcome`: `Ok` with the number of bytes written, after which the
    /// document counts as unchanged, or `Err` with the reason of the
    /// failure. Either is told in the status message.
    pub open spec fn is_save_finished_from(
        &self,
        before: &Output,
        outcome: Result<usize, String>,
    ) -> bool {
        &&& match outcome {
            Ok(written) => {
                &&& self.dirty == 0
                &&& self.status_message.text() == Some(Self::saved_message(written))
            },
            Err(reason) => {
                &&& self.dirty == before.dirty
                &&& self.status_message.text() == Some(Self::error_message(reason@))
            },
        }
        &&& *self == (Output {
            status_message: self.status_message,
            dirty: self.dirty,
            ..*before
        })
    }

    /// Whether the state is well formed.
    pub fn is_wf(&self) -> (ok: bool)
        ensures
            ok == self.wf(),
    {
        self.cursor_controller.size_x == self.size.0 && self.cursor_controller.size_y
            == self.size.1 && self.size.0 <= 65535 && self.size.1 < 65535
            && self.cursor_controller.cursor_y <= self.editor_rows.num_rows()
            && self.editor_rows.is_wf()
    }

    /// Whether the cursor stands in the text.
    pub fn is_cursor_in_bounds(&self) -> (ok: bool)
        ensures
            ok == self.cursor_in_bounds(),
    {
        let y = self.cursor_controller.cursor_y;
        let n = self.editor_rows.num_rows();
        if y < n {
            assert(self.editor_rows.lines()[y as int] == self.editor_rows@[y as int]@);
            self.cursor_controller.cursor_x <= self.editor_rows.get_row(y).row_content.len()
        } else {
            y == n && self.cursor_controller.cursor_x == 0
        }
    }

    /// Whether the column of the last match lies on its rendered row.
    pub fn is_search_on_row(&self) -> (ok: bool)
        ensures
            ok == self.search_on_row(),
    {
        let y = self.search_index.y_index;
        if y < self.editor_rows.num_rows() {
            self.search_index.x_index <= self.editor_rows.get_render(y).len()
        } else {
            true
        }
    }

    /// The state of an editor on a terminal of `terminal_size` columns and
    /// rows, of which there is at least one, that has just opened the
    /// document `editor_rows`.
    pub fn new(terminal_size: (u16, u16), editor_rows: EditorRows) -> (output: Self)
        requires
            terminal_size.1 >= 1,
            editor_rows.wf(),
        ensures
            output.wf(),
            output.cursor_in_bounds(),
            output.size == (terminal_size.0 as usize, (terminal_size.1 - 1) as usize),
            output.cursor_controller == CursorController::at_origin(output.size),
            output.editor_rows == editor_rows,
            output.buffer@ == Seq::<char>::empty(),
            output.status_message.text() == Some(HELP_MESSAGE@),
            output.dirty == 0,
            output.search_index == SearchIndex::zero(),
    {
        let size = (terminal_size.0 as usize, (terminal_size.1 - 1) as usize);
        Self {
            size,
            buffer: Buf::new(),
            cursor_controller: CursorController::new(size),
            editor_rows,
            status_message: StatusMessage::new(HELP_MESSAGE),
            dirty: 0,
            search_index: SearchIndex::new(),
        }
    }

    /// Moves the cursor as `direction` asks, which must be a movement key.
    pub fn move_cursor(&mut self, direction: Key)
        requires
            old(self).wf(),
            direction.motion() is Some,
        ensures
            final(self).wf(),
            final(self).cursor_in_bounds(),
            final(self).is_moved_from(old(self), direction.motion().unwrap()),
    {
        self.cursor_controller.move_cursor(direction, &self.editor_rows)
    }

    /// Types `char` at the cursor, which moves one column to the right.
    pub fn insert_char(&mut self, char: char)
        requires
            old(self).wf(),
            old(self).cursor_in_bounds(),
            old(self).dirty < u64::MAX,
        ensures
            final(self).wf(),
            final(self).cursor_in_bounds(),
            final(self).is_typed_from(old(self), char),
    {
        if self.cursor_controller.cursor_y == self.editor_rows.num_rows() {
            self.editor_rows.insert_row();
        }
        let ghost mid = self.editor_rows;
        let ghost x = self.cursor_controller.cursor_x as int;
        let ghost y = self.cursor_controller.cursor_y as int;
        assert(mid.lines()[y] == mid@[y]@);
        let row = self.editor_rows.get_row_mut(self.cursor_controller.cursor_y);
        row.insert_char(char, self.cursor_controller.cursor_x);
        proof {
            let lines = self.editor_rows.lines();
            assert(lines[y] == self.editor_rows@[y]@);
            assert(lines[y] == mid.lines()[y].insert(x, char));
            assert(lines =~= mid.lines().update(y, lines[y]));
            if y == old(self).editor_rows@.len() {
                assert(Seq::<char>::empty().insert(0, char) =~= seq![char]);
            }
            assert(lines =~= Self::lines_after_insert(old(self).editor_rows.lines(), x, y, char));
            assert(self.editor_rows@[y].row_content.len() == lines[y].len());
        }
        self.cursor_controller.cursor_x += 1;
        self.dirty += 1;
    }

    /// The backspace key: see [`Self::after_backspace`]. It counts as an
    /// edit whatever it finds to do.
    pub fn backspace(&mut self)
        requires
            old(self).wf(),
            old(self).dirty < u64::MAX,
        ensures
            final(self).wf(),
            old(self).cursor_in_bounds() ==> final(self).cursor_in_bounds(),
            final(self).is_backspaced_from(old(self)),
    {
        let ghost lines = self.editor_rows.lines();
        let cursor_y = self.cursor_controller.cursor_y;
        let cursor_x = self.cursor_controller.cursor_x;
        let total_rows = self.editor_rows.num_rows();
        let content_len = if cursor_y < total_rows {
            self.editor_rows.get_row(cursor_y).row_content.len()
        } else {
            0
        };
        if cursor_y == 0 && cursor_x == 0 {
            if total_rows == 1 && content_len == 0 {
                self.editor_rows.delete_row(cursor_y);
            }
        } else if cursor_y == total_rows {
            self.move_cursor(Key::Left);
        } else if cursor_x == 0 {
            let prev_row_len = self.editor_rows.get_row(cursor_y - 1).row_content.len();
            self.editor_rows.delete_row_shift_up(cursor_y);
            self.cursor_controller.cursor_y -= 1;
            self.cursor_controller.cursor_x = prev_row_len;
        } else {
            let row = self.editor_rows.get_row_mut(cursor_y);
            row.delete_char(cursor_x - 1);
            assert(self.editor_rows.lines() =~= lines.update(
                cursor_y as int,
                with_char_deleted(lines[cursor_y as int], cursor_x - 1),
            ));
            self.cursor_controller.cursor_x -= 1;
        }
        self.dirty += 1;
    }

    /// The delete key: see [`Self::lines_after_del`]. The cursor stays
    /// where it is, and the key counts as an edit whatever it finds to do.
    pub fn del(&mut self)
        requires
            old(self).wf(),
            old(self).cursor_in_bounds(),
            old(self).dirty < u64::MAX,
        ensures
            final(self).wf(),
            final(self).cursor_in_bounds(),
            final(self).is_deleted_from(old(self)),
    {
        let ghost lines = self.editor_rows.lines();
        let cursor_y = self.cursor_controller.cursor_y;
        let cursor_x = self.cursor_controller.cursor_x;
        let total_rows = self.editor_rows.num_rows();
        let content_len = if cursor_y < total_rows {
            self.editor_rows.get_row(cursor_y).row_content.len()
        } else {
            0
        };
        if total_rows == 0 {
        } else if cursor_y == 0 && cursor_x == 0 && total_rows == 1 && content_len == 0 {
            self.editor_rows.delete_row(0);
        } else if cursor_x == content_len {
            if cursor_y < total_rows - 1 {
                self.editor_rows.delete_row_shift_up(cursor_y + 1);
            }
        } else {
            let row = self.editor_rows.get_row_mut(cursor_y);
            row.delete_char(cursor_x);
            assert(self.editor_rows.lines() =~= lines.update(
                cursor_y as int,
                with_char_deleted(lines[cursor_y as int], cursor_x as int),
            ));
        }
        self.dirty += 1;
    }

    /// The enter key: see [`Self::lines_after_enter`]. The cursor goes to
    /// the start of the next line.
    pub fn enter(&mut self)
        requires
            old(self).wf(),
            old(self).cursor_in_bounds(),
            old(self).dirty < u64::MAX,
        ensures
            final(self).wf(),
            final(self).cursor_in_bounds(),
            final(self).is_entered_from(old(self)),
    {
        let ghost lines = self.editor_rows.lines();
        let cursor_y = self.cursor_controller.cursor_y;
        let cursor_x = self.cursor_controller.cursor_x;
        let total_rows = self.editor_rows.num_rows();

        if cursor_y == total_rows {
            self.editor_rows.insert_row();
        } else {
            let row = self.editor_rows.get_row_mut(cursor_y);
            let mut split = row.row_content.split_off(cursor_x);
            self.editor_rows.insert_row_at(cursor_y + 1);
            let next = self.editor_rows.get_row_mut(cursor_y + 1);
            next.row_content.append(&mut split);
            EditorRows::render_row(next);
            EditorRows::render_row(self.editor_rows.get_row_mut(cursor_y));
            assert(self.editor_rows.lines() =~= Self::lines_after_enter(
                lines,
                cursor_x as int,
                cursor_y as int,
            ));
        }
        assert(self.editor_rows.contents.len() == total_rows + 1);
        self.cursor_controller.cursor_y += 1;
        self.cursor_controller.cursor_x = 0;
        self.dirty += 1;
    }

    /// The sequences that wipe the screen and send the cursor home.
    pub fn clear_screen(&self) -> (codes: String)
        ensures
            codes@ == clear_sequence(ClearKind::All) + move_to_sequence(0, 0),
    {
        let mut codes = clear(ClearKind::All);
        let home = move_to(0, 0);
        codes.append(home.as_str());
        codes
    }

    /// Appends the rows of the viewport to the buffer.
    pub fn draw_rows(&mut self)
        requires
            old(self).editor_rows.wf(),
        ensures
            final(self).buffer@ == old(self).buffer@ + screen_rows(
                old(self).editor_rows.lines(),
                old(self).cursor_controller.row_offset as nat,
                old(self).cursor_controller.col_offset as nat,
                old(self).size,
                old(self).size.1 as nat,
            ),
            *final(self) == (Output { buffer: final(self).buffer, ..*old(self) }),
    {
        let display_y = self.size.1;
        let mut i: usize = 0;
        while i < display_y
            invariant
                i <= display_y == self.size.1,
                self.editor_rows.wf(),
                self.buffer@ == old(self).buffer@ + screen_rows(
                    old(self).editor_rows.lines(),
                    old(self).cursor_controller.row_offset as nat,
                    old(self).cursor_controller.col_offset as nat,
                    old(self).size,
                    i as nat,
                ),
                *self == (Output { buffer: self.buffer, ..*old(self) }),
            decreases display_y - i,
        {
            draw_row(
                &mut self.buffer,
                &self.editor_rows,
                self.cursor_controller.row_offset,
                self.cursor_controller.col_offset,
                self.size,
                i,
            );
            i += 1;
        }
    }

    /// Appends the status bar to the buffer. The bar shows the status
    /// message while there is one, and reading it is what lets it run out.
    pub fn draw_status_bar(&mut self)
        requires
            old(self).cursor_controller.cursor_y <= old(self).editor_rows@.len(),
        ensures
            exists|info: Seq<char>|
                {
                    &&& old(self).is_status_info(final(self).status_message, info)
                    &&& final(self).buffer@ == old(self).buffer@ + #[trigger] old(self).status_bar(
                        info,
                    )
                },
            *final(self) == (Output {
                buffer: final(self).buffer,
                status_message: final(self).status_message,
                ..*old(self)
            }),
    {
        let reverse = attribute(TextAttribute::Reverse);
        self.buffer.push_str(reverse.as_str());
        let num_rows = self.editor_rows.num_rows();
        let info: Vec<char> = match self.status_message.message() {
            Some(msg) => chars_of(msg.as_str()),
            None => {
                let name = match &self.editor_rows.filename {
                    Some(path) => file_name(path.as_str()),
                    None => None,
                };
                let info = document_info_text(name.as_ref(), self.dirty, num_rows);
                assert(info@ == document_info(
                    match name {
                        Some(name) => Some(name@),
                        None => None,
                    },
                    self.dirty,
                    num_rows as nat,
                ));
                info
            },
        };
        assert(old(self).is_status_info(self.status_message, info@));
        let position = position_info_text(
            &self.editor_rows,
            self.cursor_controller.cursor_x,
            self.cursor_controller.cursor_y,
        );
        draw_status_line(&mut self.buffer, &info, &position, self.size.0);
        let reset = attribute(TextAttribute::Reset);
        self.buffer.push_str(reset.as_str());
        assert(self.buffer@ =~= old(self).buffer@ + old(self).status_bar(info@));
    }

    /// Reconciles the viewport with the cursor and composes the frame that
    /// shows the state. The frame is returned for the caller to send to the
    /// terminal, and the buffer is left empty.
    pub fn refresh(&mut self) -> (frame: String)
        requires
            old(self).wf(),
        ensures
            final(self).wf(),
            final(self).cursor_in_bounds(),
            final(self).is_refreshed_from(old(self), frame@),
    {
        self.cursor_controller.scroll(&self.editor_rows);
        let home = move_to(0, 0);
        self.buffer.push_str(home.as_str());
        self.draw_rows();
        let ghost drawn = *self;
        let ghost rows = screen_rows(
            self.editor_rows.lines(),
            self.cursor_controller.row_offset as nat,
            self.cursor_controller.col_offset as nat,
            self.size,
            self.size.1 as nat,
        );
        assert(drawn.buffer@ == old(self).buffer@ + move_to_sequence(0, 0) + rows);
        self.draw_status_bar();
        let ghost info = choose|info: Seq<char>|
            {
                &&& drawn.is_status_info(self.status_message, info)
                &&& self.buffer@ == drawn.buffer@ + #[trigger] drawn.status_bar(info)
            };
        let ghost bar = drawn.status_bar(info);
        assert(self.buffer@ == drawn.buffer@ + bar);
        assert(old(self).is_status_info(self.status_message, info)) by {
            assert(drawn.is_status_info(self.status_message, info));
            assert(drawn.status_message == old(self).status_message);
            assert(drawn.dirty == old(self).dirty);
            assert(drawn.editor_rows == old(self).editor_rows);
        }
        let cursor_x = self.cursor_controller.render_x - self.cursor_controller.col_offset;
        let cursor_y = self.cursor_controller.cursor_y - self.cursor_controller.row_offset;
        let place = move_to(cursor_x as u16, cursor_y as u16);
        self.buffer.push_str(place.as_str());
        assert(self.status_bar(info) == bar);
        assert(self.buffer@ =~= old(self).buffer@ + (move_to_sequence(0, 0) + rows + bar
            + move_to_sequence(cursor_x as nat, cursor_y as nat)));
        assert(self.frame(info) == move_to_sequence(0, 0) + rows + bar + move_to_sequence(
            cursor_x as nat,
            cursor_y as nat,
        ));
        let frame = self.buffer.flush();
        assert(frame@ == old(self).buffer@ + self.frame(info));
        frame
    }

    /// Prepares saving the document. With a file name, hands out what is to
    /// be written and changes nothing; the caller writes it and reports
    /// with [`Self::save_finished`]. Without one, says so in the status
    /// message and hands out nothing.
    pub fn save(&mut self) -> (request: Option<FileImage>)
        ensures
            final(self).is_save_prepared_from(old(self), request),
    {
        match self.editor_rows.save() {
            Ok(image) => Some(image),
            Err(_) => {
                self.report_error("no file name specified");
                None
            },
        }
    }

    /// Takes note of how writing the document went: `Ok` with the number of
    /// bytes written, after which the document counts as unchanged, or
    /// `Err` with the reason of the failure. Either is told in the status
    /// message.
    pub fn save_finished(&mut self, outcome: Result<usize, String>)
        ensures
            final(self).is_save_finished_from(old(self), outcome),
    {
        match outcome {
            Err(reason) => {
                self.report_error(reason.as_str());
            },
            Ok(written) => {
                self.dirty = 0;
                let mut message: Vec<char> = Vec::new();
                push_decimal(&mut message, written as u128);
                push_text(&mut message, " bytes written to disk");
                self.status_message.set_message(string_of(&message));
            },
        }
    }

    /// Sets the status message that tells of the failure `reason`.
    fn report_error(&mut self, reason: &str)
        ensures
            final(self).status_message.text() == Some(Self::error_message(reason@)),
            *final(self) == (Output { status_message: final(self).status_message, ..*old(self) }),
    {
        let mut message: Vec<char> = Vec::new();
        push_text(&mut message, "Error ");
        let detail = quoted(reason);
        push_text(&mut message, detail.as_str());
        self.status_message.set_message(string_of(&message));
    }

    /// One step of the search for `keyword`, on the key `key_code` that the
    /// prompt has just seen: see [`Self::is_found_from`].
    pub fn find_callback(&mut self, keyword: &str, key_code: Option<Key>)
        requires
            old(self).wf(),
            old(self).can_find(key_code),
        ensures
            final(self).wf(),
            old(self).cursor_in_bounds() ==> final(self).cursor_in_bounds(),
            old(self).search_on_row() ==> final(self).search_on_row(),
            final(self).is_found_from(old(self), keyword@, key_code),
    {
        match key_code {
            Some(Key::Esc) | Some(Key::Enter) => {
                self.search_index.reset();
            },
            Some(key) => {
                let index = self.search_index.with_key(key);
                let keyword = chars_of(keyword);
                let found = search(&self.editor_rows, index, &keyword);
                match found {
                    Some((row, column)) => {
                        let cursor_x = CursorController::buffer_x_at(
                            self.editor_rows.get_row(row),
                            column,
                        );
                        self.cursor_controller.cursor_y = row;
                        self.cursor_controller.cursor_x = cursor_x;
                        self.search_index = SearchIndex { x_index: column, y_index: row, ..index };
                    },
                    None => {},
                }
                assert(*self == old(self).with_match(key, found));
            },
            None => (),
        }
    }
}

} // verus!
