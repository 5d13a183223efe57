//! The cursor and the viewport: where the cursor stands in the document,
//! where that is on the rendered line, and which part of the document the
//! screen shows.

use vstd::prelude::*;
use crate::keys::{Key, Motion};
use crate::rows::{EditorRows, Row};
use crate::tabs::{
    buffer_column, expand_tabs, lemma_buffer_column_is, lemma_expand_len, lemma_expand_prefix_len,
    lemma_expand_step, lemma_render_column_bounds, render_column, TAB_STOP,
};

verus! {

/// `cursor_x`, `cursor_y` index the text of the document; `render_x` is the
/// column of the cursor on the rendered line; `row_offset`, `col_offset` are
/// the document row and the rendered column shown at the top left of the
/// screen, which is `size_x` columns wide and `size_y` rows high.
#[derive(Clone, Copy, Debug, PartialEq, Eq, Structural)]
pub struct CursorController {
    pub cursor_x: usize,
    pub cursor_y: usize,
    pub size_x: usize,
    pub size_y: usize,
    pub row_offset: usize,
    pub col_offset: usize,
    pub render_x: usize,
}

pub open spec fn min_int(a: int, b: int) -> int {
    if a <= b {
        a
    } else {
        b
    }
}

/// The length of the text of line `y`; 0 past the end of the document.
pub open spec fn content_len(lines: Seq<Seq<char>>, y: int) -> int {
    if 0 <= y < lines.len() {
        lines[y].len() as int
    } else {
        0
    }
}

/// The length of the rendered form of line `y`; 0 past the end of the
/// document.
pub open spec fn render_len(lines: Seq<Seq<char>>, y: int) -> int {
    if 0 <= y < lines.len() {
        expand_tabs(lines[y]).len() as int
    } else {
        0
    }
}

/// The offset that keeps `pos` inside a window of `size` cells that began at
/// `offset`: moved forward until `pos` is the last cell shown if `pos` lay
/// behind the window, moved back to `pos` if `pos` lay before it.
pub open spec fn scroll_offset(offset: int, pos: int, size: int) -> int {
    let forward = if pos >= offset + size {
        pos - size + 1
    } else {
        offset
    };
    if pos < forward {
        pos
    } else {
        forward
    }
}

/// Once an offset has been reconciled with a position, reconciling it again
/// changes nothing; and where the window has any size, the position lies
/// inside it.
pub proof fn lemma_scroll_offset(offset: int, pos: int, size: int)
    requires
        0 <= offset,
        0 <= pos,
        0 <= size,
    ensures
        0 <= scroll_offset(offset, pos, size) <= pos,
        scroll_offset(scroll_offset(offset, pos, size), pos, size) == scroll_offset(
            offset,
            pos,
            size,
        ),
        size > 0 ==> pos < scroll_offset(offset, pos, size) + size,
{
}

fn reconcile(offset: usize, pos: usize, size: usize) -> (r: usize)
    ensures
        r == scroll_offset(offset as int, pos as int, size as int),
{
    let forward = if pos >= size && pos - size >= offset {
        if size == 0 {
            pos
        } else {
            pos - size + 1
        }
    } else {
        offset
    };
    if pos < forward {
        pos
    } else {
        forward
    }
}

impl CursorController {
    /// The controller after the movement `motion` in a document with the
    /// text `lines`.
    ///
    /// Up and Left at the start of a line go to the line above, Left to its
    /// end; Down stops one past the last line; Right at the rendered end of
    /// the line goes to the start of the next; Home and End go to column 0
    /// and to the rendered length of the line; the paging keys jump by the
    /// height of the screen and stop at the ends of the document. At last
    /// the column is cut down to the length of the text of the line reached,
    /// which past the last line is 0.
    pub open spec fn moved(self, motion: Motion, lines: Seq<Seq<char>>) -> CursorController {
        let y_lim = lines.len() as int;
        let x = self.cursor_x as int;
        let y = self.cursor_y as int;
        let x_lim = render_len(lines, y);
        let x_lim_above = content_len(lines, y - 1);
        let (nx, ny): (int, int) = match motion {
            Motion::Up => if y != 0 {
                (min_int(x, x_lim_above), y - 1)
            } else {
                (x, y)
            },
            Motion::Down => if y < y_lim {
                (x, y + 1)
            } else {
                (x, y)
            },
            Motion::Left => if x == 0 && y != 0 {
                (x_lim_above, y - 1)
            } else if x > 0 {
                (x - 1, y)
            } else {
                (x, y)
            },
            Motion::Right => if self.render_x == x_lim {
                (0, min_int(y_lim, y + 1))
            } else if x < x_lim {
                (x + 1, y)
            } else {
                (x, y)
            },
            Motion::End => (x_lim, y),
            Motion::Home => (0, y),
            Motion::PageUp => (
                x,
                if y >= self.size_y {
                    y - self.size_y
                } else {
                    0
                },
            ),
            Motion::PageDown => (x, min_int(y_lim, y + self.size_y)),
        };
        CursorController {
            cursor_x: min_int(nx, content_len(lines, ny)) as usize,
            cursor_y: ny as usize,
            ..self
        }
    }

    /// The controller after reconciling it with the document: the cursor
    /// column cut down to the length of its line (0 past the last line), the
    /// rendered column derived from it, and both offsets moved just far
    /// enough for the cursor to be on the screen.
    pub open spec fn scrolled(self, lines: Seq<Seq<char>>) -> CursorController {
        let y = self.cursor_y as int;
        let cursor_x = min_int(self.cursor_x as int, content_len(lines, y));
        let render_x = if y < lines.len() {
            render_column(lines[y], self.cursor_x as nat) as int
        } else {
            0
        };
        CursorController {
            cursor_x: cursor_x as usize,
            render_x: render_x as usize,
            row_offset: scroll_offset(self.row_offset as int, y, self.size_y as int) as usize,
            col_offset: scroll_offset(
                self.col_offset as int,
                render_x,
                self.size_x as int,
            ) as usize,
            ..self
        }
    }

    /// The cursor stands on a line of the document or on the line after the
    /// last one, and on or directly after a character of that line.
    pub open spec fn in_bounds(self, lines: Seq<Seq<char>>) -> bool {
        &&& self.cursor_y <= lines.len()
        &&& self.cursor_x <= content_len(lines, self.cursor_y as int)
    }

    /// The controller of a screen of `size` columns and rows, with the
    /// cursor and the viewport at the start of the document.
    pub open spec fn at_origin(size: (usize, usize)) -> CursorController {
        CursorController {
            cursor_x: 0,
            cursor_y: 0,
            size_x: size.0,
            size_y: size.1,
            row_offset: 0,
            col_offset: 0,
            render_x: 0,
        }
    }

    pub fn new(size: (usize, usize)) -> (controller: Self)
        ensures
            controller == Self::at_origin(size),
    {
        Self {
            cursor_x: 0,
            cursor_y: 0,
            size_x: size.0,
            size_y: size.1,
            row_offset: 0,
            col_offset: 0,
            render_x: 0,
        }
    }

    /// Moves the cursor as `direction` asks, which must be a movement key,
    /// in a document in which the cursor stands no further down than one
    /// past the last row.
    ///
    /// Afterwards the cursor stands in the document, wherever its column
    /// was before: no further down than one past the last row, and on or
    /// directly after a character of its row, which past the last row is
    /// column 0.
    pub fn move_cursor(&mut self, direction: Key, editor_rows: &EditorRows)
        requires
            direction.motion() is Some,
            editor_rows.wf(),
            old(self).cursor_y <= editor_rows@.len(),
        ensures
            *final(self) == old(self).moved(direction.motion().unwrap(), editor_rows.lines()),
            final(self).in_bounds(editor_rows.lines()),
    {
        let ghost lines = editor_rows.lines();
        let y_lim = editor_rows.num_rows();
        let x_lim = if self.cursor_y >= y_lim {
            0
        } else {
            editor_rows.get_render(self.cursor_y).len()
        };
        let x_lim_above = if self.cursor_y == 0 {
            0
        } else {
            editor_rows.get_row(self.cursor_y - 1).row_content.len()
        };
        assert(x_lim == render_len(lines, self.cursor_y as int));
        assert(x_lim_above == content_len(lines, self.cursor_y - 1));
        match direction.as_motion() {
            Some(Motion::Up) => {
                if self.cursor_y != 0 {
                    self.cursor_x = min(self.cursor_x, x_lim_above);
                }
                if self.cursor_y > 0 {
                    self.cursor_y -= 1;
                }
            },
            Some(Motion::Down) => {
                if self.cursor_y < y_lim {
                    self.cursor_y += 1;
                }
            },
            Some(Motion::Left) => {
                if self.cursor_x == 0 && self.cursor_y != 0 {
                    self.cursor_x = x_lim_above;
                    self.cursor_y = self.cursor_y - 1;
                } else if self.cursor_x > 0 {
                    self.cursor_x -= 1;
                }
            },
            Some(Motion::Right) => {
                if self.render_x == x_lim {
                    self.cursor_x = 0;
                    if self.cursor_y < y_lim {
                        self.cursor_y = self.cursor_y + 1;
                    }
                } else if self.cursor_x < x_lim {
                    self.cursor_x += 1;
                }
            },
            Some(Motion::End) => {
                self.cursor_x = x_lim;
            },
            Some(Motion::Home) => {
                self.cursor_x = 0;
            },
            Some(Motion::PageUp) => {
                self.cursor_y = if self.cursor_y >= self.size_y {
                    self.cursor_y - self.size_y
                } else {
                    0
                };
            },
            Some(Motion::PageDown) => {
                self.cursor_y = if self.size_y >= y_lim - self.cursor_y {
                    y_lim
                } else {
                    self.cursor_y + self.size_y
                };
            },
            None => {},
        }
        let row_len = if self.cursor_y < y_lim {
            editor_rows.get_row(self.cursor_y).row_content.len()
        } else {
            0
        };
        assert(row_len == content_len(lines, self.cursor_y as int));
        self.cursor_x = min(self.cursor_x, row_len);
    }

    /// Reconciles the controller with the document, as is due before
    /// drawing: derives the rendered column, cuts the cursor column down to
    /// its line, and moves the offsets so that the cursor is on the screen.
    ///
    /// Afterwards the cursor lies inside the window, in each direction in
    /// which the window has any size.
    pub fn scroll(&mut self, editor_rows: &EditorRows)
        requires
            editor_rows.wf(),
        ensures
            *final(self) == old(self).scrolled(editor_rows.lines()),
            final(self).cursor_x <= content_len(editor_rows.lines(), final(self).cursor_y as int),
            final(self).cursor_x <= final(self).render_x,
            final(self).row_offset <= final(self).cursor_y,
            final(self).col_offset <= final(self).render_x,
            final(self).size_y > 0 ==> final(self).cursor_y - final(self).row_offset < final(self).size_y,
            final(self).size_x > 0 ==> final(self).render_x - final(self).col_offset < final(self).size_x,
    {
        let ghost lines = editor_rows.lines();
        if self.cursor_y < editor_rows.num_rows() {
            let row = editor_rows.get_row(self.cursor_y);
            let render_x = self.get_render_x(row);
            proof {
                lemma_render_column_bounds(row@, self.cursor_x as nat);
                if self.cursor_x > row@.len() {
                    lemma_expand_len(row@);
                }
            }
            self.render_x = render_x;
            self.cursor_x = min(row.row_content.len(), self.cursor_x);
        } else {
            self.render_x = 0;
            self.cursor_x = 0;
        }
        proof {
            lemma_scroll_offset(
                self.row_offset as int,
                self.cursor_y as int,
                self.size_y as int,
            );
            lemma_scroll_offset(
                self.col_offset as int,
                self.render_x as int,
                self.size_x as int,
            );
        }
        self.row_offset = reconcile(self.row_offset, self.cursor_y, self.size_y);
        self.col_offset = reconcile(self.col_offset, self.render_x, self.size_x);
    }

    /// The rendered column of the cursor column on `row`.
    pub fn get_render_x(&mut self, row: &Row) -> (render_x: usize)
        requires
            row.wf(),
        ensures
            render_x == render_column(row@, old(self).cursor_x as nat),
            *final(self) == *old(self),
    {
        Self::render_x_at(row, self.cursor_x)
    }

    /// The rendered column of the buffer column `x` on `row`: the width of
    /// what the first `x` characters of the row are drawn as, a tab reaching
    /// to the next tab stop and any other character taking one column.
    pub fn render_x_at(row: &Row, x: usize) -> (render_x: usize)
        requires
            row.wf(),
        ensures
            render_x == render_column(row@, x as nat),
    {
        let cursor_x = min(row.row_content.len(), x);
        let mut accm: usize = 0;
        let mut i: usize = 0;
        assert(expand_tabs(row@).len() == row.render.len());
        while i < cursor_x
            invariant
                i <= cursor_x <= row@.len(),
                expand_tabs(row@).len() <= usize::MAX,
                accm == expand_tabs(row@.take(i as int)).len(),
            decreases cursor_x - i,
        {
            proof {
                lemma_expand_step(row@, i as int);
                lemma_expand_prefix_len(row@, i + 1);
            }
            if row.row_content[i] == '\t' {
                accm = accm - (accm % TAB_STOP) + TAB_STOP;
            } else {
                accm = accm + 1;
            }
            i += 1;
        }
        proof {
            if x > row@.len() {
                assert(row@.take(cursor_x as int) =~= row@);
            }
        }
        accm
    }
}

/// A movement leaves the cursor in the document, wherever its column was
/// before: no further down than one past the last row if it was so before,
/// and on or directly after a character of its row, which past the last
/// row is column 0.
pub proof fn lemma_moved_in_document(controller: CursorController, motion: Motion, rows: EditorRows)
    requires
        rows.wf(),
        controller.cursor_y <= rows@.len(),
    ensures
        controller.moved(motion, rows.lines()).in_bounds(rows.lines()),
{
    let lines = rows.lines();
    assert(lines.len() == rows.contents.len());
    assert forall|k: int| 0 <= k < lines.len() implies render_len(lines, k) <= usize::MAX by {
        assert(expand_tabs(lines[k]).len() == rows@[k].render.len());
    }
    assert forall|k: int| 0 <= k < lines.len() implies content_len(lines, k) <= usize::MAX by {
        assert(lines[k].len() == rows@[k].row_content.len());
    }
}

/// Once the controller is reconciled with the document, the cursor is on
/// the screen: its row and its rendered column lie inside the window, in
/// each direction in which the window has any size; and the cursor column
/// lies in the text of its row, at or left of the rendered column.
pub proof fn lemma_scrolled_on_screen(controller: CursorController, rows: EditorRows)
    requires
        rows.wf(),
    ensures
        ({
            let after = controller.scrolled(rows.lines());
            &&& after.row_offset <= after.cursor_y
            &&& after.col_offset <= after.render_x
            &&& after.size_y > 0 ==> after.cursor_y < after.row_offset + after.size_y
            &&& after.size_x > 0 ==> after.render_x < after.col_offset + after.size_x
            &&& after.cursor_x <= content_len(rows.lines(), after.cursor_y as int)
            &&& after.cursor_x <= after.render_x
        }),
{
    let lines = rows.lines();
    let after = controller.scrolled(lines);
    let y = controller.cursor_y as int;
    if y < lines.len() {
        let line = lines[y];
        assert(expand_tabs(line).len() == rows@[y].render.len());
        lemma_render_column_bounds(line, controller.cursor_x as nat);
        lemma_expand_len(line);
    }
    lemma_scroll_offset(controller.row_offset as int, y, controller.size_y as int);
    lemma_scroll_offset(
        controller.col_offset as int,
        after.render_x as int,
        controller.size_x as int,
    );
}

/// Reconciling the controller twice with the same document gives what
/// reconciling it once gives: the same offsets, and the same cursor.
pub proof fn lemma_scroll_idempotent(controller: CursorController, rows: EditorRows)
    requires
        rows.wf(),
    ensures
        controller.scrolled(rows.lines()).scrolled(rows.lines()) == controller.scrolled(
            rows.lines(),
        ),
{
    let lines = rows.lines();
    let once = controller.scrolled(lines);
    let y = controller.cursor_y as int;
    if y < lines.len() {
        let line = lines[y];
        assert(expand_tabs(line).len() == rows@[y].render.len());
        lemma_render_column_bounds(line, controller.cursor_x as nat);
        if controller.cursor_x > line.len() {
            assert(line.take(line.len() as int) =~= line);
        }
        assert(render_column(line, once.cursor_x as nat) == render_column(
            line,
            controller.cursor_x as nat,
        ));
    }
    lemma_scroll_offset(controller.row_offset as int, y, controller.size_y as int);
    lemma_scroll_offset(
        controller.col_offset as int,
        once.render_x as int,
        controller.size_x as int,
    );
}

impl CursorController {
    /// The buffer column that the rendered column `render_x` of `row` falls
    /// on: the walk along the row stops before the first character that
    /// would be drawn right of `render_x`.
    pub fn buffer_x_at(row: &Row, render_x: usize) -> (cursor_x: usize)
        requires
            row.wf(),
        ensures
            cursor_x == buffer_column(row@, render_x as nat),
            cursor_x <= row@.len(),
    {
        let n = row.row_content.len();
        let mut accm: usize = 0;
        let mut i: usize = 0;
        assert(expand_tabs(row@).len() == row.render.len());
        assert(row@.take(0) =~= Seq::<char>::empty());
        while i < n
            invariant
                i <= n == row@.len(),
                expand_tabs(row@).len() <= usize::MAX,
                accm == expand_tabs(row@.take(i as int)).len(),
                accm <= render_x,
            ensures
                i <= n,
                accm == expand_tabs(row@.take(i as int)).len(),
                accm <= render_x,
                i < n ==> expand_tabs(row@.take(i + 1)).len() > render_x,
            decreases n - i,
        {
            proof {
                lemma_expand_step(row@, i as int);
                lemma_expand_prefix_len(row@, i + 1);
            }
            let next = if row.row_content[i] == '\t' {
                accm - (accm % TAB_STOP) + TAB_STOP
            } else {
                accm + 1
            };
            if next > render_x {
                break;
            }
            accm = next;
            i += 1;
        }
        proof {
            lemma_buffer_column_is(row@, render_x as nat, i as int);
        }
        i
    }
}

fn min(a: usize, b: usize) -> (m: usize)
    ensures
        m == min_int(a as int, b as int),
{
    if a <= b {
        a
    } else {
        b
    }
}

} // verus!
