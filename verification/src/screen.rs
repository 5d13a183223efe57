//! The parts of a frame: the rows of the document that the viewport shows,
//! the banner of an empty document, and the status bar.

use vstd::prelude::*;
use crate::ansi::{clear, clear_sequence, ClearKind};
use crate::buffer::Buf;
use crate::rows::EditorRows;
use crate::tabs::{expand_tabs, spaces};
use crate::text::{chars_of, decimal, occurs_at, push_decimal, push_spaces, push_text};

verus! {

/// The version that the banner names.
pub const VERSION: &'static str = "0.1.0";

/// What stands at the start of each screen row below the document.
pub const LINE_MARKER: &'static str = "\u{1F525}";

/// The banner of an empty document, before the version.
pub const WELCOME: &'static str = "\u{1F525} Editor --- Version ";

/// The hint below the banner.
pub const QUIT_HINT: &'static str = "CTRL + q to quit";

/// The file name shown for a document that has none.
pub const NO_NAME: &'static str = "[No Name]";

pub open spec fn min_nat(a: nat, b: nat) -> nat {
    if a <= b {
        a
    } else {
        b
    }
}

/// `text`, cut to `width` characters and moved right by half of the room
/// that is left, less `less` columns where there are that many.
pub open spec fn centered(text: Seq<char>, width: nat, less: nat) -> Seq<char> {
    let shown = text.take(min_nat(text.len(), width) as int);
    let padding = (width - shown.len()) / 2;
    spaces(
        if padding >= less {
            (padding - less) as nat
        } else {
            0
        },
    ) + shown
}

/// The part of the rendered line `y` that a viewport of `width` columns
/// shows from column `col_offset` on; nothing where the line does not exist
/// or ends before that column.
pub open spec fn visible_part(
    lines: Seq<Seq<char>>,
    y: int,
    col_offset: nat,
    width: nat,
) -> Seq<char> {
    if 0 <= y < lines.len() && col_offset < expand_tabs(lines[y]).len() {
        let render = expand_tabs(lines[y]);
        render.subrange(
            col_offset as int,
            min_nat(render.len(), col_offset + width) as int,
        )
    } else {
        Seq::empty()
    }
}

/// Screen row `i` of a viewport of `size` columns and rows whose top left
/// shows column `col_offset` of document row `row_offset`.
///
/// Screen row `i` shows document row `i + row_offset`: its visible part
/// where the document has that row, and otherwise the marker, followed in
/// an empty document by the banner on screen row `height / 20` and by the
/// hint two rows below. Each row ends by clearing what is left of the
/// screen line and going to the next.
pub open spec fn screen_row(
    lines: Seq<Seq<char>>,
    row_offset: nat,
    col_offset: nat,
    size: (usize, usize),
    i: int,
) -> Seq<char> {
    let body = if i + row_offset >= lines.len() {
        LINE_MARKER@ + (if lines.len() == 0 && i == size.1 / 20 {
            centered(WELCOME@ + VERSION@, size.0 as nat, 2)
        } else {
            Seq::empty()
        }) + (if lines.len() == 0 && i == size.1 / 20 + 2 {
            centered(QUIT_HINT@, size.0 as nat, 0)
        } else {
            Seq::empty()
        })
    } else {
        visible_part(lines, i + row_offset, col_offset, size.0 as nat)
    };
    body + clear_sequence(ClearKind::UntilNewLine) + seq!['\n', '\r']
}

/// The first `count` screen rows, one after the other.
pub open spec fn screen_rows(
    lines: Seq<Seq<char>>,
    row_offset: nat,
    col_offset: nat,
    size: (usize, usize),
    count: nat,
) -> Seq<char>
    decreases count,
{
    if count == 0 {
        Seq::empty()
    } else {
        screen_rows(lines, row_offset, col_offset, size, (count - 1) as nat) + screen_row(
            lines,
            row_offset,
            col_offset,
            size,
            count - 1,
        )
    }
}

/// What the status bar says of the document when there is no message: the
/// name of its file, whether it has unsaved edits, and how many lines it
/// has.
pub open spec fn document_info(name: Option<Seq<char>>, dirty: u64, num_rows: nat) -> Seq<char> {
    (match name {
        Some(name) => name,
        None => NO_NAME@,
    }) + seq![' '] + (if dirty > 0 {
        "Modified!"@
    } else {
        Seq::empty()
    }) + " -- "@ + decimal(num_rows) + " lines"@
}

/// What the status bar says of the cursor: its column and the number of
/// columns of its line, its row and the number of rows, all counted from 1
/// and with the place after the end included; or that the document is
/// empty.
pub open spec fn position_info(lines: Seq<Seq<char>>, cursor_x: nat, cursor_y: nat) -> Seq<char> {
    if lines.len() == 0 {
        "Empty File"@
    } else {
        let x_lim: nat = if cursor_y < lines.len() {
            lines[cursor_y as int].len()
        } else {
            0
        };
        "col "@ + decimal(cursor_x + 1) + seq!['/'] + decimal(x_lim + 1) + " row "@ + decimal(
            cursor_y + 1,
        ) + seq!['/'] + decimal(lines.len() + 1)
    }
}

/// The text of the status bar: `info` cut to `width` characters at the
/// left, `position` at the right, and between them the spaces that make the
/// bar `width` characters long, if there is room for any.
pub open spec fn status_line(info: Seq<char>, position: Seq<char>, width: nat) -> Seq<char> {
    let shown = info.take(min_nat(info.len(), width) as int);
    let padding = if width >= shown.len() + position.len() {
        (width - shown.len() - position.len()) as nat
    } else {
        0
    };
    shown + spaces(padding) + position
}

/// Where the status bar has room for both of its parts, it is exactly as
/// long as the screen is wide.
pub proof fn lemma_status_line_width(info: Seq<char>, position: Seq<char>, width: nat)
    requires
        min_nat(info.len(), width) + position.len() <= width,
    ensures
        status_line(info, position, width).len() == width,
{
}

/// Whether `name` is a part of `path`: not empty, and standing in it in one
/// piece.
pub open spec fn is_part_of(name: Seq<char>, path: Seq<char>) -> bool {
    name.len() > 0 && exists|i: int| occurs_at(path, name, i)
}

/// Whether the status bar may show `name` for a document whose file is
/// called `filename`: no name, or a part of what the file is called.
pub open spec fn is_display_name(filename: Option<Seq<char>>, name: Option<Seq<char>>) -> bool {
    match name {
        None => true,
        Some(name) => filename matches Some(path) && is_part_of(name, path),
    }
}

/// `std::path::Path::file_name`: the last component of a path, if it has
/// one that is a name. A component is a piece of the path between
/// separators, so the name, where there is one, is a part of the path and
/// not empty. Which part, and when there is none, is left open.
#[verifier::external_body]
pub(crate) fn file_name(path: &str) -> (name: Option<String>)
    ensures
        name matches Some(name) ==> is_part_of(name@, path@),
{
    let name = std::path::Path::new(path).file_name()?;
    Some(name.to_str()?.to_owned())
}

/// Appends `text`, centred as [`centered`] says, to `buffer`.
fn push_centered(buffer: &mut Buf, text: Vec<char>, width: usize, less: usize)
    ensures
        final(buffer)@ == old(buffer)@ + centered(text@, width as nat, less as nat),
{
    let mut shown = text;
    if shown.len() > width {
        shown.truncate(width);
    }
    assert(shown@ =~= text@.take(min_nat(text@.len(), width as nat) as int));
    let padding = (width - shown.len()) / 2;
    let mut gap: Vec<char> = Vec::new();
    if padding >= less {
        push_spaces(&mut gap, padding - less);
    }
    assert(gap@ =~= spaces(
        if padding >= less {
            (padding - less) as nat
        } else {
            0
        },
    ));
    buffer.push_chars(&gap);
    buffer.push_chars(&shown);
    assert(buffer@ =~= old(buffer)@ + centered(text@, width as nat, less as nat));
}

/// Appends screen row `i` to `buffer`.
pub fn draw_row(
    buffer: &mut Buf,
    editor_rows: &EditorRows,
    row_offset: usize,
    col_offset: usize,
    size: (usize, usize),
    i: usize,
)
    requires
        editor_rows.wf(),
    ensures
        final(buffer)@ == old(buffer)@ + screen_row(
            editor_rows.lines(),
            row_offset as nat,
            col_offset as nat,
            size,
            i as int,
        ),
{
    let ghost lines = editor_rows.lines();
    let display_x = size.0;
    let display_y = size.1;
    let buffer_length = editor_rows.num_rows();
    let ghost body: Seq<char>;
    if i >= buffer_length || row_offset >= buffer_length - i {
        buffer.push_str(LINE_MARKER);
        if i == display_y / 20 && buffer_length == 0 {
            let mut welcome = chars_of(WELCOME);
            push_text(&mut welcome, VERSION);
            push_centered(buffer, welcome, display_x, 2);
        }
        if i >= 2 && i - 2 == display_y / 20 && buffer_length == 0 {
            push_centered(buffer, chars_of(QUIT_HINT), display_x, 0);
        }
        proof {
            body = LINE_MARKER@ + (if lines.len() == 0 && i == size.1 / 20 {
                centered(WELCOME@ + VERSION@, size.0 as nat, 2)
            } else {
                Seq::empty()
            }) + (if lines.len() == 0 && i == size.1 / 20 + 2 {
                centered(QUIT_HINT@, size.0 as nat, 0)
            } else {
                Seq::empty()
            });
            assert(buffer@ =~= old(buffer)@ + body);
        }
    } else {
        let render = editor_rows.get_render(i + row_offset);
        let row_len = render.len();
        if col_offset < row_len {
            let len = if row_len - col_offset < display_x {
                row_len - col_offset
            } else {
                display_x
            };
            let mut k: usize = 0;
            while k < len
                invariant
                    k <= len,
                    col_offset + len <= render@.len() <= usize::MAX,
                    buffer@ == old(buffer)@ + render@.subrange(
                        col_offset as int,
                        col_offset + k,
                    ),
                decreases len - k,
            {
                buffer.push_chr(render[col_offset + k]);
                k += 1;
                assert(render@.subrange(col_offset as int, col_offset + k) =~= render@.subrange(
                    col_offset as int,
                    col_offset + k - 1,
                ).push(render@[col_offset + k - 1]));
            }
        }
        proof {
            body = visible_part(lines, i + row_offset, col_offset as nat, size.0 as nat);
            assert(lines[i + row_offset] == editor_rows@[i + row_offset]@);
            assert(buffer@ =~= old(buffer)@ + body);
        }
    }
    let code = clear(ClearKind::UntilNewLine);
    buffer.push_str(code.as_str());
    buffer.push_str("\n\r");
    proof {
        reveal_strlit("\n\r");
        assert("\n\r"@ =~= seq!['\n', '\r']);
        assert(buffer@ =~= old(buffer)@ + (body + clear_sequence(ClearKind::UntilNewLine)
            + seq!['\n', '\r']));
    }
}

/// The text of [`document_info`].
pub fn document_info_text(name: Option<&String>, dirty: u64, num_rows: usize) -> (info: Vec<char>)
    ensures
        info@ == document_info(
            match name {
                Some(name) => Some(name@),
                None => None,
            },
            dirty,
            num_rows as nat,
        ),
{
    let mut info: Vec<char> = Vec::new();
    match name {
        Some(name) => push_text(&mut info, name.as_str()),
        None => push_text(&mut info, NO_NAME),
    }
    info.push(' ');
    if dirty > 0 {
        push_text(&mut info, "Modified!");
    }
    push_text(&mut info, " -- ");
    push_decimal(&mut info, num_rows as u128);
    push_text(&mut info, " lines");
    assert(info@ =~= document_info(
        match name {
            Some(name) => Some(name@),
            None => None,
        },
        dirty,
        num_rows as nat,
    ));
    info
}

/// The text of [`position_info`], for a cursor that stands no further down
/// than one past the last row.
pub fn position_info_text(editor_rows: &EditorRows, cursor_x: usize, cursor_y: usize) -> (info:
    Vec<char>)
    requires
        cursor_y <= editor_rows@.len(),
    ensures
        info@ == position_info(editor_rows.lines(), cursor_x as nat, cursor_y as nat),
{
    let mut info: Vec<char> = Vec::new();
    let y_lim = editor_rows.num_rows();
    if y_lim == 0 {
        push_text(&mut info, "Empty File");
    } else {
        let x_lim = if y_lim == cursor_y {
            0
        } else {
            editor_rows.get_row(cursor_y).row_content.len()
        };
        push_text(&mut info, "col ");
        push_decimal(&mut info, cursor_x as u128 + 1);
        info.push('/');
        push_decimal(&mut info, x_lim as u128 + 1);
        push_text(&mut info, " row ");
        push_decimal(&mut info, cursor_y as u128 + 1);
        info.push('/');
        push_decimal(&mut info, y_lim as u128 + 1);
    }
    assert(info@ =~= position_info(editor_rows.lines(), cursor_x as nat, cursor_y as nat));
    info
}

/// Appends the text of [`status_line`] to `buffer`.
pub fn draw_status_line(buffer: &mut Buf, info: &Vec<char>, position: &Vec<char>, width: usize)
    ensures
        final(buffer)@ == old(buffer)@ + status_line(info@, position@, width as nat),
{
    let info_len = if info.len() < width {
        info.len()
    } else {
        width
    };
    let mut k: usize = 0;
    while k < info_len
        invariant
            k <= info_len <= info@.len(),
            buffer@ == old(buffer)@ + info@.take(k as int),
        decreases info_len - k,
    {
        buffer.push_chr(info[k]);
        k += 1;
        assert(info@.take(k as int) =~= info@.take(k - 1).push(info@[k - 1]));
    }
    let mut gap: Vec<char> = Vec::new();
    if width >= position.len() && width - position.len() >= info_len {
        push_spaces(&mut gap, width - position.len() - info_len);
    }
    buffer.push_chars(&gap);
    buffer.push_chars(position);
    assert(buffer@ =~= old(buffer)@ + status_line(info@, position@, width as nat));
}

} // verus!
