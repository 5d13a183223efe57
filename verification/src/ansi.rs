//! The control sequences that a frame holds besides its text, as the
//! terminal library writes them.

use vstd::prelude::*;
use crate::text::decimal;

verus! {

/// The part of the screen that a clearing sequence wipes.
#[derive(Clone, Copy, Debug, PartialEq, Eq, Structural)]
pub enum ClearKind {
    /// Every cell.
    All,
    /// The cells from the cursor to the end of its line.
    UntilNewLine,
}

/// A way of drawing text that a sequence switches on, or all of them off.
#[derive(Clone, Copy, Debug, PartialEq, Eq, Structural)]
pub enum TextAttribute {
    /// Back to plain text.
    Reset,
    /// Foreground and background colours swapped.
    Reverse,
}

/// The control sequence introducer: escape and an opening bracket.
pub open spec fn csi() -> Seq<char> {
    seq!['\x1b', '[']
}

/// The sequence that clears the part `kind` of the screen.
pub open spec fn clear_sequence(kind: ClearKind) -> Seq<char> {
    match kind {
        ClearKind::All => csi() + seq!['2', 'J'],
        ClearKind::UntilNewLine => csi() + seq!['K'],
    }
}

/// The sequence that selects the attribute `which`.
pub open spec fn attribute_sequence(which: TextAttribute) -> Seq<char> {
    match which {
        TextAttribute::Reset => csi() + seq!['0', 'm'],
        TextAttribute::Reverse => csi() + seq!['7', 'm'],
    }
}

/// The sequence that moves the cursor to column `x` of row `y`, both counted
/// from 0: the terminal counts from 1 and takes the row first.
pub open spec fn move_to_sequence(x: nat, y: nat) -> Seq<char> {
    csi() + decimal(y + 1) + seq![';'] + decimal(x + 1) + seq!['H']
}

/// What `crossterm::terminal::Clear` writes as its ANSI form: the
/// introducer, then `2J` for the whole screen and `K` for the rest of the
/// line.
#[verifier::external_body]
pub(crate) fn clear(kind: ClearKind) -> (code: String)
    ensures
        code@ == clear_sequence(kind),
{
    let clear_type = match kind {
        ClearKind::All => crossterm::terminal::ClearType::All,
        ClearKind::UntilNewLine => crossterm::terminal::ClearType::UntilNewLine,
    };
    let mut code = String::new();
    let _ = crossterm::Command::write_ansi(&crossterm::terminal::Clear(clear_type), &mut code);
    code
}

/// What `crossterm::cursor::MoveTo` writes as its ANSI form: the
/// introducer, the row and the column, each one more than given and in
/// decimal, with `;` between them, and `H`. The one added must fit.
#[verifier::external_body]
pub(crate) fn move_to(x: u16, y: u16) -> (code: String)
    requires
        x < u16::MAX,
        y < u16::MAX,
    ensures
        code@ == move_to_sequence(x as nat, y as nat),
{
    let mut code = String::new();
    let _ = crossterm::Command::write_ansi(&crossterm::cursor::MoveTo(x, y), &mut code);
    code
}

/// What `crossterm::style::SetAttribute` writes as its ANSI form: the
/// introducer, the number of the attribute in the SGR table (0 for reset,
/// 7 for reverse), and `m`.
#[verifier::external_body]
pub(crate) fn attribute(which: TextAttribute) -> (code: String)
    ensures
        code@ == attribute_sequence(which),
{
    let attribute = match which {
        TextAttribute::Reset => crossterm::style::Attribute::Reset,
        TextAttribute::Reverse => crossterm::style::Attribute::Reverse,
    };
    let mut code = String::new();
    let _ = crossterm::Command::write_ansi(&crossterm::style::SetAttribute(attribute), &mut code);
    code
}

} // verus!
