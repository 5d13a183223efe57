//! Tab expansion: the relation between the text of a line and what is drawn.

use vstd::prelude::*;

verus! {

/// Column interval to which a tab character advances the rendered text.
pub const TAB_STOP: usize = 8;

/// `n` spaces.
pub open spec fn spaces(n: nat) -> Seq<char> {
    Seq::new(n, |i: int| ' ')
}

/// The first column after `col` that is a multiple of the tab stop.
pub open spec fn next_tab_stop(col: nat) -> nat {
    (col - col % 8 + 8) as nat
}

/// The rendered form of a line: every tab becomes one or more spaces, up to
/// the next multiple of the tab stop; every other character stands as it is.
pub open spec fn expand_tabs(s: Seq<char>) -> Seq<char>
    decreases s.len(),
{
    if s.len() == 0 {
        Seq::empty()
    } else {
        let before = expand_tabs(s.drop_last());
        if s.last() == '\t' {
            before + spaces((next_tab_stop(before.len()) - before.len()) as nat)
        } else {
            before.push(s.last())
        }
    }
}

/// The rendered column of the buffer column `x` of the line `s`: the width
/// of the rendered form of the first `x` characters (of all of them if `x`
/// lies past the end).
pub open spec fn render_column(s: Seq<char>, x: nat) -> nat {
    if x <= s.len() {
        expand_tabs(s.take(x as int)).len()
    } else {
        expand_tabs(s).len()
    }
}

/// The buffer column that the rendered column `column` of the line `s`
/// falls on: the largest column of the text whose rendered column is not
/// right of `column`. A rendered column inside the spaces of a tab falls on
/// the tab, and one right of the rendered line on the end of the text.
pub open spec fn buffer_column(s: Seq<char>, column: nat) -> nat
    decreases s.len(),
{
    if s.len() == 0 {
        0
    } else if expand_tabs(s).len() <= column {
        s.len()
    } else {
        buffer_column(s.drop_last(), column)
    }
}

/// Rendering one more character: a tab moves the column to the next tab
/// stop, any other character moves it by one.
pub proof fn lemma_expand_step(s: Seq<char>, i: int)
    requires
        0 <= i < s.len(),
    ensures
        expand_tabs(s.take(i + 1)) == if s[i] == '\t' {
            expand_tabs(s.take(i)) + spaces(
                (next_tab_stop(expand_tabs(s.take(i)).len()) - expand_tabs(s.take(i)).len()) as nat,
            )
        } else {
            expand_tabs(s.take(i)).push(s[i])
        },
        expand_tabs(s.take(i + 1)).len() == if s[i] == '\t' {
            next_tab_stop(expand_tabs(s.take(i)).len())
        } else {
            expand_tabs(s.take(i)).len() + 1
        },
{
    assert(s.take(i + 1).drop_last() =~= s.take(i));
    assert(s.take(i + 1).last() == s[i]);
}

/// The rendered form of a prefix is no wider than that of the whole line.
pub proof fn lemma_expand_prefix_len(s: Seq<char>, i: int)
    requires
        0 <= i <= s.len(),
    ensures
        expand_tabs(s.take(i)).len() <= expand_tabs(s).len(),
    decreases s.len(),
{
    if i == s.len() {
        assert(s.take(i) =~= s);
    } else {
        assert(s.drop_last().take(i) =~= s.take(i));
        lemma_expand_prefix_len(s.drop_last(), i);
    }
}

/// A buffer column whose rendered column is not right of `column`, while
/// that of the next buffer column is, is the buffer column that `column`
/// falls on.
pub proof fn lemma_buffer_column_is(s: Seq<char>, column: nat, x: int)
    requires
        0 <= x <= s.len(),
        render_column(s, x as nat) <= column,
        x < s.len() ==> render_column(s, (x + 1) as nat) > column,
    ensures
        buffer_column(s, column) == x,
    decreases s.len(),
{
    if s.len() == 0 {
    } else if x == s.len() {
        assert(s.take(x) =~= s);
    } else {
        lemma_expand_prefix_len(s, x + 1);
        let front = s.drop_last();
        assert(front.take(x) =~= s.take(x));
        if x < front.len() {
            assert(front.take(x + 1) =~= s.take(x + 1));
        }
        lemma_buffer_column_is(front, column, x);
    }
}

/// The buffer column that a rendered column falls on lies in the text, its
/// rendered column is not right of the rendered column, and that of every
/// buffer column after it is.
pub proof fn lemma_buffer_column(s: Seq<char>, column: nat)
    ensures
        buffer_column(s, column) <= s.len(),
        render_column(s, buffer_column(s, column)) <= column,
        forall|x: int|
            buffer_column(s, column) < x <= s.len() ==> #[trigger] render_column(s, x as nat)
                > column,
    decreases s.len(),
{
    if s.len() == 0 {
        assert(s.take(0) =~= s);
    } else if expand_tabs(s).len() <= column {
        assert(s.take(s.len() as int) =~= s);
    } else {
        let front = s.drop_last();
        lemma_buffer_column(front, column);
        let b = buffer_column(front, column);
        assert(front.take(b as int) =~= s.take(b as int));
        assert forall|x: int| b < x <= s.len() implies #[trigger] render_column(s, x as nat)
            > column by {
            if x == s.len() {
                assert(s.take(x) =~= s);
            } else {
                assert(front.take(x) =~= s.take(x));
                assert(render_column(front, x as nat) > column);
            }
        }
    }
}

/// Going from a buffer column to its rendered column and back gives the
/// buffer column.
pub proof fn lemma_buffer_column_of_render_column(s: Seq<char>, x: int)
    requires
        0 <= x <= s.len(),
    ensures
        buffer_column(s, render_column(s, x as nat)) == x,
{
    if x < s.len() {
        lemma_expand_step(s, x);
    }
    lemma_buffer_column_is(s, render_column(s, x as nat), x);
}

/// A rendered column never lies left of its buffer column, and never right
/// of the end of the rendered line.
pub proof fn lemma_render_column_bounds(s: Seq<char>, x: nat)
    ensures
        render_column(s, x) <= expand_tabs(s).len(),
        x <= s.len() ==> x <= render_column(s, x),
{
    if x <= s.len() {
        lemma_expand_prefix_len(s, x as int);
        lemma_expand_len(s.take(x as int));
    }
}

/// Whether every tab of `s` stands in a column from which the next tab stop
/// is one step away, so that it is drawn as a single space.
pub open spec fn tabs_are_single(s: Seq<char>) -> bool {
    forall|i: int| 0 <= i < s.len() && s[i] == '\t' ==> i % 8 == 7
}

/// The rendered form of a line is at least as long as the line. It is exactly
/// as long if and only if each tab of the line is drawn as a single space;
/// so a line without a tab is its own rendered form, and a line with a tab
/// in any other column is strictly shorter than its rendered form.
pub proof fn lemma_expand_len(s: Seq<char>)
    ensures
        expand_tabs(s).len() >= s.len(),
        expand_tabs(s).len() == s.len() <==> tabs_are_single(s),
        !s.contains('\t') ==> expand_tabs(s) == s,
        s.contains('\t') && !tabs_are_single(s) ==> expand_tabs(s).len() > s.len(),
    decreases s.len(),
{
    if s.len() == 0 {
        assert(expand_tabs(s) =~= s);
    } else {
        let front = s.drop_last();
        let last = s.len() - 1;
        lemma_expand_len(front);
        assert(forall|j: int| 0 <= j < front.len() ==> front[j] == s[j]);
        if tabs_are_single(s) {
            assert(tabs_are_single(front));
        }
        if tabs_are_single(front) && (s[last] != '\t' || last % 8 == 7) {
            assert(tabs_are_single(s));
        }
        if !s.contains('\t') {
            assert forall|j: int| 0 <= j < front.len() implies front[j] != '\t' by {
                assert(s[j] == front[j]);
            }
            assert(!front.contains('\t'));
            assert(s[last] != '\t');
            assert(expand_tabs(s) =~= s);
        }
    }
}

/// For a line in which no tab stands one step before a tab stop, the
/// rendered form is exactly as long as the line if and only if the line
/// holds no tab.
pub proof fn lemma_expand_len_equal_iff_no_tab(s: Seq<char>)
    requires
        forall|i: int| 0 <= i < s.len() && s[i] == '\t' ==> i % 8 != 7,
    ensures
        expand_tabs(s).len() >= s.len(),
        expand_tabs(s).len() == s.len() <==> !s.contains('\t'),
{
    lemma_expand_len(s);
    if s.contains('\t') {
        let j = choose|j: int| 0 <= j < s.len() && s[j] == '\t';
        assert(!tabs_are_single(s));
    } else {
        assert(tabs_are_single(s));
    }
}

} // verus!
