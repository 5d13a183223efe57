//! Where the last match of a search was found, and which way to go on.

use vstd::prelude::*;
use crate::keys::Key;
use crate::rows::EditorRows;
use crate::tabs::expand_tabs;
use crate::text::{
    find_from, is_first_from, is_last_before, lemma_first_from_unique, lemma_last_before_unique,
    occurs_at, rfind_before,
};

verus! {

#[derive(Clone, Copy, Debug, PartialEq, Eq, Structural)]
pub enum SearchDirection {
    Forward,
    Backward,
}

/// The place of the last match, in rendered columns and rows, and the
/// direction chosen for each axis, if any.
#[derive(Clone, Copy, Debug, PartialEq, Eq, Structural)]
pub struct SearchIndex {
    pub x_index: usize,
    pub y_index: usize,
    pub x_direction: Option<SearchDirection>,
    pub y_direction: Option<SearchDirection>,
}

impl SearchIndex {
    /// The state before any match: the origin, and no direction.
    pub open spec fn zero() -> SearchIndex {
        SearchIndex { x_index: 0, y_index: 0, x_direction: None, y_direction: None }
    }

    pub fn new() -> (index: Self)
        ensures
            index == Self::zero(),
    {
        Self { x_index: 0, y_index: 0, x_direction: None, y_direction: None }
    }

    pub fn reset(&mut self)
        ensures
            *final(self) == Self::zero(),
    {
        self.y_index = 0;
        self.x_index = 0;
        self.y_direction = None;
        self.x_direction = None;
    }
}

impl SearchIndex {
    /// The index once `key` has set the direction of the search: the
    /// vertical arrows choose a direction across the rows, the horizontal
    /// arrows one along the row, and any other key chooses none.
    pub open spec fn after_key(self, key: Key) -> SearchIndex {
        SearchIndex {
            x_direction: match key {
                Key::Left => Some(SearchDirection::Backward),
                Key::Right => Some(SearchDirection::Forward),
                _ => None,
            },
            y_direction: match key {
                Key::Up => Some(SearchDirection::Backward),
                Key::Down => Some(SearchDirection::Forward),
                _ => None,
            },
            ..self
        }
    }

    /// The first row that a search looks at: the row of the last match, or
    /// the one below or above it where a direction across the rows is set.
    pub open spec fn first_candidate(self) -> int {
        match self.y_direction {
            None => self.y_index as int,
            Some(SearchDirection::Forward) => self.y_index + 1,
            Some(SearchDirection::Backward) => self.y_index - 1,
        }
    }

    /// A search backwards along the row has its starting column on the
    /// rendered row that it looks at.
    pub open spec fn in_bounds(self, lines: Seq<Seq<char>>) -> bool {
        self.x_direction == Some(SearchDirection::Backward) && 0 <= self.first_candidate()
            < lines.len() ==> self.x_index <= expand_tabs(lines[self.first_candidate()]).len()
    }

    pub fn with_key(self, key: Key) -> (index: Self)
        ensures
            index == self.after_key(key),
    {
        SearchIndex {
            x_direction: match key {
                Key::Left => Some(SearchDirection::Backward),
                Key::Right => Some(SearchDirection::Forward),
                _ => None,
            },
            y_direction: match key {
                Key::Up => Some(SearchDirection::Backward),
                Key::Down => Some(SearchDirection::Forward),
                _ => None,
            },
            x_index: self.x_index,
            y_index: self.y_index,
        }
    }
}

/// Whether `found` is what one step of the search for `keyword` finds in
/// the rendered text of `lines`, from the state `index`.
///
/// With a direction along the row, only the first candidate row is looked
/// at: forward for the first occurrence that begins after the column of
/// the last match, backward for the last occurrence that ends at or before
/// it. Without one, the rows are looked at one after the other from the
/// first candidate, upwards where the direction across the rows is
/// backward and downwards otherwise, and the leftmost occurrence on the
/// first row that has any is found. `found` is the row and the rendered
/// column of the occurrence, or `None` where there is none.
pub open spec fn is_search_result(
    lines: Seq<Seq<char>>,
    index: SearchIndex,
    keyword: Seq<char>,
    found: Option<(usize, usize)>,
) -> bool {
    let first = index.first_candidate();
    match index.x_direction {
        Some(direction) => {
            if 0 <= first < lines.len() {
                let hay = expand_tabs(lines[first]);
                let column = match found {
                    Some((_, column)) => Some(column),
                    None => None,
                };
                &&& found matches Some((row, _)) ==> row == first
                &&& match direction {
                    SearchDirection::Forward => is_first_from(
                        hay,
                        keyword,
                        if index.x_index < hay.len() {
                            index.x_index + 1
                        } else {
                            hay.len() as int
                        },
                        column,
                    ),
                    SearchDirection::Backward => is_last_before(
                        hay,
                        keyword,
                        index.x_index as int,
                        column,
                    ),
                }
            } else {
                found is None
            }
        },
        None => {
            let upwards = index.y_direction == Some(SearchDirection::Backward);
            match found {
                Some((row, column)) => {
                    &&& 0 <= row < lines.len()
                    &&& is_first_from(expand_tabs(lines[row as int]), keyword, 0, Some(column))
                    &&& if upwards {
                        &&& row <= first < lines.len()
                        &&& forall|k: int|
                            row < k <= first ==> is_first_from(
                                #[trigger] expand_tabs(lines[k]),
                                keyword,
                                0,
                                None,
                            )
                    } else {
                        &&& first <= row
                        &&& forall|k: int|
                            first <= k < row ==> is_first_from(
                                #[trigger] expand_tabs(lines[k]),
                                keyword,
                                0,
                                None,
                            )
                    }
                },
                None => {
                    if upwards {
                        first < lines.len() ==> forall|k: int|
                            0 <= k <= first ==> is_first_from(
                                #[trigger] expand_tabs(lines[k]),
                                keyword,
                                0,
                                None,
                            )
                    } else {
                        forall|k: int|
                            first <= k < lines.len() ==> is_first_from(
                                #[trigger] expand_tabs(lines[k]),
                                keyword,
                                0,
                                None,
                            )
                    }
                },
            }
        },
    }
}

/// A step of the search has one result: what [`is_search_result`] holds of
/// is the same whenever it holds.
pub proof fn lemma_search_result_unique(
    lines: Seq<Seq<char>>,
    index: SearchIndex,
    keyword: Seq<char>,
    a: Option<(usize, usize)>,
    b: Option<(usize, usize)>,
)
    requires
        is_search_result(lines, index, keyword, a),
        is_search_result(lines, index, keyword, b),
    ensures
        a == b,
{
    let first = index.first_candidate();
    let column_a = match a {
        Some((_, column)) => Some(column),
        None => None,
    };
    let column_b = match b {
        Some((_, column)) => Some(column),
        None => None,
    };
    match index.x_direction {
        Some(direction) => {
            if 0 <= first < lines.len() {
                let hay = expand_tabs(lines[first]);
                match direction {
                    SearchDirection::Forward => {
                        lemma_first_from_unique(
                            hay,
                            keyword,
                            if index.x_index < hay.len() {
                                index.x_index + 1
                            } else {
                                hay.len() as int
                            },
                            column_a,
                            column_b,
                        );
                    },
                    SearchDirection::Backward => {
                        lemma_last_before_unique(
                            hay,
                            keyword,
                            index.x_index as int,
                            column_a,
                            column_b,
                        );
                    },
                }
            }
        },
        None => {
            match (a, b) {
                (Some((row_a, col_a)), Some((row_b, col_b))) => {
                    if row_a != row_b {
                        // the row found further on lies among those that the
                        // other result says hold nothing
                        let hay_a = expand_tabs(lines[row_a as int]);
                        let hay_b = expand_tabs(lines[row_b as int]);
                        assert(occurs_at(hay_a, keyword, col_a as int));
                        assert(occurs_at(hay_b, keyword, col_b as int));
                        assert(is_first_from(hay_a, keyword, 0, None) || is_first_from(
                            hay_b,
                            keyword,
                            0,
                            None,
                        ));
                    } else {
                        lemma_first_from_unique(
                            expand_tabs(lines[row_a as int]),
                            keyword,
                            0,
                            Some(col_a),
                            Some(col_b),
                        );
                    }
                },
                (Some((row, col)), None) => {
                    let hay = expand_tabs(lines[row as int]);
                    assert(occurs_at(hay, keyword, col as int));
                    assert(is_first_from(hay, keyword, 0, None));
                },
                (None, Some((row, col))) => {
                    let hay = expand_tabs(lines[row as int]);
                    assert(occurs_at(hay, keyword, col as int));
                    assert(is_first_from(hay, keyword, 0, None));
                },
                (None, None) => {},
            }
        },
    }
}

/// One step of the search for `keyword` in the rendered rows of
/// `editor_rows`, from the state `index`: the row and the rendered column
/// of the occurrence that [`is_search_result`] describes.
pub fn search(editor_rows: &EditorRows, index: SearchIndex, keyword: &Vec<char>) -> (found: Option<
    (usize, usize),
>)
    requires
        editor_rows.wf(),
        index.in_bounds(editor_rows.lines()),
    ensures
        is_search_result(editor_rows.lines(), index, keyword@, found),
        found matches Some((row, column)) ==> row < editor_rows@.len() && column
            <= editor_rows@[row as int].render@.len(),
{
    let ghost lines = editor_rows.lines();
    let n = editor_rows.num_rows();
    assert(forall|k: int| 0 <= k < n ==> expand_tabs(#[trigger] lines[k]) == editor_rows@[k].render@);
    let first = match index.y_direction {
        None => index.y_index,
        Some(SearchDirection::Forward) => {
            if index.y_index >= n {
                return None;
            }
            index.y_index + 1
        },
        Some(SearchDirection::Backward) => {
            if index.y_index == 0 {
                return None;
            }
            index.y_index - 1
        },
    };
    if first >= n {
        return None;
    }
    match index.x_direction {
        Some(SearchDirection::Forward) => {
            let render = editor_rows.get_render(first);
            let start = if index.x_index < render.len() {
                index.x_index + 1
            } else {
                render.len()
            };
            match find_from(render, keyword, start) {
                Some(column) => Some((first, column)),
                None => None,
            }
        },
        Some(SearchDirection::Backward) => {
            let render = editor_rows.get_render(first);
            match rfind_before(render, keyword, index.x_index) {
                Some(column) => Some((first, column)),
                None => None,
            }
        },
        None => {
            let upwards = match index.y_direction {
                Some(SearchDirection::Backward) => true,
                _ => false,
            };
            let mut row: usize = first;
            loop
                invariant
                    row < n == lines.len(),
                    first < n,
                    editor_rows.wf(),
                    lines == editor_rows.lines(),
                    first == index.first_candidate(),
                    index.x_direction is None,
                    upwards == (index.y_direction == Some(SearchDirection::Backward)),
                    upwards ==> row <= first && forall|k: int|
                        row < k <= first ==> is_first_from(
                            #[trigger] expand_tabs(lines[k]),
                            keyword@,
                            0,
                            None,
                        ),
                    !upwards ==> first <= row && forall|k: int|
                        first <= k < row ==> is_first_from(
                            #[trigger] expand_tabs(lines[k]),
                            keyword@,
                            0,
                            None,
                        ),
                decreases
                        if upwards {
                            row as int
                        } else {
                            n - row
                        },
            {
                let render = editor_rows.get_render(row);
                assert(render@ == expand_tabs(lines[row as int]));
                match find_from(render, keyword, 0) {
                    Some(column) => {
                        return Some((row, column));
                    },
                    None => {},
                }
                if upwards {
                    if row == 0 {
                        return None;
                    }
                    row -= 1;
                } else {
                    if row + 1 >= n {
                        return None;
                    }
                    row += 1;
                }
            }
        },
    }
}

} // verus!
