//! The row store: the lines of the document, each with its rendered form.

use vstd::prelude::*;
use vstd::utf8::encode_utf8;
use crate::tabs::{expand_tabs, lemma_expand_step, next_tab_stop, spaces, TAB_STOP};

verus! {

/// One line of the document, without its line ending.
///
/// `render` caches the tab-expanded form of `row_content`. Whoever changes
/// `row_content` directly re-derives it with [`EditorRows::render_row`]
/// before the row is read again.
pub struct Row {
    pub row_content: Vec<char>,
    pub render: Vec<char>,
}

/// The text of a line after the character `c` went in at position `at`.
pub open spec fn with_char_inserted(content: Seq<char>, c: char, at: int) -> Seq<char> {
    content.insert(at, c)
}

/// The text of a line after the character at position `at` was taken out;
/// the text itself where `at` lies past its end.
pub open spec fn with_char_deleted(content: Seq<char>, at: int) -> Seq<char> {
    if 0 <= at < content.len() {
        content.remove(at)
    } else {
        content
    }
}

/// Inserting a character and deleting at the same position gives the line
/// back.
pub proof fn lemma_insert_then_delete(content: Seq<char>, c: char, at: int)
    requires
        0 <= at <= content.len(),
    ensures
        with_char_deleted(with_char_inserted(content, c, at), at) == content,
{
    assert(content.insert(at, c).remove(at) =~= content);
}

/// A line without the carriage return at its end, if it has one.
pub open spec fn strip_cr(line: Seq<char>) -> Seq<char> {
    if line.len() > 0 && line.last() == '\r' {
        line.drop_last()
    } else {
        line
    }
}

/// The lines of the text `pending + rest`, where `pending` holds no line
/// feed: see [`split_lines`].
pub open spec fn lines_from(pending: Seq<char>, rest: Seq<char>) -> Seq<Seq<char>>
    decreases rest.len(),
{
    if rest.len() == 0 {
        if pending.len() == 0 {
            Seq::empty()
        } else {
            seq![pending]
        }
    } else if rest[0] == '\n' {
        seq![strip_cr(pending)] + lines_from(Seq::empty(), rest.drop_first())
    } else {
        lines_from(pending.push(rest[0]), rest.drop_first())
    }
}

/// The lines of a text. A line ends with a line feed, or with a carriage
/// return and a line feed, neither of which belongs to the line; what
/// follows the last line feed is a line if it is not empty.
pub open spec fn split_lines(text: Seq<char>) -> Seq<Seq<char>> {
    lines_from(Seq::empty(), text)
}

/// The text of a file that holds `lines`: each line, the last one too,
/// followed by a line feed.
pub open spec fn serialized(lines: Seq<Seq<char>>) -> Seq<char>
    decreases lines.len(),
{
    if lines.len() == 0 {
        Seq::empty()
    } else {
        serialized(lines.drop_last()) + lines.last() + seq!['\n']
    }
}

/// The number of characters in all of `lines` together.
pub open spec fn total_chars(lines: Seq<Seq<char>>) -> nat
    decreases lines.len(),
{
    if lines.len() == 0 {
        0
    } else {
        total_chars(lines.drop_last()) + lines.last().len()
    }
}

/// The text of a file has as many characters as its lines have together,
/// and one more for each line.
pub proof fn lemma_serialized_len(lines: Seq<Seq<char>>)
    ensures
        serialized(lines).len() == total_chars(lines) + lines.len(),
    decreases lines.len(),
{
    if lines.len() > 0 {
        lemma_serialized_len(lines.drop_last());
    }
}

/// Where the text of a file is ASCII, the file has as many bytes as its
/// lines have characters together, and one more for each line.
pub proof fn lemma_serialized_ascii_bytes(lines: Seq<Seq<char>>)
    requires
        vstd::utf8::is_ascii_chars(serialized(lines)),
    ensures
        encode_utf8(serialized(lines)).len() == total_chars(lines) + lines.len(),
{
    lemma_serialized_len(lines);
    vstd::utf8::is_ascii_chars_encode_utf8(serialized(lines));
}

/// The text of a file begins with its first line and a line feed, and goes
/// on with the text of the file that holds the other lines.
pub proof fn lemma_serialized_first(lines: Seq<Seq<char>>)
    requires
        lines.len() > 0,
    ensures
        serialized(lines) == lines[0] + seq!['\n'] + serialized(lines.drop_first()),
    decreases lines.len(),
{
    if lines.len() == 1 {
        assert(serialized(lines.drop_last()) =~= Seq::<char>::empty());
        assert(serialized(lines.drop_first()) =~= Seq::<char>::empty());
        assert(serialized(lines) =~= lines[0] + seq!['\n']);
        assert(lines[0] + seq!['\n'] + serialized(lines.drop_first()) =~= lines[0] + seq!['\n']);
    } else {
        lemma_serialized_first(lines.drop_last());
        assert(lines.drop_last().drop_first() =~= lines.drop_first().drop_last());
        assert(lines.drop_first().last() == lines.last());
        assert(lines.drop_last()[0] == lines[0]);
        assert(serialized(lines) =~= lines[0] + seq!['\n'] + serialized(lines.drop_first()));
    }
}

/// A line without a line feed in it, followed by a line feed, is read as
/// one line, joined to what was pending.
pub proof fn lemma_lines_from_line(pending: Seq<char>, line: Seq<char>, rest: Seq<char>)
    requires
        !line.contains('\n'),
    ensures
        lines_from(pending, line + seq!['\n'] + rest) == seq![strip_cr(pending + line)]
            + split_lines(rest),
    decreases line.len(),
{
    let text = line + seq!['\n'] + rest;
    if line.len() == 0 {
        assert(text.drop_first() =~= rest);
        assert(pending + line =~= pending);
    } else {
        assert(line[0] != '\n') by {
            assert(line.contains(line[0]));
        }
        let tail = line.drop_first();
        assert(!tail.contains('\n')) by {
            if tail.contains('\n') {
                let k = choose|k: int| 0 <= k < tail.len() && tail[k] == '\n';
                assert(line[k + 1] == '\n');
                assert(line.contains('\n'));
            }
        }
        assert(text.drop_first() =~= tail + seq!['\n'] + rest);
        assert(text[0] == line[0]);
        lemma_lines_from_line(pending.push(line[0]), tail, rest);
        assert(pending.push(line[0]) + tail =~= pending + line);
    }
}

/// Saving and loading give the document back: the lines of the text of a
/// file are the lines that the file was made of, provided that none of
/// them holds a line feed or ends with a carriage return.
pub proof fn lemma_split_serialized(lines: Seq<Seq<char>>)
    requires
        forall|i: int|
            0 <= i < lines.len() ==> !(#[trigger] lines[i]).contains('\n') && strip_cr(lines[i])
                == lines[i],
    ensures
        split_lines(serialized(lines)) == lines,
    decreases lines.len(),
{
    if lines.len() == 0 {
        assert(split_lines(serialized(lines)) =~= lines);
    } else {
        let rest = lines.drop_first();
        lemma_serialized_first(lines);
        assert forall|i: int| 0 <= i < rest.len() implies !(#[trigger] rest[i]).contains('\n')
            && strip_cr(rest[i]) == rest[i] by {
            assert(rest[i] == lines[i + 1]);
        }
        lemma_split_serialized(rest);
        lemma_lines_from_line(Seq::empty(), lines[0], serialized(rest));
        assert(Seq::<char>::empty() + lines[0] =~= lines[0]);
        assert(seq![lines[0]] + rest =~= lines);
    }
}

/// What is to be written to disk to save the document.
pub struct FileImage {
    /// The name of the file.
    pub filename: String,
    /// All that the file is to hold.
    pub content: String,
    /// The length of `content` in bytes, which the file is to have.
    pub len: usize,
}

/// Why a document cannot be saved.
#[derive(Clone, Copy, Debug, PartialEq, Eq, Structural)]
pub enum SaveError {
    /// The document has no file name yet.
    MissingFilename,
}

/// The rendered form of `content`.
pub fn expanded(content: &Vec<char>) -> (render: Vec<char>)
    ensures
        render@ == expand_tabs(content@),
{
    let mut render: Vec<char> = Vec::new();
    let n = content.len();
    let mut i: usize = 0;
    while i < n
        invariant
            i <= n,
            n == content@.len(),
            render@ == expand_tabs(content@.take(i as int)),
        decreases n - i,
    {
        let chr = content[i];
        proof {
            lemma_expand_step(content@, i as int);
        }
        if chr == '\t' {
            let ghost before = render@;
            render.push(' ');
            let ghost mut pad: nat = 1;
            assert(render@ =~= before + spaces(pad));
            while render.len() % TAB_STOP != 0
                invariant
                    render@ == before + spaces(pad),
                    1 <= pad <= next_tab_stop(before.len()) - before.len(),
                decreases next_tab_stop(before.len()) - before.len() - pad,
            {
                render.push(' ');
                proof {
                    assert(render@ =~= before + spaces(pad + 1));
                    pad = pad + 1;
                }
            }
        } else {
            render.push(chr);
        }
        i += 1;
    }
    assert(content@.take(n as int) =~= content@);
    render
}

/// Whether `a` and `b` hold the same characters.
pub fn same_text(a: &Vec<char>, b: &Vec<char>) -> (same: bool)
    ensures
        same == (a@ == b@),
{
    if a.len() != b.len() {
        return false;
    }
    let mut i: usize = 0;
    while i < a.len()
        invariant
            i <= a@.len() == b@.len(),
            a@.take(i as int) == b@.take(i as int),
        decreases a@.len() - i,
    {
        if a[i] != b[i] {
            return false;
        }
        i += 1;
        assert(a@.take(i as int) =~= a@.take(i - 1).push(a@[i - 1]));
        assert(b@.take(i as int) =~= b@.take(i - 1).push(b@[i - 1]));
    }
    assert(a@.take(a@.len() as int) =~= a@);
    assert(b@.take(b@.len() as int) =~= b@);
    true
}

impl View for Row {
    type V = Seq<char>;

    /// A row stands for its text.
    open spec fn view(&self) -> Seq<char> {
        self.row_content@
    }
}

impl Row {
    /// The render cache is up to date.
    pub open spec fn wf(&self) -> bool {
        self.render@ == expand_tabs(self.row_content@)
    }

    pub fn new(row_content: Vec<char>, render: Vec<char>) -> (row: Self)
        ensures
            row.row_content == row_content,
            row.render == render,
    {
        Self { row_content, render }
    }

    /// Whether the render cache is up to date.
    pub fn is_wf(&self) -> (ok: bool)
        ensures
            ok == self.wf(),
    {
        let fresh = expanded(&self.row_content);
        same_text(&self.render, &fresh)
    }

    /// Inserts `char` at position `at` and renders the row again.
    pub fn insert_char(&mut self, char: char, at: usize)
        requires
            at <= old(self)@.len(),
        ensures
            final(self)@ == with_char_inserted(old(self)@, char, at as int),
            final(self).wf(),
    {
        self.row_content.insert(at, char);
        EditorRows::render_row(self);
    }

    /// Deletes the character at position `at` and renders the row again;
    /// leaves the row as it is where `at` lies past its end.
    pub fn delete_char(&mut self, at: usize)
        ensures
            final(self)@ == with_char_deleted(old(self)@, at as int),
            at < old(self)@.len() ==> final(self).wf(),
            at >= old(self)@.len() ==> *final(self) == *old(self),
    {
        if at < self.row_content.len() {
            self.row_content.remove(at);
            EditorRows::render_row(self)
        }
    }
}

impl Default for Row {
    fn default() -> (row: Self)
        ensures
            row@ == Seq::<char>::empty(),
            row.render@ == Seq::<char>::empty(),
            row.wf(),
    {
        Self { row_content: Vec::new(), render: Vec::new() }
    }
}

/// The lines of the document, in order, and the name of the file they are
/// saved to, once there is one.
pub struct EditorRows {
    pub contents: Vec<Row>,
    pub filename: Option<String>,
}

impl View for EditorRows {
    type V = Seq<Row>;

    open spec fn view(&self) -> Seq<Row> {
        self.contents@
    }
}

impl EditorRows {
    /// The text of the document, line by line.
    pub open spec fn lines(&self) -> Seq<Seq<char>> {
        Seq::new(self@.len(), |i: int| self@[i]@)
    }

    /// The render cache of every row is up to date.
    pub open spec fn wf(&self) -> bool {
        forall|i: int| 0 <= i < self@.len() ==> (#[trigger] self@[i]).wf()
    }

    /// The text of the document with line `at` appended to the line above
    /// it and then taken out.
    pub open spec fn lines_joined(lines: Seq<Seq<char>>, at: int) -> Seq<Seq<char>>
        recommends
            1 <= at < lines.len(),
    {
        lines.update(at - 1, lines[at - 1] + lines[at]).remove(at)
    }

    /// An empty document without a file name.
    pub fn new() -> (rows: Self)
        ensures
            rows@.len() == 0,
            rows.filename is None,
            rows.wf(),
    {
        Self { contents: Vec::new(), filename: None }
    }

    /// The document that a file named `file` with the text `file_contents`
    /// holds.
    pub fn from_file(file: String, file_contents: &str) -> (rows: Self)
        ensures
            rows.filename == Some(file),
            rows.lines() == split_lines(file_contents@),
            rows.wf(),
    {
        let mut contents: Vec<Row> = Vec::new();
        let mut pending: Vec<char> = Vec::new();
        let ghost text = file_contents@;
        assert(text.skip(0) =~= text);
        for c in it: file_contents.chars()
            invariant
                it.seq() == text,
                forall|i: int| 0 <= i < contents@.len() ==> (#[trigger] contents@[i]).wf(),
                Seq::new(contents@.len(), |i: int| contents@[i]@) + lines_from(
                    pending@,
                    text.skip(it.index() as int),
                ) =~= split_lines(text),
        {
            let ghost before = Seq::new(contents@.len(), |i: int| contents@[i]@);
            let ghost rest = text.skip(it.index() as int);
            assert(rest.drop_first() =~= text.skip(it.index() + 1));
            assert(rest[0] == c);
            if c == '\n' {
                let ghost line = pending@;
                let n = pending.len();
                if n > 0 && pending[n - 1] == '\r' {
                    pending.pop();
                }
                assert(pending@ =~= strip_cr(line));
                let mut row = Row::new(pending, Vec::new());
                Self::render_row(&mut row);
                contents.push(row);
                pending = Vec::new();
                assert(Seq::new(contents@.len(), |i: int| contents@[i]@) =~= before + seq![row@]);
            } else {
                pending.push(c);
            }
        }
        assert(text.skip(text.len() as int) =~= Seq::<char>::empty());
        if pending.len() > 0 {
            let ghost before = Seq::new(contents@.len(), |i: int| contents@[i]@);
            let mut row = Row::new(pending, Vec::new());
            Self::render_row(&mut row);
            contents.push(row);
            assert(Seq::new(contents@.len(), |i: int| contents@[i]@) =~= before + seq![row@]);
        }
        let rows = Self { contents, filename: Some(file) };
        assert(rows.lines() =~= split_lines(text));
        rows
    }

    /// Whether the render cache of every row is up to date.
    pub fn is_wf(&self) -> (ok: bool)
        ensures
            ok == self.wf(),
    {
        let mut i: usize = 0;
        while i < self.contents.len()
            invariant
                i <= self@.len(),
                forall|k: int| 0 <= k < i ==> (#[trigger] self@[k]).wf(),
            decreases self@.len() - i,
        {
            if !self.contents[i].is_wf() {
                return false;
            }
            i += 1;
        }
        true
    }

    /// The number of rows: the one measure of where the document ends.
    pub fn num_rows(&self) -> (n: usize)
        ensures
            n == self@.len(),
    {
        self.contents.len()
    }

    /// Row `at`, which must exist.
    pub fn get_row<'a>(self: &'a Self, at: usize) -> (row: &'a Row)
        requires
            at < self@.len(),
        ensures
            *row == self@[at as int],
    {
        &self.contents[at]
    }

    /// Row `at`, which must exist, for changing in place. The document
    /// afterwards is the one before with whatever the caller leaves in the
    /// row at `at`.
    pub fn get_row_mut(&mut self, at: usize) -> (row: &mut Row)
        requires
            at < old(self)@.len(),
        ensures
            *row == old(self)@[at as int],
            final(self)@ == old(self)@.update(at as int, *final(row)),
            final(self).filename == old(self).filename,
    {
        &mut self.contents[at]
    }

    /// The rendered form of row `at`, which must exist.
    pub fn get_render<'a>(self: &'a Self, at: usize) -> (render: &'a Vec<char>)
        requires
            at < self@.len(),
        ensures
            *render == self@[at as int].render,
    {
        &self.get_row(at).render
    }

    /// Appends an empty row.
    pub fn insert_row(&mut self)
        ensures
            final(self)@.len() == old(self)@.len() + 1,
            final(self)@.drop_last() == old(self)@,
            final(self)@.last()@ == Seq::<char>::empty(),
            final(self)@.last().wf(),
            final(self).lines() == old(self).lines().push(Seq::empty()),
            old(self).wf() ==> final(self).wf(),
            final(self).filename == old(self).filename,
    {
        self.contents.push(Row::default());
        assert(self@.drop_last() =~= old(self)@);
        assert(self.lines() =~= old(self).lines().push(Seq::empty()));
    }

    /// Removes row `at`, which must exist.
    pub fn delete_row(&mut self, at: usize)
        requires
            at < old(self)@.len(),
        ensures
            final(self)@ == old(self)@.remove(at as int),
            final(self).lines() == old(self).lines().remove(at as int),
            old(self).wf() ==> final(self).wf(),
            final(self).filename == old(self).filename,
    {
        self.contents.remove(at);
        assert(self.lines() =~= old(self).lines().remove(at as int));
    }

    /// Appends the text of row `at` to the row above it, renders that row
    /// again and removes row `at`. Both rows must exist.
    pub fn delete_row_shift_up(&mut self, at: usize)
        requires
            1 <= at < old(self)@.len(),
        ensures
            final(self)@.len() == old(self)@.len() - 1,
            forall|i: int| 0 <= i < at - 1 ==> final(self)@[i] == old(self)@[i],
            final(self)@[at - 1]@ == old(self)@[at - 1]@ + old(self)@[at as int]@,
            final(self)@[at - 1].wf(),
            forall|i: int| at <= i < final(self)@.len() ==> final(self)@[i] == old(self)@[i + 1],
            final(self).lines() == Self::lines_joined(old(self).lines(), at as int),
            old(self).wf() ==> final(self).wf(),
            final(self).filename == old(self).filename,
    {
        let mut removed = self.contents.remove(at);
        let pushed_on = self.get_row_mut(at - 1);
        pushed_on.row_content.append(&mut removed.row_content);
        EditorRows::render_row(pushed_on);
        assert(self.lines() =~= Self::lines_joined(old(self).lines(), at as int));
    }

    /// Puts an empty row at index `at`, which may be the number of rows but
    /// no more.
    pub fn insert_row_at(&mut self, at: usize)
        requires
            at <= old(self)@.len(),
        ensures
            final(self)@.len() == old(self)@.len() + 1,
            forall|i: int| 0 <= i < at ==> final(self)@[i] == old(self)@[i],
            final(self)@[at as int]@ == Seq::<char>::empty(),
            final(self)@[at as int].wf(),
            forall|i: int| at < i < final(self)@.len() ==> final(self)@[i] == old(self)@[i - 1],
            final(self).lines() == old(self).lines().insert(at as int, Seq::empty()),
            old(self).wf() ==> final(self).wf(),
            final(self).filename == old(self).filename,
    {
        self.contents.insert(at, Row::default());
        assert(self.lines() =~= old(self).lines().insert(at as int, Seq::empty()));
    }

    /// What saving the document writes: every line followed by a line feed,
    /// under the document's file name. Fails if and only if the document has
    /// no file name.
    pub fn save(&self) -> (res: Result<FileImage, SaveError>)
        ensures
            match res {
                Ok(image) => {
                    &&& self.filename == Some(image.filename)
                    &&& image.content@ == serialized(self.lines())
                    &&& image.len == encode_utf8(image.content@).len()
                },
                Err(e) => e == SaveError::MissingFilename && self.filename is None,
            },
    {
        match &self.filename {
            None => Err(SaveError::MissingFilename),
            Some(name) => {
                let mut content = String::new();
                let n = self.contents.len();
                let mut i: usize = 0;
                while i < n
                    invariant
                        i <= n,
                        n == self@.len(),
                        content@ == serialized(self.lines().take(i as int)),
                    decreases n - i,
                {
                    let row = &self.contents[i];
                    let ghost before = content@;
                    let mut k: usize = 0;
                    while k < row.row_content.len()
                        invariant
                            k <= row@.len(),
                            content@ == before + row@.take(k as int),
                        decreases row@.len() - k,
                    {
                        content.push(row.row_content[k]);
                        k += 1;
                        assert(row@.take(k as int) =~= row@.take(k - 1).push(row@[k - 1]));
                    }
                    content.push('\n');
                    proof {
                        let done = self.lines().take(i + 1);
                        assert(done.drop_last() =~= self.lines().take(i as int));
                        assert(done.last() == row@);
                        assert(row@.take(row@.len() as int) =~= row@);
                        assert(content@ =~= serialized(done));
                    }
                    i += 1;
                }
                assert(self.lines().take(n as int) =~= self.lines());
                let len = content.as_str().as_bytes().len();
                Ok(FileImage { filename: name.clone(), content, len })
            },
        }
    }

    /// Derives `row.render` from `row.row_content`.
    pub fn render_row(row: &mut Row)
        ensures
            final(row).row_content == old(row).row_content,
            final(row).wf(),
    {
        row.render = expanded(&row.row_content);
    }
}

} // verus!
