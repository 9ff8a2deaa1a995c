//! A document: its lines, its cursor, its scroll offset, and the edits on them.
//!
//! Columns count characters (for ASCII text, bytes).
use vstd::prelude::*;

use crate::common::{Key, MouseButton, MouseEvent, Position, Size, Task};
use crate::config::Config;
use crate::style::{green_code, green_fg, reset, reset_code};
use crate::text::{
    blanks, char_count, decimal, decimal_len, insert_at, lemma_decimal_len_monotone, push_char,
    remove_at, spaces, substring, to_decimal,
};

verus! {

/// What a document waits for when it has asked for a line of input.
#[derive(Clone, Copy, Debug, PartialEq, Eq, Structural)]
pub enum TaskPending {
    /// The answer is the path to save to.
    SaveFile,
    /// Nothing was asked.
    Nothing,
    /// The answer is the path of a file to open.
    OpenDoc,
}

/// A text document shown in one tab.
pub struct Doc {
    /// The lines, without their line breaks; never empty.
    pub lines: Vec<String>,
    pub cursor_pos: Position,
    /// The top left cell of the visible part.
    pub offset: Position,
    /// Where the document is saved; `None` while untitled.
    pub file_path: Option<String>,
    pub task_pending: TaskPending,
    /// The last message for the user about this document.
    pub command_status: String,
}

/// The characters of each line.
pub open spec fn text_of(lines: Seq<String>) -> Seq<Seq<char>> {
    lines.map_values(|l: String| l@)
}

pub open spec fn has_no_break(line: Seq<char>) -> bool {
    forall|j: int| 0 <= j < line.len() ==> line[j] != '\n'
}

/// At least one line, and no line holds a line break.
pub open spec fn valid_text(t: Seq<Seq<char>>) -> bool {
    &&& t.len() > 0
    &&& forall|i: int| 0 <= i < t.len() ==> has_no_break(#[trigger] t[i])
}

/// `p` names a line of `t` and a column up to that line's end.
pub open spec fn valid_pos(t: Seq<Seq<char>>, p: Position) -> bool {
    &&& p.row < t.len()
    &&& p.col <= t[p.row as int].len()
}

/// One column left, or the end of the line above.
pub open spec fn left_of(t: Seq<Seq<char>>, p: Position) -> Position {
    if p.col > 0 {
        Position { row: p.row, col: (p.col - 1) as usize }
    } else if p.row > 0 {
        Position { row: (p.row - 1) as usize, col: t[p.row - 1].len() as usize }
    } else {
        p
    }
}

/// One column right, or the start of the line below.
pub open spec fn right_of(t: Seq<Seq<char>>, p: Position) -> Position {
    if p.col < t[p.row as int].len() {
        Position { row: p.row, col: (p.col + 1) as usize }
    } else if p.row + 1 < t.len() {
        Position { row: (p.row + 1) as usize, col: 0 }
    } else {
        p
    }
}

/// The column kept on the line `row`, cut to its length.
pub open spec fn col_on(t: Seq<Seq<char>>, row: int, col: usize) -> usize {
    if t[row].len() <= col {
        t[row].len() as usize
    } else {
        col
    }
}

/// One line up.
pub open spec fn up_of(t: Seq<Seq<char>>, p: Position) -> Position {
    if p.row > 0 {
        Position { row: (p.row - 1) as usize, col: col_on(t, p.row - 1, p.col) }
    } else {
        p
    }
}

/// One line down.
pub open spec fn down_of(t: Seq<Seq<char>>, p: Position) -> Position {
    if p.row + 1 < t.len() {
        Position { row: (p.row + 1) as usize, col: col_on(t, p.row + 1, p.col) }
    } else {
        p
    }
}

/// The lines after typing `ch` at `p`: a line break splits the line in two.
pub open spec fn text_after_insert(t: Seq<Seq<char>>, p: Position, ch: char) -> Seq<Seq<char>> {
    let line = t[p.row as int];
    if ch == '\n' {
        t.take(p.row as int).push(line.take(p.col as int)).push(line.skip(p.col as int)) + t.skip(
            p.row + 1,
        )
    } else {
        t.update(p.row as int, line.insert(p.col as int, ch))
    }
}

/// The cursor after typing `ch` at `p`.
pub open spec fn cursor_after_insert(p: Position, ch: char) -> Position {
    if ch == '\n' {
        Position { row: (p.row + 1) as usize, col: 0 }
    } else {
        Position { row: p.row, col: (p.col + 1) as usize }
    }
}

/// The lines after a backspace at `p`: at a line's start it joins the line to the one above.
pub open spec fn text_after_backspace(t: Seq<Seq<char>>, p: Position) -> Seq<Seq<char>> {
    if p.col == 0 {
        if p.row > 0 {
            t.take(p.row - 1).push(t[p.row - 1] + t[p.row as int]) + t.skip(p.row + 1)
        } else {
            t
        }
    } else {
        t.update(p.row as int, t[p.row as int].remove(p.col - 1))
    }
}

/// The cursor after a backspace at `p`.
pub open spec fn cursor_after_backspace(t: Seq<Seq<char>>, p: Position) -> Position {
    if p.col == 0 {
        if p.row > 0 {
            Position { row: (p.row - 1) as usize, col: t[p.row - 1].len() as usize }
        } else {
            p
        }
    } else {
        Position { row: p.row, col: (p.col - 1) as usize }
    }
}

/// The viewport rule along one axis: `off` is the first visible index, `span` how many are
/// visible, `cur` the cursor. A cursor past the last visible index moves the viewport by
/// exactly the overflow; a cursor before the first makes it the first.
pub open spec fn scrolled(off: int, cur: int, span: int) -> int {
    let last = off + span - 1;
    let advanced = if last < cur {
        off + (cur - last)
    } else {
        off
    };
    if cur < advanced {
        cur
    } else {
        advanced
    }
}

/// At most `len` characters of `line`, from index `start` on.
pub open spec fn clip(line: Seq<char>, start: int, len: nat) -> Seq<char> {
    if start >= line.len() {
        Seq::empty()
    } else if start + len >= line.len() {
        line.skip(start)
    } else {
        line.subrange(start, start + len)
    }
}

/// The pieces of `s` between its `'\n'` characters.
pub open spec fn split_newline(s: Seq<char>) -> Seq<Seq<char>>
    decreases s.len(),
{
    if s.len() == 0 {
        seq![Seq::empty()]
    } else {
        let r = split_newline(s.drop_last());
        if s.last() == '\n' {
            r.push(Seq::empty())
        } else {
            r.update(r.len() - 1, r.last().push(s.last()))
        }
    }
}

/// `piece` without one `'\r'` at its end.
pub open spec fn strip_cr(piece: Seq<char>) -> Seq<char> {
    if piece.len() > 0 && piece.last() == '\r' {
        piece.drop_last()
    } else {
        piece
    }
}

/// The lines of a file's contents: split at `"\n"` and at `"\r\n"`.
pub open spec fn split_lines(s: Seq<char>) -> Seq<Seq<char>> {
    let p = split_newline(s);
    Seq::new(
        p.len(),
        |i: int|
            if i < p.len() - 1 {
                strip_cr(p[i])
            } else {
                p[i]
            },
    )
}

/// The file contents of the lines `t`: each line followed by `'\n'`.
pub open spec fn content_of(t: Seq<Seq<char>>) -> Seq<char>
    decreases t.len(),
{
    if t.len() == 0 {
        Seq::empty()
    } else {
        content_of(t.drop_last()) + t.last() + seq!['\n']
    }
}

/// No piece of a split holds a line break, and there is at least one.
pub proof fn lemma_split_newline_valid(s: Seq<char>)
    ensures
        valid_text(split_newline(s)),
    decreases s.len(),
{
    if s.len() > 0 {
        lemma_split_newline_valid(s.drop_last());
        let r = split_newline(s.drop_last());
        let p = split_newline(s);
        if s.last() != '\n' {
            assert forall|i: int| 0 <= i < p.len() implies has_no_break(#[trigger] p[i]) by {
                assert(has_no_break(r[i]));
                if i == r.len() - 1 {
                    assert forall|j: int| 0 <= j < p[i].len() implies p[i][j] != '\n' by {
                        if j < r[i].len() {
                            assert(p[i][j] == r[i][j]);
                        }
                    }
                }
            }
        } else {
            assert forall|i: int| 0 <= i < p.len() implies has_no_break(#[trigger] p[i]) by {
                if i < r.len() {
                    assert(has_no_break(r[i]));
                }
            }
        }
    }
}

/// The lines of any contents form a valid document text.
pub proof fn lemma_split_lines_valid(s: Seq<char>)
    ensures
        valid_text(split_lines(s)),
{
    lemma_split_newline_valid(s);
    let p = split_newline(s);
    let t = split_lines(s);
    assert forall|i: int| 0 <= i < t.len() implies has_no_break(#[trigger] t[i]) by {
        assert(has_no_break(p[i]));
    }
}

/// The last component of a path, where it has one.
pub uninterp spec fn file_name_of(path: Seq<char>) -> Option<Seq<char>>;

/// Relies on `std::path::Path::file_name` and `OsStr::to_str`: the final component of
/// `path`, or `None` where the path has none (it ends in `..`, or is a root).
#[verifier::external_body]
fn path_file_name(path: &str) -> (r: Option<String>)
    ensures
        r matches Some(n) ==> file_name_of(path@) == Some(n@),
        r is None ==> file_name_of(path@) is None,
{
    match std::path::Path::new(path).file_name() {
        Some(name) => match name.to_str() {
            Some(name) => Some(name.to_string()),
            None => None,
        },
        None => None,
    }
}

/// What a key does to a document `d` that has the focus: `new` is the document after it,
/// `t` the task it returns.
pub open spec fn key_step(d: Doc, key: Key, new: Doc, t: Task) -> bool {
    match key {
        Key::Left => new == d.with_cursor(left_of(d.text(), d.cursor_pos)) && t == Task::Nothing,
        Key::Right => new == d.with_cursor(right_of(d.text(), d.cursor_pos)) && t == Task::Nothing,
        Key::Up => new == d.with_cursor(up_of(d.text(), d.cursor_pos)) && t == Task::Nothing,
        Key::Down => new == d.with_cursor(down_of(d.text(), d.cursor_pos)) && t == Task::Nothing,
        Key::Char(ch) => {
            &&& new.text() == text_after_insert(d.text(), d.cursor_pos, ch)
            &&& new.cursor_pos == cursor_after_insert(d.cursor_pos, ch)
            &&& new.same_but_text(d)
            &&& t == Task::Nothing
        },
        Key::Backspace => {
            &&& new.text() == text_after_backspace(d.text(), d.cursor_pos)
            &&& new.cursor_pos == cursor_after_backspace(d.text(), d.cursor_pos)
            &&& new.same_but_text(d)
            &&& t == Task::Nothing
        },
        Key::Ctrl('s') => match d.file_path {
            Some(p) => new == d && t == Task::SaveFile(p),
            None => {
                &&& new == (Doc { task_pending: TaskPending::SaveFile, ..d })
                &&& t matches Task::AskInput(q) && q@ == "File path"@
            },
        },
        Key::Ctrl('o') => {
            &&& new == (Doc { task_pending: TaskPending::OpenDoc, ..d })
            &&& t matches Task::AskInput(q) && q@ == "Doc path"@
        },
        Key::Ctrl('n') => new == d && t == Task::NewDoc,
        Key::Ctrl('k') => new == d && t == Task::PrevTab,
        Key::Ctrl('l') => new == d && t == Task::NextTab,
        Key::Ctrl('w') => new == d && t == Task::CloseCurrentTab,
        _ => new == d && t == Task::Nothing,
    }
}

/// What the answer `input` to its question does to a document `d`: a path to save to
/// becomes the document's path and a save of it is asked for; a path to open is passed on.
pub open spec fn command_input_step(d: Doc, input: Seq<char>, new: Doc, t: Task) -> bool {
    match d.task_pending {
        TaskPending::SaveFile => {
            &&& new.file_path matches Some(p) && p@ == input
            &&& new == (Doc { file_path: new.file_path, task_pending: TaskPending::Nothing, ..d })
            &&& t matches Task::SaveFile(q) && Some(q) == new.file_path
        },
        TaskPending::OpenDoc => {
            &&& new == (Doc { task_pending: TaskPending::Nothing, ..d })
            &&& t matches Task::OpenDoc(q) && q@ == input
        },
        TaskPending::Nothing => false,
    }
}

fn scroll_axis(off: usize, cur: usize, span: usize) -> (r: usize)
    ensures
        r == scrolled(off as int, cur as int, span as int),
{
    let mut o = off;
    if span <= cur && off <= cur - span {
        if span == 0 {
            o = cur;
        } else {
            o = cur - (span - 1);
        }
    }
    if cur < o {
        o = cur;
    }
    o
}

impl Doc {
    pub open spec fn text(&self) -> Seq<Seq<char>> {
        text_of(self.lines@)
    }

    /// The lines are valid and the cursor lies within them.
    pub open spec fn wf(&self) -> bool {
        &&& valid_text(self.text())
        &&& valid_pos(self.text(), self.cursor_pos)
    }

    /// This document with the cursor at `p`.
    pub open spec fn with_cursor(self, p: Position) -> Doc {
        Doc { cursor_pos: p, ..self }
    }

    /// All but the lines and the cursor are those of `other`.
    pub open spec fn same_but_text(self, other: Doc) -> bool {
        &&& self.offset == other.offset
        &&& self.file_path == other.file_path
        &&& self.task_pending == other.task_pending
        &&& self.command_status == other.command_status
    }

    /// Width of the line number column.
    pub open spec fn gutter_width(&self) -> nat {
        decimal(self.lines@.len()).len()
    }

    /// Columns left for text once the line numbers and their padding are drawn.
    pub open spec fn content_width(&self, size: Size, config: Config) -> nat {
        let w = size.width - self.gutter_width() - config.general.line_number_padding_right;
        if w > 0 {
            w as nat
        } else {
            0
        }
    }

    /// Lines shown by a render: as many as fit, from the current first visible line on.
    pub open spec fn rows_to_render(&self, size: Size) -> nat {
        let avail = if self.offset.row <= self.lines@.len() {
            (self.lines@.len() - self.offset.row) as nat
        } else {
            0
        };
        if size.height < avail {
            size.height as nat
        } else {
            avail
        }
    }

    /// The offset that keeps the cursor inside `nrows` lines of `ncols` columns.
    pub open spec fn scrolled_offset(&self, nrows: nat, ncols: nat) -> Position {
        Position {
            row: scrolled(self.offset.row as int, self.cursor_pos.row as int, nrows as int) as usize,
            col: scrolled(self.offset.col as int, self.cursor_pos.col as int, ncols as int) as usize,
        }
    }

    /// The document once a render has moved its viewport.
    pub open spec fn after_render(self, size: Size, config: Config) -> Doc {
        Doc {
            offset: self.scrolled_offset(self.rows_to_render(size), self.content_width(size, config)),
            ..self
        }
    }

    /// The screen row of line `i`: the right-aligned green line number, the padding, and the
    /// visible part of the line.
    pub open spec fn line_row(&self, i: int, config: Config, width: nat) -> Seq<char> {
        let number = decimal((i + 1) as nat);
        blanks((self.gutter_width() - number.len()) as nat) + green_code() + number + reset_code()
            + blanks(config.general.line_number_padding_right as nat) + clip(
            self.text()[i],
            self.offset.col as int,
            width,
        )
    }

    /// The rows that a render returns.
    pub open spec fn render_rows(self, size: Size, config: Config) -> Seq<Seq<char>> {
        let d = self.after_render(size, config);
        Seq::new(
            self.rows_to_render(size),
            |k: int| d.line_row(d.offset.row + k, config, self.content_width(size, config)),
        )
    }

    /// The name on the document's tab.
    pub open spec fn title(&self) -> Seq<char> {
        match self.file_path {
            Some(p) => match file_name_of(p@) {
                Some(n) => n,
                None => p@,
            },
            None => "[No name]"@,
        }
    }

    /// An untitled document with one empty line, the cursor and the viewport at the top.
    pub open spec fn is_fresh(&self) -> bool {
        &&& self.text() == seq![Seq::<char>::empty()]
        &&& self.cursor_pos == (Position { row: 0, col: 0 })
        &&& self.offset == (Position { row: 0, col: 0 })
        &&& self.file_path is None
        &&& self.task_pending == TaskPending::Nothing
        &&& self.command_status@ == "Untitled file"@
    }

    /// An untitled document with one empty line.
    pub fn new() -> (d: Self)
        ensures
            d.wf(),
            d.is_fresh(),
    {
        let lines = vec![String::new()];
        let d = Self {
            lines,
            cursor_pos: Position { row: 0, col: 0 },
            offset: Position { row: 0, col: 0 },
            file_path: None,
            task_pending: TaskPending::Nothing,
            command_status: String::from_str("Untitled file"),
        };
        assert(d.text() =~= seq![Seq::<char>::empty()]);
        d
    }

    /// Width of the line number column: the digits of the number of lines.
    pub fn get_line_number_length(&self) -> (n: usize)
        ensures
            n == decimal(self.lines@.len()).len(),
    {
        decimal_len(self.lines.len())
    }

    pub fn can_close(&self) -> (b: bool)
        ensures
            b,
    {
        true
    }

    pub fn col_left(&mut self)
        requires
            old(self).wf(),
        ensures
            *final(self) == old(self).with_cursor(left_of(old(self).text(), old(self).cursor_pos)),
            final(self).wf(),
    {
        if self.cursor_pos.col > 0 {
            self.cursor_pos.col = self.cursor_pos.col - 1;
        } else if self.cursor_pos.row > 0 {
            self.cursor_pos.row = self.cursor_pos.row - 1;
            self.cursor_pos.col = char_count(&self.lines[self.cursor_pos.row]);
        }
    }

    pub fn col_right(&mut self)
        requires
            old(self).wf(),
        ensures
            *final(self) == old(self).with_cursor(right_of(old(self).text(), old(self).cursor_pos)),
            final(self).wf(),
    {
        let len = char_count(&self.lines[self.cursor_pos.row]);
        if self.cursor_pos.col < len {
            self.cursor_pos.col = self.cursor_pos.col + 1;
        } else if self.cursor_pos.row < self.lines.len() - 1 {
            self.cursor_pos.row = self.cursor_pos.row + 1;
            self.cursor_pos.col = 0;
        }
    }

    pub fn row_up(&mut self)
        requires
            old(self).wf(),
        ensures
            *final(self) == old(self).with_cursor(up_of(old(self).text(), old(self).cursor_pos)),
            final(self).wf(),
    {
        if self.cursor_pos.row > 0 {
            self.cursor_pos.row = self.cursor_pos.row - 1;
            let len = char_count(&self.lines[self.cursor_pos.row]);
            if len <= self.cursor_pos.col {
                self.cursor_pos.col = len;
            }
        }
    }

    pub fn row_down(&mut self)
        requires
            old(self).wf(),
        ensures
            *final(self) == old(self).with_cursor(down_of(old(self).text(), old(self).cursor_pos)),
            final(self).wf(),
    {
        if self.cursor_pos.row < self.lines.len() - 1 {
            self.cursor_pos.row = self.cursor_pos.row + 1;
            let len = char_count(&self.lines[self.cursor_pos.row]);
            if len <= self.cursor_pos.col {
                self.cursor_pos.col = len;
            }
        }
    }

    /// Types `ch` at the cursor. A line break splits the line at the cursor and moves the
    /// cursor to the start of the new line; another character is inserted and the cursor
    /// moves past it.
    pub fn write_char(&mut self, ch: char) -> (t: Task)
        requires
            old(self).wf(),
        ensures
            final(self).wf(),
            final(self).text() == text_after_insert(old(self).text(), old(self).cursor_pos, ch),
            final(self).cursor_pos == cursor_after_insert(old(self).cursor_pos, ch),
            final(self).same_but_text(*old(self)),
            t == Task::Nothing,
    {
        let ghost t0 = self.text();
        let row = self.cursor_pos.row;
        let col = self.cursor_pos.col;
        if ch == '\n' {
            // The line count is a usize, so the index of the new line fits one.
            let line_count = self.lines.len();
            assert(row < line_count);
            let line = self.lines.remove(row);
            let n = char_count(&line);
            let head = substring(&line, 0, col);
            let tail = substring(&line, col, n);
            self.lines.insert(row, head);
            self.lines.insert(row + 1, tail);
            self.cursor_pos = Position { row: row + 1, col: 0 };
            proof {
                let t1 = text_after_insert(t0, Position { row, col }, ch);
                assert(self.text() =~= t1);
                assert forall|i: int| 0 <= i < t1.len() implies has_no_break(#[trigger] t1[i]) by {
                    if i == row || i == row + 1 {
                        assert(has_no_break(t0[row as int]));
                    } else if i < row {
                        assert(t1[i] == t0[i]);
                    } else {
                        assert(t1[i] == t0[i - 1]);
                    }
                }
            }
        } else {
            let new_line = insert_at(&self.lines[row], col, ch);
            let len = char_count(&new_line);
            self.lines.set(row, new_line);
            proof {
                let t1 = text_after_insert(t0, Position { row, col }, ch);
                assert(self.text() =~= t1);
                assert forall|i: int| 0 <= i < t1.len() implies has_no_break(#[trigger] t1[i]) by {
                    if i == row {
                        assert(has_no_break(t0[row as int]));
                        assert forall|j: int| 0 <= j < t1[i].len() implies t1[i][j] != '\n' by {
                            if j < col {
                                assert(t1[i][j] == t0[i][j]);
                            } else if j > col {
                                assert(t1[i][j] == t0[i][j - 1]);
                            }
                        }
                    } else {
                        assert(t1[i] == t0[i]);
                    }
                }
            }
            self.col_right();
        }
        Task::Nothing
    }

    /// Deletes the character before the cursor; at the start of a line, joins the line to
    /// the one above and leaves the cursor where they meet.
    pub fn handle_backspace(&mut self) -> (t: Task)
        requires
            old(self).wf(),
        ensures
            final(self).wf(),
            final(self).text() == text_after_backspace(old(self).text(), old(self).cursor_pos),
            final(self).cursor_pos == cursor_after_backspace(old(self).text(), old(self).cursor_pos),
            final(self).same_but_text(*old(self)),
            t == Task::Nothing,
    {
        let ghost t0 = self.text();
        let row = self.cursor_pos.row;
        let col = self.cursor_pos.col;
        if col == 0 {
            if row > 0 {
                let new_col = char_count(&self.lines[row - 1]);
                let cur = self.lines.remove(row);
                let mut prev = self.lines[row - 1].clone();
                prev.append(cur.as_str());
                self.lines.set(row - 1, prev);
                self.cursor_pos = Position { row: row - 1, col: new_col };
                proof {
                    let t1 = text_after_backspace(t0, Position { row, col });
                    assert(self.text() =~= t1);
                    assert forall|i: int| 0 <= i < t1.len() implies has_no_break(
                        #[trigger] t1[i],
                    ) by {
                        if i == row - 1 {
                            assert(has_no_break(t0[row - 1]));
                            assert(has_no_break(t0[row as int]));
                            assert forall|j: int| 0 <= j < t1[i].len() implies t1[i][j] != '\n' by {
                                if j >= t0[row - 1].len() {
                                    assert(t1[i][j] == t0[row as int][j - t0[row - 1].len()]);
                                }
                            }
                        } else if i < row - 1 {
                            assert(t1[i] == t0[i]);
                        } else {
                            assert(t1[i] == t0[i + 1]);
                        }
                    }
                }
            }
        } else {
            self.col_left();
            let new_line = remove_at(&self.lines[row], col - 1);
            self.lines.set(row, new_line);
            proof {
                let t1 = text_after_backspace(t0, Position { row, col });
                assert(self.text() =~= t1);
                assert forall|i: int| 0 <= i < t1.len() implies has_no_break(#[trigger] t1[i]) by {
                    assert(has_no_break(t0[i]));
                    if i == row {
                        assert forall|j: int| 0 <= j < t1[i].len() implies t1[i][j] != '\n' by {
                            if j >= col - 1 {
                                assert(t1[i][j] == t0[i][j + 1]);
                            }
                        }
                    } else {
                        assert(t1[i] == t0[i]);
                    }
                }
            }
        }
        Task::Nothing
    }

    /// Moves the viewport so that the cursor lies within `render_nrows` lines and
    /// `render_ncols` columns of it.
    pub fn update_offset(&mut self, render_nrows: usize, render_ncols: usize)
        requires
            old(self).wf(),
        ensures
            *final(self) == (Doc {
                offset: old(self).scrolled_offset(render_nrows as nat, render_ncols as nat),
                ..*old(self)
            }),
            final(self).wf(),
    {
        self.offset.row = scroll_axis(self.offset.row, self.cursor_pos.row, render_nrows);
        self.offset.col = scroll_axis(self.offset.col, self.cursor_pos.col, render_ncols);
    }

    /// At most `len` characters of `line`, from index `start` on.
    pub fn sub_string(line: &str, start: usize, len: usize) -> (r: String)
        ensures
            r@ == clip(line@, start as int, len as nat),
    {
        let n = line.unicode_len();
        if start >= n {
            String::new()
        } else if len >= n - start {
            String::from_str(line.substring_char(start, n))
        } else {
            String::from_str(line.substring_char(start, start + len))
        }
    }

    /// Moves the viewport to keep the cursor visible, then draws the visible lines.
    pub fn render(&mut self, size: &Size, config: &Config) -> (rows: Vec<String>)
        requires
            old(self).wf(),
        ensures
            *final(self) == old(self).after_render(*size, *config),
            final(self).wf(),
            final(self).offset.row <= final(self).cursor_pos.row,
            final(self).offset.col <= final(self).cursor_pos.col,
            text_of(rows@) == old(self).render_rows(*size, *config),
    {
        let ghost d0 = *self;
        let line_number_width = self.get_line_number_length();
        let pad = config.general.line_number_padding_right;
        let content_width = size.width.saturating_sub(line_number_width).saturating_sub(pad);
        let n = self.lines.len();
        let avail = n.saturating_sub(self.offset.row);
        let rows_to_render = if size.height < avail {
            size.height
        } else {
            avail
        };
        self.update_offset(rows_to_render, content_width);
        let first = self.offset.row;
        let mut frames: Vec<String> = Vec::new();
        let mut k: usize = 0;
        while k < rows_to_render
            invariant
                *self == d0.after_render(*size, *config),
                self.wf(),
                n == self.lines@.len(),
                line_number_width == self.gutter_width(),
                pad == config.general.line_number_padding_right,
                content_width == d0.content_width(*size, *config),
                rows_to_render == d0.rows_to_render(*size),
                first == self.offset.row,
                first + rows_to_render <= n,
                k <= rows_to_render,
                frames@.len() == k,
                forall|j: int|
                    0 <= j < k ==> (#[trigger] frames@[j])@ == self.line_row(
                        first + j,
                        *config,
                        content_width as nat,
                    ),
            decreases rows_to_render - k,
        {
            let i = first + k;
            let number = to_decimal(i + 1);
            proof {
                lemma_decimal_len_monotone((i + 1) as nat, n as nat);
            }
            let mut row = spaces(line_number_width - decimal_len(i + 1));
            let green = green_fg();
            row.append(green.as_str());
            row.append(number.as_str());
            let plain = reset();
            row.append(plain.as_str());
            let padding = spaces(pad);
            row.append(padding.as_str());
            let sub_line = Self::sub_string(self.lines[i].as_str(), self.offset.col, content_width);
            row.append(sub_line.as_str());
            assert(row@ =~= self.line_row(i as int, *config, content_width as nat));
            frames.push(row);
            k = k + 1;
        }
        assert(text_of(frames@) =~= d0.render_rows(*size, *config));
        frames
    }

    /// Splits file contents into lines, at `"\n"` and at `"\r\n"`.
    pub fn split_file(contents: &str) -> (r: Vec<String>)
        ensures
            text_of(r@) == split_lines(contents@),
    {
        let ghost s = contents@;
        let mut lines: Vec<String> = Vec::new();
        let mut cur = String::new();
        // A '\r' read last, not yet known to belong to a line break.
        let mut held_cr = false;
        for c in it: contents.chars()
            invariant
                it.seq() == s,
                ({
                    let p = split_newline(s.take(it.index() as int));
                    &&& lines@.len() == p.len() - 1
                    &&& forall|j: int|
                        0 <= j < lines@.len() ==> (#[trigger] lines@[j])@ == strip_cr(p[j])
                    &&& p.last() == if held_cr {
                        cur@.push('\r')
                    } else {
                        cur@
                    }
                    &&& !held_cr ==> cur@.len() == 0 || cur@.last() != '\r'
                }),
        {
            let ghost k = it.index() as int;
            let ghost p0 = split_newline(s.take(k));
            assert(s.take(k + 1).drop_last() =~= s.take(k));
            assert(s.take(k + 1).last() == c);
            if c == '\n' {
                lines.push(cur);
                cur = String::new();
                held_cr = false;
                proof {
                    let p1 = split_newline(s.take(k + 1));
                    assert(p1 == p0.push(Seq::empty()));
                    assert forall|j: int| 0 <= j < lines@.len() implies (#[trigger] lines@[j])@
                        == strip_cr(p1[j]) by {
                        if j == lines@.len() - 1 {
                            if p0.last().len() > 0 && p0.last().last() == '\r' {
                                assert(p0.last().drop_last() =~= lines@[j]@);
                            }
                        }
                    }
                }
            } else if c == '\r' {
                if held_cr {
                    push_char(&mut cur, '\r');
                }
                held_cr = true;
            } else {
                if held_cr {
                    push_char(&mut cur, '\r');
                }
                push_char(&mut cur, c);
                held_cr = false;
            }
        }
        if held_cr {
            push_char(&mut cur, '\r');
        }
        lines.push(cur);
        proof {
            assert(s.take(s.len() as int) =~= s);
            assert(text_of(lines@) =~= split_lines(s));
        }
        lines
    }

    /// A document read from a file: `contents` is what the file at `path` holds, `None`
    /// where it could not be read. The cursor and the viewport start at the top.
    pub fn open(path: String, contents: Option<String>) -> (r: Option<Doc>)
        ensures
            contents.is_none() ==> r.is_none(),
            contents matches Some(c) ==> r matches Some(d) && {
                &&& d.wf()
                &&& d.text() == split_lines(c@)
                &&& d.cursor_pos == (Position { row: 0, col: 0 })
                &&& d.offset == (Position { row: 0, col: 0 })
                &&& d.file_path == Some(path)
                &&& d.task_pending == TaskPending::Nothing
                &&& d.command_status@ == "File loaded successfully"@
            },
    {
        match contents {
            Some(c) => {
                let lines = Self::split_file(c.as_str());
                proof {
                    lemma_split_lines_valid(c@);
                }
                Some(
                    Self {
                        lines,
                        cursor_pos: Position { row: 0, col: 0 },
                        offset: Position { row: 0, col: 0 },
                        file_path: Some(path),
                        task_pending: TaskPending::Nothing,
                        command_status: String::from_str("File loaded successfully"),
                    },
                )
            },
            None => None,
        }
    }

    /// What a save writes: every line followed by `'\n'`.
    pub fn get_doc_content(&self) -> (content: String)
        ensures
            content@ == content_of(self.text()),
    {
        let mut content = String::new();
        let mut i: usize = 0;
        while i < self.lines.len()
            invariant
                i <= self.lines@.len(),
                content@ == content_of(self.text().take(i as int)),
            decreases self.lines@.len() - i,
        {
            content.append(self.lines[i].as_str());
            push_char(&mut content, '\n');
            proof {
                let t = self.text().take(i + 1);
                assert(t.drop_last() =~= self.text().take(i as int));
            }
            i = i + 1;
        }
        assert(self.text().take(i as int) =~= self.text());
        content
    }

    pub fn set_file_path(&mut self, path: String)
        ensures
            *final(self) == (Doc { file_path: Some(path), ..*old(self) }),
    {
        self.file_path = Some(path);
    }

    pub fn set_command_status(&mut self, status: String)
        ensures
            *final(self) == (Doc { command_status: status, ..*old(self) }),
    {
        self.command_status = status;
    }

    /// The name shown on the document's tab: the file name of its path, the whole path
    /// where it has no file name, or `[No name]` while untitled.
    pub fn get_title(&self) -> (title: String)
        ensures
            title@ == self.title(),
    {
        match &self.file_path {
            Some(path) => match path_file_name(path.as_str()) {
                Some(name) => name,
                None => path.clone(),
            },
            None => String::from_str("[No name]"),
        }
    }

    /// Asks for a save: with a path, the editor is told to write the document there;
    /// without one, the document waits for a path and the editor is told to ask for it.
    pub fn process_save_file(&mut self) -> (t: Task)
        ensures
            old(self).file_path matches Some(p) ==> *final(self) == *old(self) && t
                == Task::SaveFile(p),
            old(self).file_path is None ==> *final(self) == (Doc {
                task_pending: TaskPending::SaveFile,
                ..*old(self)
            }) && (t matches Task::AskInput(q) && q@ == "File path"@),
    {
        match &self.file_path {
            Some(file_path) => Task::SaveFile(file_path.clone()),
            None => {
                self.task_pending = TaskPending::SaveFile;
                Task::AskInput(String::from_str("File path"))
            },
        }
    }

    /// Records how a write to `path` ended: the status tells the user, and a successful
    /// save is also announced on the input line.
    pub fn finish_save(&mut self, path: &str, outcome: Result<(), String>) -> (t: Task)
        ensures
            final(self).lines == old(self).lines,
            final(self).cursor_pos == old(self).cursor_pos,
            final(self).offset == old(self).offset,
            final(self).file_path == old(self).file_path,
            final(self).task_pending == old(self).task_pending,
            outcome is Ok ==> final(self).command_status@ == "File saved: "@ + path@ && (t matches Task::SetCommand(m) && m@ == final(self).command_status@),
            outcome matches Err(e) ==> final(self).command_status@ == "Unable to save file: "@
                + e@ && t == Task::Nothing,
    {
        match outcome {
            Ok(()) => {
                let mut status = String::from_str("File saved: ");
                status.append(path);
                let message = status.clone();
                self.command_status = status;
                Task::SetCommand(message)
            },
            Err(e) => {
                let mut status = String::from_str("Unable to save file: ");
                status.append(e.as_str());
                self.command_status = status;
                Task::Nothing
            },
        }
    }

    /// Hands the document the line it asked for: a path to save to, or a path to open.
    pub fn process_command_input(&mut self, input: String) -> (t: Task)
        requires
            old(self).task_pending != TaskPending::Nothing,
        ensures
            command_input_step(*old(self), input@, *final(self), t),
    {
        let task = match self.task_pending {
            TaskPending::SaveFile => {
                self.file_path = Some(input);
                self.task_pending = TaskPending::Nothing;
                self.process_save_file()
            },
            TaskPending::OpenDoc => Task::OpenDoc(input),
            TaskPending::Nothing => Task::Nothing,
        };
        self.task_pending = TaskPending::Nothing;
        task
    }

    /// Scrolls with the mouse wheel; other mouse events change nothing.
    pub fn process_mouse_event(&mut self, mouse_event: &MouseEvent)
        requires
            old(self).wf(),
        ensures
            final(self).wf(),
            *final(self) == match *mouse_event {
                MouseEvent::Press(MouseButton::WheelUp) => old(self).with_cursor(
                    up_of(old(self).text(), old(self).cursor_pos),
                ),
                MouseEvent::Press(MouseButton::WheelDown) => old(self).with_cursor(
                    down_of(old(self).text(), old(self).cursor_pos),
                ),
                _ => *old(self),
            },
    {
        match mouse_event {
            MouseEvent::Press(MouseButton::WheelUp) => self.row_up(),
            MouseEvent::Press(MouseButton::WheelDown) => self.row_down(),
            _ => {},
        }
    }

    /// Handles a key while the document has the focus: arrows move the cursor, characters
    /// and Backspace edit, and Ctrl with s, n, o, k, l, w saves, opens a new document, asks
    /// for a file to open, and goes to the previous tab, the next tab, or closes the tab.
    pub fn process_key(&mut self, key: &Key) -> (t: Task)
        requires
            old(self).wf(),
        ensures
            final(self).wf(),
            key_step(*old(self), *key, *final(self), t),
    {
        match key {
            Key::Left => {
                self.col_left();
                Task::Nothing
            },
            Key::Right => {
                self.col_right();
                Task::Nothing
            },
            Key::Up => {
                self.row_up();
                Task::Nothing
            },
            Key::Down => {
                self.row_down();
                Task::Nothing
            },
            Key::Char(ch) => self.write_char(*ch),
            Key::Backspace => self.handle_backspace(),
            Key::Ctrl('s') => self.process_save_file(),
            Key::Ctrl('n') => Task::NewDoc,
            Key::Ctrl('o') => {
                self.task_pending = TaskPending::OpenDoc;
                Task::AskInput(String::from_str("Doc path"))
            },
            Key::Ctrl('k') => Task::PrevTab,
            Key::Ctrl('l') => Task::NextTab,
            Key::Ctrl('w') => Task::CloseCurrentTab,
            _ => Task::Nothing,
        }
    }

    /// After a render the viewport starts at or before the cursor.
    pub proof fn lemma_render_shows_cursor(self, size: Size, config: Config)
        requires
            self.wf(),
        ensures
            self.after_render(size, config).offset.row <= self.cursor_pos.row,
            self.after_render(size, config).offset.col <= self.cursor_pos.col,
    {
    }
}

} // verus!
