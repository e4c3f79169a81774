use vstd::prelude::*;

use crate::keys::{Key, Window};
use crate::navigation::ActionMenuWindow;
use crate::text::{char_count, join_lines, joined, lines_text, load_lines, push_char, split_lines};

verus! {

/// `v` brought into `lo..=hi`.
pub open spec fn clamp(v: int, lo: int, hi: int) -> int {
    if v < lo {
        lo
    } else if v > hi {
        hi
    } else {
        v
    }
}

/// `text` with line `row` cut in two at column `col`.
pub open spec fn split_line(text: Seq<Seq<char>>, row: int, col: int) -> Seq<Seq<char>> {
    let line = text[row];
    text.subrange(0, row) + seq![line.subrange(0, col), line.subrange(col, line.len() as int)]
        + text.subrange(row + 1, text.len() as int)
}

/// `text` with line `row` appended to line `row - 1` and removed.
pub open spec fn join_with_previous(text: Seq<Seq<char>>, row: int) -> Seq<Seq<char>> {
    text.subrange(0, row - 1) + seq![text[row - 1] + text[row]] + text.subrange(
        row + 1,
        text.len() as int,
    )
}

/// Rows of text that the editor pane shows.
pub const DISPLAY_ROWS: usize = 8;

/// The glyph that marks the cursor in the editor pane.
pub const CURSOR_MARKER: char = '\u{2588}';

/// `text` with `marker` put in at row `row`, column `col`.
pub open spec fn with_marker(text: Seq<Seq<char>>, row: int, col: int, marker: char) -> Seq<
    Seq<char>,
> {
    text.update(row, text[row].insert(col, marker))
}

/// What the editor pane shows of `text` with the cursor at (`row`, `col`):
/// the first rows, the cursor's marked, one line of the pane each.
pub open spec fn display_text(text: Seq<Seq<char>>, row: int, col: int) -> Seq<char> {
    let shown = if text.len() < DISPLAY_ROWS {
        text.len() as int
    } else {
        DISPLAY_ROWS as int
    };
    joined(with_marker(text, row, col, CURSOR_MARKER).take(shown))
}

/// Why a buffer could not be read or written.
#[derive(Debug)]
pub enum StorageError {
    /// The buffer has never been given a place to be saved.
    NoPath,
    /// The file could not be read.
    Unreadable(String),
    /// The file could not be written.
    WriteFailed(String),
}

/// What saving a buffer writes, and where.
#[derive(Debug)]
pub struct SaveRequest {
    pub path: String,
    pub contents: String,
}

/// One open file: its lines, a cursor and where it is stored.
///
/// Columns count characters, so a cursor never falls inside a multi-byte
/// character.
#[derive(Debug)]
pub struct FileWindow {
    pub name: String,
    pub path: Option<String>,
    pub cursor_x: usize,
    pub cursor_y: usize,
    pub selection_start_x: usize,
    pub selection_start_y: usize,
    pub selection_end_x: usize,
    pub selection_end_y: usize,
    pub selection_active: bool,
    pub lines: Vec<String>,
    pub scroll_offset: usize,
}

impl FileWindow {
    /// The content as a sequence of lines of characters.
    pub open spec fn text(&self) -> Seq<Seq<char>> {
        lines_text(self.lines@)
    }

    /// There is at least one line, and the cursor stands on a line, at most
    /// just past its last character.
    pub open spec fn wf(&self) -> bool {
        &&& self.lines@.len() > 0
        &&& self.cursor_y < self.lines@.len()
        &&& self.cursor_x <= self.lines@[self.cursor_y as int]@.len()
    }

    /// One empty line, the cursor at its start, no path, not scrolled and
    /// nothing selected: a buffer that nothing has been done to.
    pub open spec fn is_blank(&self) -> bool {
        &&& self.text() == seq![Seq::<char>::empty()]
        &&& self.cursor_y == 0
        &&& self.cursor_x == 0
        &&& self.path is None
        &&& self.scroll_offset == 0
        &&& !self.selection_active
    }

    /// An empty buffer called `name`: one empty line, never saved.
    pub fn new(name: &str) -> (w: FileWindow)
        ensures
            w.wf(),
            w.name@ == name@,
            w.is_blank(),
    {
        let lines = vec![String::new()];
        let w = FileWindow {
            name: String::from_str(name),
            path: None,
            cursor_x: 0,
            cursor_y: 0,
            selection_start_x: 0,
            selection_start_y: 0,
            selection_end_x: 0,
            selection_end_y: 0,
            selection_active: false,
            lines,
            scroll_offset: 0,
        };
        assert(w.text() =~= seq![Seq::<char>::empty()]);
        w
    }

    /// A buffer holding `contents`, the text read from the file at `path`,
    /// and called `name`; the cursor is at its start.
    pub fn open_file(path: String, name: String, contents: &str) -> (w: FileWindow)
        ensures
            w.wf(),
            w.name == name,
            w.path == Some(path),
            w.text() == load_lines(contents@),
            w.cursor_x == 0,
            w.cursor_y == 0,
            w.scroll_offset == 0,
            !w.selection_active,
    {
        let lines = split_lines(contents);
        assert(lines_text(lines@).len() == lines@.len());
        FileWindow {
            name,
            path: Some(path),
            cursor_x: 0,
            cursor_y: 0,
            selection_start_x: 0,
            selection_start_y: 0,
            selection_end_x: 0,
            selection_end_y: 0,
            selection_active: false,
            lines,
            scroll_offset: 0,
        }
    }

    /// What saving writes: the lines with a single `'\n'` between
    /// neighbours, to the buffer's path. Fails when it has none.
    pub fn save_file(&self) -> (r: Result<SaveRequest, StorageError>)
        ensures
            self.path is None <==> r is Err,
            r is Err ==> r->Err_0 is NoPath,
            r is Ok ==> {
                &&& r->Ok_0.path == self.path->Some_0
                &&& r->Ok_0.contents@ == joined(self.text())
            },
    {
        match &self.path {
            None => Err(StorageError::NoPath),
            Some(path) => Ok(SaveRequest { path: path.clone(), contents: join_lines(&self.lines) }),
        }
    }

    /// Gives the buffer the path `path` and the name `name`, then saves it
    /// there.
    pub fn save_as_file(&mut self, path: String, name: String) -> (r: Result<SaveRequest, StorageError>)
        requires
            old(self).wf(),
        ensures
            final(self).wf(),
            final(self).name == name,
            final(self).path == Some(path),
            final(self).lines == old(self).lines,
            final(self).cursor_x == old(self).cursor_x,
            final(self).cursor_y == old(self).cursor_y,
            r is Ok,
            r->Ok_0.path == path,
            r->Ok_0.contents@ == joined(old(self).text()),
    {
        self.name = name;
        self.path = Some(path);
        self.save_file()
    }

    /// The lines from `start` up to, not including, `end`, both taken no
    /// further than the last line.
    pub fn get_lines(&self, start: usize, end: usize) -> (r: &[String])
        ensures
            r@ == self.lines@.subrange(
                clamp(start as int, 0, clamp(end as int, 0, self.lines@.len() as int)),
                clamp(end as int, 0, self.lines@.len() as int),
            ),
    {
        let len = self.lines.len();
        let stop = if end < len {
            end
        } else {
            len
        };
        let from = if start < stop {
            start
        } else {
            stop
        };
        vstd::slice::slice_subrange(self.lines.as_slice(), from, stop)
    }

    /// The `line_amount` lines from the scroll offset on, or fewer where the
    /// text ends.
    pub fn get_visible_lines(&self, line_amount: usize) -> (r: &[String])
        ensures
            r@ == self.lines@.subrange(
                clamp(self.scroll_offset as int, 0, self.lines@.len() as int),
                clamp(self.scroll_offset + line_amount, 0, self.lines@.len() as int),
            ),
    {
        let count = self.lines.len();
        let start = self.scroll_offset;
        let end = if line_amount > usize::MAX - start {
            usize::MAX
        } else {
            start + line_amount
        };
        let r = self.get_lines(start, end);
        assert(clamp(end as int, 0, count as int) == clamp(
            self.scroll_offset + line_amount,
            0,
            self.lines@.len() as int,
        ));
        r
    }

    /// The text of the editor pane: the first rows, with the cursor marker
    /// put in at the cursor.
    pub fn get_display_text(&self) -> (r: String)
        requires
            self.wf(),
        ensures
            r@ == display_text(self.text(), self.cursor_y as int, self.cursor_x as int),
    {
        let ghost marked = with_marker(self.text(), self.cursor_y as int, self.cursor_x as int, CURSOR_MARKER);
        let shown = if self.lines.len() < DISPLAY_ROWS {
            self.lines.len()
        } else {
            DISPLAY_ROWS
        };
        let mut out = String::new();
        let mut i: usize = 0;
        while i < shown
            invariant
                self.wf(),
                shown <= self.lines@.len(),
                shown == if self.lines@.len() < DISPLAY_ROWS { self.lines@.len() } else { DISPLAY_ROWS as nat },
                i <= shown,
                marked == with_marker(self.text(), self.cursor_y as int, self.cursor_x as int, CURSOR_MARKER),
                out@ == joined(marked.take(i as int)),
            decreases shown - i,
        {
            if i > 0 {
                push_char(&mut out, '\n');
            }
            let line = self.lines[i].as_str();
            if i == self.cursor_y {
                let n = char_count(&self.lines[i]);
                out.append(line.substring_char(0, self.cursor_x));
                push_char(&mut out, CURSOR_MARKER);
                out.append(line.substring_char(self.cursor_x, n));
            } else {
                out.append(line);
            }
            proof {
                let next = marked.take(i + 1);
                assert(next.drop_last() =~= marked.take(i as int));
                assert(marked[i as int] =~= if i == self.cursor_y {
                    self.text()[i as int].insert(self.cursor_x as int, CURSOR_MARKER)
                } else {
                    self.text()[i as int]
                });
                assert(out@ =~= joined(next));
            }
            i = i + 1;
        }
        out
    }

    /// Everything but the lines and the cursor is the same in `self` and `other`.
    pub open spec fn same_file(&self, other: &FileWindow) -> bool {
        &&& self.name == other.name
        &&& self.path == other.path
        &&& self.selection_start_x == other.selection_start_x
        &&& self.selection_start_y == other.selection_start_y
        &&& self.selection_end_x == other.selection_end_x
        &&& self.selection_end_y == other.selection_end_y
        &&& self.selection_active == other.selection_active
        &&& self.scroll_offset == other.scroll_offset
    }

    /// `next` is `self` with `c` put in at the cursor and the cursor moved
    /// past it.
    pub open spec fn char_inserted(&self, next: &FileWindow, c: char) -> bool {
        &&& next.same_file(self)
        &&& next.text() == self.text().update(
            self.cursor_y as int,
            self.text()[self.cursor_y as int].insert(self.cursor_x as int, c),
        )
        &&& next.cursor_y == self.cursor_y
        &&& next.cursor_x == self.cursor_x + 1
    }

    /// `next` is `self` with the cursor's line cut at the cursor, and the
    /// cursor at the start of the second part.
    pub open spec fn line_split(&self, next: &FileWindow) -> bool {
        &&& next.same_file(self)
        &&& next.text() == split_line(self.text(), self.cursor_y as int, self.cursor_x as int)
        &&& next.cursor_y == self.cursor_y + 1
        &&& next.cursor_x == 0
    }

    /// `next` is `self` after a backspace: the character before the cursor
    /// removed, or, at the start of a line below another, the two lines
    /// joined with the cursor at the seam; at the start of the first line,
    /// `self` unchanged.
    pub open spec fn backspaced(&self, next: &FileWindow) -> bool {
        let y = self.cursor_y as int;
        let x = self.cursor_x as int;
        if x > 0 {
            &&& next.same_file(self)
            &&& next.text() == self.text().update(y, self.text()[y].remove(x - 1))
            &&& next.cursor_y == y
            &&& next.cursor_x == x - 1
        } else if y > 0 {
            &&& next.same_file(self)
            &&& next.text() == join_with_previous(self.text(), y)
            &&& next.cursor_y == y - 1
            &&& next.cursor_x == self.text()[y - 1].len()
        } else {
            *next == *self
        }
    }

    /// `next` is `self` after a forward delete: the character under the
    /// cursor removed, or, at the end of a line above another, that line
    /// joined on; at the end of the last line, `self` unchanged. The cursor
    /// stays.
    pub open spec fn deleted(&self, next: &FileWindow) -> bool {
        let y = self.cursor_y as int;
        let x = self.cursor_x as int;
        if x < self.text()[y].len() {
            &&& next.same_file(self)
            &&& next.text() == self.text().update(y, self.text()[y].remove(x))
            &&& next.cursor_y == y
            &&& next.cursor_x == x
        } else if y + 1 < self.text().len() {
            &&& next.same_file(self)
            &&& next.text() == join_with_previous(self.text(), y + 1)
            &&& next.cursor_y == y
            &&& next.cursor_x == x
        } else {
            *next == *self
        }
    }

    /// `next` is `self` with the cursor moved `dx` columns, kept between
    /// the start of its line and just past its end.
    pub open spec fn moved_x(&self, next: &FileWindow, dx: int) -> bool {
        &&& next.same_file(self)
        &&& next.lines == self.lines
        &&& next.cursor_y == self.cursor_y
        &&& next.cursor_x == clamp(
            self.cursor_x + dx,
            0,
            self.text()[self.cursor_y as int].len() as int,
        )
    }

    /// `next` is `self` with the cursor moved `dy` rows, kept between the
    /// first and last lines, and its column then brought onto the new line.
    pub open spec fn moved_y(&self, next: &FileWindow, dy: int) -> bool {
        &&& next.same_file(self)
        &&& next.lines == self.lines
        &&& next.cursor_y == clamp(self.cursor_y + dy, 0, self.text().len() - 1)
        &&& next.cursor_x == clamp(
            self.cursor_x as int,
            0,
            self.text()[next.cursor_y as int].len() as int,
        )
    }

    /// Inserts `c` at the cursor and moves the cursor past it.
    pub fn insert_char(&mut self, c: char)
        requires
            old(self).wf(),
        ensures
            final(self).wf(),
            old(self).char_inserted(final(self), c),
    {
        let y = self.cursor_y;
        let x = self.cursor_x;
        let n = char_count(&self.lines[y]);
        let mut line = String::from_str(self.lines[y].as_str().substring_char(0, x));
        push_char(&mut line, c);
        line.append(self.lines[y].as_str().substring_char(x, n));
        // The new line's length is a usize, so the column past `c` is one too.
        let _len_after = char_count(&line);
        assert(line@ =~= self.lines@[y as int]@.insert(x as int, c));
        self.lines.set(y, line);
        self.cursor_x = x + 1;
        assert(self.text() =~= old(self).text().update(y as int, line@));
    }

    /// Cuts the current line at the cursor; the part after the cursor becomes
    /// a new line below, and the cursor moves to its start.
    pub fn insert_new_line(&mut self)
        requires
            old(self).wf(),
        ensures
            final(self).wf(),
            old(self).line_split(final(self)),
    {
        let y = self.cursor_y;
        let x = self.cursor_x;
        let n = char_count(&self.lines[y]);
        let head = String::from_str(self.lines[y].as_str().substring_char(0, x));
        let tail = String::from_str(self.lines[y].as_str().substring_char(x, n));
        let count = self.lines.len();
        assert(y < count);
        self.lines.set(y, head);
        self.lines.insert(y + 1, tail);
        self.cursor_y = y + 1;
        self.cursor_x = 0;
        assert(self.text() =~= split_line(old(self).text(), y as int, x as int));
    }

    /// Removes the character before the cursor. At the start of a line that
    /// has a line above, joins the two lines instead, with the cursor at the
    /// seam. At the start of the first line nothing changes.
    pub fn backspace_char(&mut self)
        requires
            old(self).wf(),
        ensures
            final(self).wf(),
            old(self).backspaced(final(self)),
    {
        let y = self.cursor_y;
        let x = self.cursor_x;
        if x > 0 {
            let n = char_count(&self.lines[y]);
            let mut line = String::from_str(self.lines[y].as_str().substring_char(0, x - 1));
            line.append(self.lines[y].as_str().substring_char(x, n));
            assert(line@ =~= self.lines@[y as int]@.remove(x - 1));
            self.lines.set(y, line);
            self.cursor_x = x - 1;
            assert(self.text() =~= old(self).text().update(y as int, line@));
        } else if y > 0 {
            let above = char_count(&self.lines[y - 1]);
            let current = self.lines.remove(y);
            let mut joined = String::from_str(self.lines[y - 1].as_str());
            joined.append(current.as_str());
            self.lines.set(y - 1, joined);
            self.cursor_y = y - 1;
            self.cursor_x = above;
            assert(self.text() =~= join_with_previous(old(self).text(), y as int));
        }
    }

    /// Removes the character under the cursor. At the end of a line that has
    /// a line below, joins that line onto this one instead. At the end of the
    /// last line nothing changes. The cursor stays where it is.
    pub fn delete_char(&mut self)
        requires
            old(self).wf(),
        ensures
            final(self).wf(),
            old(self).deleted(final(self)),
    {
        let y = self.cursor_y;
        let x = self.cursor_x;
        let n = char_count(&self.lines[y]);
        let count = self.lines.len();
        if x < n {
            let mut line = String::from_str(self.lines[y].as_str().substring_char(0, x));
            line.append(self.lines[y].as_str().substring_char(x + 1, n));
            assert(line@ =~= self.lines@[y as int]@.remove(x as int));
            self.lines.set(y, line);
            assert(self.text() =~= old(self).text().update(y as int, line@));
        } else if y + 1 < count {
            let below = self.lines.remove(y + 1);
            let mut joined = String::from_str(self.lines[y].as_str());
            joined.append(below.as_str());
            self.lines.set(y, joined);
            assert(self.text() =~= join_with_previous(old(self).text(), y + 1));
        }
    }

    /// Moves the cursor `dx` columns along its line, stopping at the line's
    /// start and just past its end.
    pub fn move_cursor_x(&mut self, dx: isize)
        requires
            old(self).wf(),
        ensures
            final(self).wf(),
            old(self).moved_x(final(self), dx as int),
    {
        let n = char_count(&self.lines[self.cursor_y]);
        let x = self.cursor_x;
        if dx >= 0 {
            let step = dx as usize;
            if step >= n - x {
                self.cursor_x = n;
            } else {
                self.cursor_x = x + step;
            }
        } else {
            let step = (-(dx + 1)) as usize + 1;
            if step >= x {
                self.cursor_x = 0;
            } else {
                self.cursor_x = x - step;
            }
        }
    }

    /// Moves the cursor `dy` lines down (up when negative), stopping at the
    /// first and last lines; the column is then brought onto the new line.
    pub fn move_cursor_y(&mut self, dy: isize)
        requires
            old(self).wf(),
        ensures
            final(self).wf(),
            old(self).moved_y(final(self), dy as int),
    {
        let last = self.lines.len() - 1;
        let y = self.cursor_y;
        if dy >= 0 {
            let step = dy as usize;
            if step >= last - y {
                self.cursor_y = last;
            } else {
                self.cursor_y = y + step;
            }
        } else {
            let step = (-(dy + 1)) as usize + 1;
            if step >= y {
                self.cursor_y = 0;
            } else {
                self.cursor_y = y - step;
            }
        }
        self.reset_cursor();
    }

    /// Inserts `line` below the current line and moves the cursor onto it,
    /// keeping the column where the new line is long enough.
    pub fn insert_line(&mut self, line: String)
        requires
            old(self).wf(),
        ensures
            final(self).wf(),
            final(self).same_file(old(self)),
            final(self).text() == old(self).text().insert(old(self).cursor_y + 1, line@),
            final(self).cursor_y == old(self).cursor_y + 1,
            final(self).cursor_x == clamp(old(self).cursor_x as int, 0, line@.len() as int),
    {
        let y = self.cursor_y;
        let count = self.lines.len();
        assert(y < count);
        let ghost added = line@;
        self.lines.insert(y + 1, line);
        self.cursor_y = y + 1;
        self.reset_cursor();
        assert(self.text() =~= old(self).text().insert(y + 1, added));
    }

    /// Brings the cursor back onto the text: the row into the lines, then the
    /// column into that row.
    pub fn reset_cursor(&mut self)
        requires
            old(self).lines@.len() > 0,
        ensures
            final(self).wf(),
            final(self).same_file(old(self)),
            final(self).lines == old(self).lines,
            final(self).cursor_y == clamp(old(self).cursor_y as int, 0, old(self).lines@.len() - 1),
            final(self).cursor_x == clamp(
                old(self).cursor_x as int,
                0,
                old(self).lines@[final(self).cursor_y as int]@.len() as int,
            ),
    {
        let last = self.lines.len() - 1;
        if self.cursor_y > last {
            self.cursor_y = last;
        }
        let len = char_count(&self.lines[self.cursor_y]);
        if self.cursor_x > len {
            self.cursor_x = len;
        }
    }
}

/// Moving the cursor left at the start of the first line changes nothing,
/// so doing it again and again changes nothing either; the same holds of
/// moving right at the end of the last line.
pub proof fn lemma_move_at_edges(w: FileWindow, next: FileWindow, dx: int)
    requires
        w.wf(),
        w.moved_x(&next, dx),
    ensures
        w.cursor_y == 0 && w.cursor_x == 0 && dx <= 0 ==> next == w,
        w.cursor_y == w.text().len() - 1 && w.cursor_x == w.text()[w.cursor_y as int].len()
            && dx >= 0 ==> next == w,
{
}

impl Window for FileWindow {
    open spec fn inv(&self) -> bool {
        self.wf()
    }

    /// A character is typed in, Enter splits the line, Backspace and Delete
    /// remove a character or a line break, and the arrows move the cursor
    /// by one; other keys change nothing. No key asks for a menu action.
    open spec fn handles(
        &self,
        next: &Self,
        key: Key,
        keyflags: u8,
        requested: Option<ActionMenuWindow>,
    ) -> bool {
        &&& requested is None
        &&& match key {
            Key::Char(c) => self.char_inserted(next, c),
            Key::Enter => self.line_split(next),
            Key::Backspace => self.backspaced(next),
            Key::Delete => self.deleted(next),
            Key::Left => self.moved_x(next, -1),
            Key::Right => self.moved_x(next, 1),
            Key::Up => self.moved_y(next, -1),
            Key::Down => self.moved_y(next, 1),
            _ => *next == *self,
        }
    }

    fn handle_keyboard_input(&mut self, key: Key, keyflags: u8) -> (requested: Option<
        ActionMenuWindow,
    >) {
        match key {
            Key::Char(c) => self.insert_char(c),
            Key::Enter => self.insert_new_line(),
            Key::Backspace => self.backspace_char(),
            Key::Delete => self.delete_char(),
            Key::Left => self.move_cursor_x(-1),
            Key::Right => self.move_cursor_x(1),
            Key::Up => self.move_cursor_y(-1),
            Key::Down => self.move_cursor_y(1),
            _ => {},
        }
        None
    }
}

} // verus!
