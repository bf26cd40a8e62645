//! The renderer: maps visible document lines onto a fixed character grid,
//! with vi-style `~` placeholders past end-of-file and a centered welcome
//! banner for an empty document.

use vstd::prelude::*;
use vstd::view::View as _;
use crate::buffer::{Buffer, doc_delete, doc_insert, join_lines, lines_of, lines_view};

verus! {

/// A terminal grid measured in character cells.
#[derive(Clone, Copy, PartialEq, Eq, Structural, Debug)]
pub struct Size {
    pub width: usize,
    pub height: usize,
}

/// The welcome banner's text.
pub open spec fn welcome_text() -> Seq<char> {
    "hecto editor -- version 0.1.0"@
}

/// `n` space characters (none for `n <= 0`).
pub open spec fn spaces(n: int) -> Seq<char> {
    Seq::new(if n >= 0 {
        n as nat
    } else {
        0
    }, |i: int| ' ')
}

/// The row shown for an empty document at the banner row: the banner centered
/// behind a `~` margin when it fits, a bare `~` when it does not, and a single
/// space for a zero-width grid.
pub open spec fn welcome_row(width: int) -> Seq<char> {
    if width == 0 {
        seq![' ']
    } else if width <= welcome_text().len() {
        seq!['~']
    } else {
        seq!['~'] + spaces((width - welcome_text().len() - 1) / 2) + welcome_text()
    }
}

/// A line cut down to the grid width: the first `width` scalars, never more.
pub open spec fn truncated(line: Seq<char>, width: int) -> Seq<char> {
    if line.len() > width {
        line.take(width)
    } else {
        line
    }
}

/// The text shown on grid row `r`: the document line `r + offset_y` when one
/// exists, else the welcome row (only at a third of the height, and only for
/// an empty document), else a `~` placeholder.
pub open spec fn row_text(doc: Seq<Seq<char>>, size: Size, offset_y: int, r: int) -> Seq<char> {
    let buffer_row = r + offset_y;
    if 0 <= buffer_row < doc.len() {
        truncated(doc[buffer_row], size.width as int)
    } else if r == size.height as int / 3 && doc.len() == 0 {
        welcome_row(size.width as int)
    } else {
        seq!['~']
    }
}

/// One full repaint: the text of every grid row, top to bottom; nothing at
/// all when either grid dimension is zero.
pub open spec fn frame(doc: Seq<Seq<char>>, size: Size, offset_y: int) -> Seq<Seq<char>> {
    if size.width == 0 || size.height == 0 {
        Seq::<Seq<char>>::empty()
    } else {
        Seq::new(size.height as nat, |r: int| row_text(doc, size, offset_y, r))
    }
}

fn welcome_str() -> (s: &'static str)
    ensures
        s@ == welcome_text(),
{
    "hecto editor -- version 0.1.0"
}

/// The renderer: owns the document, the grid size, and the redraw-needed
/// flag that edits set and a full repaint clears.
pub struct View {
    pub buffer: Buffer,
    pub needs_redraw: bool,
    pub size: Size,
}

impl View {
    /// Builds the welcome banner row for a grid `width` columns wide.
    pub fn build_welcome_message(width: usize) -> (row: Vec<char>)
        ensures
            row@ == welcome_row(width as int),
            width as int > welcome_text().len() ==> row@.len() <= width,
    {
        let mut row: Vec<char> = Vec::new();
        if width == 0 {
            row.push(' ');
            proof {
                assert(row@ =~= seq![' ']);
            }
            return row;
        }
        let msg = welcome_str();
        let len = msg.unicode_len();
        if width <= len {
            row.push('~');
            proof {
                assert(row@ =~= seq!['~']);
            }
            return row;
        }
        let padding = (width - len - 1) / 2;
        row.push('~');
        proof {
            assert(row@ =~= seq!['~'] + spaces(0));
        }
        for i in 0..padding
            invariant
                row@ == seq!['~'] + spaces(i as int),
        {
            row.push(' ');
            proof {
                assert(seq!['~'] + spaces(i + 1) =~= (seq!['~'] + spaces(i as int)).push(' '));
            }
        }
        let ghost lead = seq!['~'] + spaces(padding as int);
        for j in 0..len
            invariant
                len == welcome_text().len(),
                msg@ == welcome_text(),
                row@ == lead + welcome_text().take(j as int),
        {
            row.push(msg.get_char(j));
            proof {
                assert(lead + welcome_text().take(j + 1) =~= (lead + welcome_text().take(
                    j as int,
                )).push(welcome_text()[j as int]));
            }
        }
        proof {
            assert(welcome_text().take(len as int) =~= welcome_text());
            assert(padding as int <= width - len - 1);
        }
        row
    }

    /// The text of grid row `r` for scroll offset `offset_y`, truncated to
    /// the grid width.
    pub fn render_line(&self, r: usize, offset_y: usize) -> (t: Vec<char>)
        ensures
            t@ == row_text(self.buffer@, self.size, offset_y as int, r as int),
    {
        let width = self.size.width;
        let line_count = self.buffer.lines.len();
        if offset_y <= usize::MAX - r && r + offset_y < line_count {
            let line = &self.buffer.lines[r + offset_y];
            let n = if line.len() > width {
                width
            } else {
                line.len()
            };
            let mut t: Vec<char> = Vec::new();
            for j in 0..n
                invariant
                    n <= line@.len(),
                    t@ == line@.take(j as int),
            {
                t.push(line[j]);
                proof {
                    assert(line@.take(j + 1) =~= line@.take(j as int).push(line@[j as int]));
                }
            }
            proof {
                if line@.len() <= width {
                    assert(line@.take(n as int) =~= line@);
                }
            }
            t
        } else if r == self.size.height / 3 && line_count == 0 {
            Self::build_welcome_message(width)
        } else {
            let mut t: Vec<char> = Vec::new();
            t.push('~');
            proof {
                assert(t@ =~= seq!['~']);
            }
            t
        }
    }

    /// Repaints the whole grid: returns the text of every row, top to
    /// bottom, and clears the redraw flag. A grid with a zero dimension
    /// paints nothing and leaves the repaint owed.
    pub fn render(&mut self, offset_y: usize) -> (rows: Vec<Vec<char>>)
        ensures
            final(self).buffer == old(self).buffer,
            final(self).size == old(self).size,
            final(self).needs_redraw == (old(self).size.width == 0 || old(self).size.height == 0),
            lines_view(rows@) == frame(old(self).buffer@, old(self).size, offset_y as int),
    {
        let height = self.size.height;
        let width = self.size.width;
        if height == 0 || width == 0 {
            self.needs_redraw = true;
            let rows: Vec<Vec<char>> = Vec::new();
            proof {
                assert(lines_view(rows@) =~= frame(self.buffer@, self.size, offset_y as int));
            }
            return rows;
        }
        let mut rows: Vec<Vec<char>> = Vec::new();
        for r in 0..height
            invariant
                self == old(self),
                height == self.size.height,
                width == self.size.width,
                width > 0 && height > 0,
                rows@.len() == r,
                forall|k: int|
                    0 <= k < r ==> rows@[k]@ == row_text(
                        self.buffer@,
                        self.size,
                        offset_y as int,
                        k,
                    ),
        {
            let t = self.render_line(r, offset_y);
            rows.push(t);
        }
        self.needs_redraw = false;
        proof {
            assert(lines_view(rows@) =~= frame(old(self).buffer@, old(self).size, offset_y as int));
        }
        rows
    }

    /// Records a new grid size and marks the grid in need of a repaint.
    pub fn resize(&mut self, to: Size)
        ensures
            final(self).size == to,
            final(self).needs_redraw == true,
            final(self).buffer == old(self).buffer,
    {
        self.size = to;
        self.needs_redraw = true;
    }

    /// Replaces the document with one loaded from file contents and marks
    /// the grid in need of a repaint.
    pub fn load(&mut self, content: &Vec<char>)
        ensures
            final(self).buffer@ == lines_of(content@),
            final(self).needs_redraw == true,
            final(self).size == old(self).size,
    {
        self.buffer = Buffer::load(content);
        self.needs_redraw = true;
    }

    /// Inserts `c` at viewport row `line` and column `col`: the document
    /// line edited is `line + offset_y`, and an index past the last line
    /// leaves the document unchanged.
    pub fn insert_char(&mut self, line: usize, col: usize, c: char, offset_y: usize)
        ensures
            final(self).buffer@ == doc_insert(
                old(self).buffer@,
                line as int + offset_y as int,
                col as int,
                c,
            ),
            final(self).needs_redraw == true,
            final(self).size == old(self).size,
    {
        if line <= usize::MAX - offset_y {
            let actual_line = line + offset_y;
            self.buffer.insert_char(actual_line, col, c);
        } else {
            let line_count = self.buffer.lines.len();
            proof {
                assert(line as int + offset_y as int > line_count);
            }
        }
        self.needs_redraw = true;
    }

    /// Deletes the character at viewport row `line` and column `col`: the
    /// document line edited is `line + offset_y`, and an out-of-range index
    /// leaves the document unchanged.
    pub fn delete_char(&mut self, line: usize, col: usize, offset_y: usize)
        ensures
            final(self).buffer@ == doc_delete(
                old(self).buffer@,
                line as int + offset_y as int,
                col as int,
            ),
            final(self).needs_redraw == true,
            final(self).size == old(self).size,
    {
        if line <= usize::MAX - offset_y {
            let actual_line = line + offset_y;
            self.buffer.delete_char(actual_line, col);
        } else {
            let line_count = self.buffer.lines.len();
            proof {
                assert(line as int + offset_y as int > line_count);
            }
        }
        self.needs_redraw = true;
    }

    /// The serialised document, ready to be written back to disk.
    pub fn save_buffer(&self) -> (out: Vec<char>)
        ensures
            out@ == join_lines(self.buffer@),
    {
        self.buffer.save()
    }
}

impl Default for View {
    /// An empty document on a zero-size grid, with a first repaint owed.
    fn default() -> (v: View)
        ensures
            v.buffer@ == Seq::<Seq<char>>::empty(),
            v.needs_redraw == true,
            v.size == (Size { width: 0, height: 0 }),
    {
        View { buffer: Buffer::new(), needs_redraw: true, size: Size { width: 0, height: 0 } }
    }
}

} // verus!
