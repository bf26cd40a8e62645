//! The document: an ordered sequence of text lines, each a sequence of
//! Unicode scalar values, with single-line character edits and a
//! newline-delimited serialisation.

use vstd::prelude::*;

verus! {

/// The sequence of lines that a character sequence is made of when it is cut
/// at every newline: `n` newlines give `n + 1` segments, and no segment
/// contains a newline.
pub open spec fn split_segments(s: Seq<char>) -> Seq<Seq<char>>
    decreases s.len(),
{
    if s.len() == 0 {
        seq![Seq::<char>::empty()]
    } else if s.last() == '\n' {
        split_segments(s.drop_last()).push(Seq::<char>::empty())
    } else {
        let rest = split_segments(s.drop_last());
        rest.update(rest.len() - 1, rest.last().push(s.last()))
    }
}

/// The lines a document holds after loading `s`: an empty input gives no
/// lines, and a single trailing newline does not open a final empty line.
pub open spec fn lines_of(s: Seq<char>) -> Seq<Seq<char>> {
    if s.len() == 0 {
        Seq::<Seq<char>>::empty()
    } else if s.last() == '\n' {
        split_segments(s.drop_last())
    } else {
        split_segments(s)
    }
}

/// The serialised form of a document: its lines joined with `'\n'`, with no
/// trailing newline added.
pub open spec fn join_lines(lines: Seq<Seq<char>>) -> Seq<char>
    decreases lines.len(),
{
    if lines.len() == 0 {
        Seq::<char>::empty()
    } else if lines.len() == 1 {
        lines[0]
    } else {
        join_lines(lines.drop_last()) + seq!['\n'] + lines.last()
    }
}

/// The mathematical view of a vector of lines.
pub open spec fn lines_view(lines: Seq<Vec<char>>) -> Seq<Seq<char>> {
    Seq::new(lines.len(), |i: int| lines[i]@)
}

/// The document after inserting `c` at `(line, col)`: out-of-range line
/// indices leave it unchanged, and a column past the end of the line is
/// clamped to the line's length.
pub open spec fn doc_insert(doc: Seq<Seq<char>>, line: int, col: int, c: char) -> Seq<Seq<char>> {
    if 0 <= line < doc.len() {
        let l = doc[line];
        let at = if col <= l.len() {
            col
        } else {
            l.len() as int
        };
        doc.update(line, l.insert(at, c))
    } else {
        doc
    }
}

/// The document after deleting the character at `(line, col)`: unchanged
/// unless `line` names an existing line and `col` an existing character.
pub open spec fn doc_delete(doc: Seq<Seq<char>>, line: int, col: int) -> Seq<Seq<char>> {
    if 0 <= line < doc.len() && 0 <= col < doc[line].len() {
        doc.update(line, doc[line].remove(col))
    } else {
        doc
    }
}

/// An in-memory document: line indices are dense, `0 .. lines.len()`.
pub struct Buffer {
    pub lines: Vec<Vec<char>>,
}

impl View for Buffer {
    type V = Seq<Seq<char>>;

    open spec fn view(&self) -> Seq<Seq<char>> {
        lines_view(self.lines@)
    }
}

impl Buffer {
    /// A document with no lines at all.
    pub fn new() -> (buf: Buffer)
        ensures
            buf@ == Seq::<Seq<char>>::empty(),
    {
        let buf = Buffer { lines: Vec::new() };
        proof {
            assert(buf@ =~= Seq::<Seq<char>>::empty());
        }
        buf
    }

    /// Builds a document from file contents, cutting them at every newline;
    /// a trailing newline does not open a final empty line.
    pub fn load(content: &Vec<char>) -> (buf: Buffer)
        ensures
            buf@ == lines_of(content@),
    {
        let mut lines: Vec<Vec<char>> = Vec::new();
        let mut cur: Vec<char> = Vec::new();
        for i in 0..content.len()
            invariant
                lines_view(lines@).push(cur@) =~= split_segments(content@.take(i as int)),
        {
            let c = content[i];
            proof {
                assert(content@.take(i + 1).drop_last() =~= content@.take(i as int));
                assert(content@.take(i + 1).last() == c);
            }
            if c == '\n' {
                lines.push(cur);
                cur = Vec::new();
                proof {
                    assert(lines_view(lines@).push(cur@) =~= split_segments(
                        content@.take(i as int),
                    ).push(Seq::<char>::empty()));
                }
            } else {
                cur.push(c);
                proof {
                    let prev = split_segments(content@.take(i as int));
                    lemma_split_segments_len(content@.take(i as int));
                    assert(lines_view(lines@).push(cur@) =~= prev.update(
                        prev.len() - 1,
                        prev.last().push(c),
                    ));
                }
            }
        }
        proof {
            assert(content@.take(content@.len() as int) =~= content@);
        }
        if cur.len() > 0 {
            lines.push(cur);
            let buf = Buffer { lines };
            proof {
                assert(content@.len() > 0 && content@.last() != '\n') by {
                    if content@.len() == 0 {
                        assert(split_segments(content@).last() == cur@);
                    } else if content@.last() == '\n' {
                        assert(split_segments(content@).last() == cur@);
                    }
                }
                assert(buf@ =~= split_segments(content@));
            }
            buf
        } else {
            let buf = Buffer { lines };
            proof {
                if content@.len() == 0 {
                    assert(buf@ =~= lines_of(content@));
                } else {
                    assert(split_segments(content@).last() == cur@);
                    assert(content@.last() == '\n') by {
                        if content@.last() != '\n' {
                            let prev = split_segments(content@.drop_last());
                            lemma_split_segments_len(content@.drop_last());
                            assert(split_segments(content@).last() == prev.last().push(
                                content@.last(),
                            ));
                        }
                    }
                    let prev = split_segments(content@.drop_last());
                    assert(split_segments(content@) == prev.push(Seq::<char>::empty()));
                    let lv = lines_view(buf.lines@);
                    assert(cur@ =~= Seq::<char>::empty());
                    assert(lv.push(cur@) == prev.push(Seq::<char>::empty()));
                    assert forall|k: int| 0 <= k < prev.len() implies lv[k] == prev[k] by {
                        assert(lv[k] == lv.push(cur@)[k]);
                        assert(prev[k] == prev.push(Seq::<char>::empty())[k]);
                    }
                    assert(buf@ =~= prev);
                }
            }
            buf
        }
    }

    /// The serialised document: all lines joined with `'\n'`, no trailing
    /// newline added.
    pub fn save(&self) -> (out: Vec<char>)
        ensures
            out@ == join_lines(self@),
    {
        let mut out: Vec<char> = Vec::new();
        proof {
            assert(self@.take(0) =~= Seq::<Seq<char>>::empty());
        }
        for i in 0..self.lines.len()
            invariant
                out@ == join_lines(self@.take(i as int)),
                self@ == lines_view(self.lines@),
        {
            if i > 0 {
                out.push('\n');
            }
            let ghost base = out@;
            let line = &self.lines[i];
            for j in 0..line.len()
                invariant
                    out@ == base + line@.take(j as int),
            {
                out.push(line[j]);
                proof {
                    assert(base + line@.take(j + 1) =~= (base + line@.take(j as int)).push(
                        line@[j as int],
                    ));
                }
            }
            proof {
                assert(line@.take(line@.len() as int) =~= line@);
                assert(self@.take(i + 1).drop_last() =~= self@.take(i as int));
                assert(self@.take(i + 1).last() == self@[i as int]);
                if i == 0 {
                    assert(out@ =~= join_lines(self@.take(i + 1)));
                } else {
                    assert(out@ =~= join_lines(self@.take(i as int)) + seq!['\n'] + self@[i as int]);
                }
            }
        }
        proof {
            assert(self@.take(self@.len() as int) =~= self@);
        }
        out
    }

    /// True exactly when the document has zero lines.
    pub fn is_empty(&self) -> (r: bool)
        ensures
            r == (self@.len() == 0),
    {
        self.lines.len() == 0
    }

    /// Inserts `c` into line `line` at column `col`, clamping `col` to the
    /// line's length; a `line` past the last line leaves the document
    /// unchanged.
    pub fn insert_char(&mut self, line: usize, col: usize, c: char)
        ensures
            final(self)@ == doc_insert(old(self)@, line as int, col as int, c),
            line >= old(self)@.len() ==> final(self)@ == old(self)@,
    {
        if line < self.lines.len() {
            let line_ref = &mut self.lines[line];
            let len = line_ref.len();
            let at = if col <= len {
                col
            } else {
                len
            };
            line_ref.insert(at, c);
            proof {
                assert(self@ =~= doc_insert(old(self)@, line as int, col as int, c));
            }
        }
    }

    /// Removes the character of line `line` at column `col`; when `line` or
    /// `col` is out of range the document is unchanged.
    pub fn delete_char(&mut self, line: usize, col: usize)
        ensures
            final(self)@ == doc_delete(old(self)@, line as int, col as int),
            line >= old(self)@.len() ==> final(self)@ == old(self)@,
    {
        if line < self.lines.len() {
            let line_ref = &mut self.lines[line];
            if col < line_ref.len() {
                line_ref.remove(col);
                proof {
                    assert(self@ =~= doc_delete(old(self)@, line as int, col as int));
                }
            }
        }
    }
}

proof fn lemma_split_segments_len(s: Seq<char>)
    ensures
        split_segments(s).len() >= 1,
    decreases s.len(),
{
    if s.len() > 0 {
        lemma_split_segments_len(s.drop_last());
    }
}

proof fn lemma_join_snoc_char(lines: Seq<Seq<char>>, c: char)
    requires
        lines.len() >= 1,
    ensures
        join_lines(lines.update(lines.len() - 1, lines.last().push(c))) == join_lines(
            lines,
        ).push(c),
    decreases lines.len(),
{
    let updated = lines.update(lines.len() - 1, lines.last().push(c));
    if lines.len() == 1 {
        assert(join_lines(updated) =~= join_lines(lines).push(c));
    } else {
        assert(updated.drop_last() =~= lines.drop_last());
        assert(join_lines(updated) == join_lines(lines.drop_last()) + seq!['\n']
            + lines.last().push(c));
        assert(join_lines(lines.drop_last()) + seq!['\n'] + lines.last().push(c) =~= (join_lines(
            lines.drop_last(),
        ) + seq!['\n'] + lines.last()).push(c));
    }
}

proof fn lemma_join_split(s: Seq<char>)
    ensures
        join_lines(split_segments(s)) == s,
    decreases s.len(),
{
    if s.len() == 0 {
        assert(join_lines(split_segments(s)) =~= s);
    } else {
        let t = s.drop_last();
        lemma_join_split(t);
        lemma_split_segments_len(t);
        let rest = split_segments(t);
        if s.last() == '\n' {
            assert(rest.push(Seq::<char>::empty()).drop_last() =~= rest);
            assert(join_lines(split_segments(s)) =~= s);
        } else {
            lemma_join_snoc_char(rest, s.last());
            assert(join_lines(rest).push(s.last()) =~= s);
        }
    }
}

/// Serialising a freshly loaded document reproduces the input exactly,
/// for every input that does not end in a newline.
pub proof fn lemma_save_load_round_trip(s: Seq<char>)
    requires
        s.len() == 0 || s.last() != '\n',
    ensures
        join_lines(lines_of(s)) == s,
{
    if s.len() > 0 {
        lemma_join_split(s);
    }
}

/// Inserting `c` at `(line, col)` and then deleting at the same place
/// restores the document, whenever `col` does not pass the end of the line.
pub proof fn lemma_insert_delete_inverse(doc: Seq<Seq<char>>, line: int, col: int, c: char)
    requires
        0 <= line < doc.len() ==> 0 <= col <= doc[line].len(),
    ensures
        doc_delete(doc_insert(doc, line, col, c), line, col) == doc,
{
    if 0 <= line < doc.len() {
        let l = doc[line];
        let inserted = l.insert(col, c);
        assert(inserted.remove(col) =~= l);
        assert(doc_delete(doc_insert(doc, line, col, c), line, col) =~= doc);
    }
}

} // verus!
