use vstd::prelude::*;
use vstd::string::StrSliceExecFns;

verus! {

/// The `\n`-separated pieces of `s`, terminators removed; there is always at
/// least one piece, the last one possibly empty.
pub open spec fn pieces(s: Seq<char>) -> Seq<Seq<char>>
    decreases s.len(),
{
    if s.len() == 0 {
        seq![Seq::empty()]
    } else {
        let p = pieces(s.drop_last());
        if s.last() == '\n' {
            p.push(Seq::empty())
        } else {
            p.update(p.len() - 1, p.last().push(s.last()))
        }
    }
}

/// A piece that was ended by `\n` loses one trailing `\r`.
pub open spec fn strip_cr(l: Seq<char>) -> Seq<char> {
    if l.len() > 0 && l.last() == '\r' {
        l.drop_last()
    } else {
        l
    }
}

/// The lines of a text: each `\n` or `\r\n` ends a line, the final line
/// ending is optional, and a text without characters has no lines.
pub open spec fn lines_of(s: Seq<char>) -> Seq<Seq<char>> {
    let p = pieces(s);
    let ended = p.drop_last().map_values(|l: Seq<char>| strip_cr(l));
    if p.last().len() == 0 {
        ended
    } else {
        ended.push(p.last())
    }
}

/// Relies on `str::lines`: splits at `\n` and `\r\n`, drops the terminators,
/// keeps a last line that has no terminator, and yields nothing for `""`.
#[verifier::external_body]
fn split_lines(text: &str) -> (r: Vec<String>)
    ensures
        r@.map_values(|l: String| l@) == lines_of(text@),
{
    text.lines().map(|l| l.to_string()).collect()
}

/// The text of a document, one entry per line, in document order.
pub struct Buffer {
    pub contents: Vec<String>,
}

impl Buffer {
    /// The lines as character sequences.
    pub open spec fn lines(&self) -> Seq<Seq<char>> {
        self.contents@.map_values(|l: String| l@)
    }

    /// Line count and line lengths are machine sizes.
    pub open spec fn fits(&self) -> bool {
        &&& self.lines().len() <= usize::MAX
        &&& forall|i: int| 0 <= i < self.lines().len() ==> #[trigger] self.lines()[i].len() <= usize::MAX
    }

    /// An empty buffer.
    pub fn new() -> (r: Buffer)
        ensures
            r.lines() == Seq::<Seq<char>>::empty(),
            r.fits(),
    {
        let r = Buffer { contents: Vec::new() };
        assert(r.lines() =~= Seq::<Seq<char>>::empty());
        r
    }

    pub fn is_empty(&self) -> (r: bool)
        ensures
            r == (self.lines().len() == 0),
    {
        self.contents.len() == 0
    }

    pub fn line_count(&self) -> (r: usize)
        ensures
            r == self.lines().len(),
    {
        self.contents.len()
    }

    /// The line at index `y`, or `None` past the last line.
    pub fn line(&self, y: usize) -> (r: Option<&String>)
        ensures
            y < self.lines().len() ==> (r matches Some(l) && l@ == self.lines()[y as int]),
            y >= self.lines().len() ==> r is None,
    {
        if y < self.contents.len() {
            Some(&self.contents[y])
        } else {
            None
        }
    }

    /// Appends the lines of `text` after the present ones, in order.
    pub fn load(&mut self, text: &str)
        requires
            old(self).fits(),
        ensures
            final(self).lines() == old(self).lines() + lines_of(text@),
            final(self).fits(),
    {
        let new_lines = split_lines(text);
        let mut i: usize = 0;
        while i < new_lines.len()
            invariant
                i <= new_lines@.len(),
                new_lines@.map_values(|l: String| l@) == lines_of(text@),
                self.lines() == old(self).lines() + new_lines@.map_values(|l: String| l@).take(i as int),
                self.fits(),
            decreases new_lines@.len() - i,
        {
            let ghost before = self.lines();
            let line = new_lines[i].clone();
            let _ = line.as_str().unicode_len();
            self.contents.push(line);
            let _ = self.contents.len();
            assert(self.lines() =~= before.push(new_lines@[i as int]@));
            i += 1;
            assert(new_lines@.map_values(|l: String| l@).take(i as int) =~= new_lines@.map_values(
                |l: String| l@,
            ).take(i - 1).push(new_lines@[i - 1]@));
            assert(self.lines() =~= old(self).lines() + new_lines@.map_values(|l: String| l@).take(i as int));
        }
        assert(new_lines@.map_values(|l: String| l@).take(i as int) =~= new_lines@.map_values(|l: String| l@));
    }
}

} // verus!
