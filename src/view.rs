use vstd::prelude::*;
use vstd::string::StrSliceExecFns;
use vstd::view::View as _;

use crate::buffer::Buffer;
use crate::terminal::{MovementDirection, Position};

verus! {

pub open spec fn min(a: int, b: int) -> int {
    if a <= b {
        a
    } else {
        b
    }
}

/// The position with the given coordinates.
pub open spec fn at(x: int, y: int) -> Position {
    Position { x: x as usize, y: y as usize }
}

/// Why a movement could not be carried out.
#[derive(Clone, Copy, Debug, PartialEq, Eq, Structural)]
pub enum MoveError {
    /// The caret's line does not exist in the buffer: the caret and the
    /// buffer disagree, which the caller treats as fatal.
    LineMissing,
}

/// What `str::trim` leaves of a text.
pub uninterp spec fn trimmed(s: Seq<char>) -> Seq<char>;

/// Relies on `str::trim`: the text without its leading and trailing
/// whitespace, a function of the characters alone.
#[verifier::external_body]
fn trim_text(s: &str) -> (r: String)
    ensures
        r@ == trimmed(s@),
{
    s.trim().to_string()
}

/// The screen rows of `line` in the wrapped mode: successive pieces of
/// `width` characters, the last one shorter, each trimmed; a line no wider
/// than the viewport takes one row.
pub open spec fn wrap_line(line: Seq<char>, width: nat) -> Seq<Seq<char>>
    decreases line.len(),
{
    if width == 0 || line.len() <= width {
        seq![trimmed(line)]
    } else {
        seq![trimmed(line.take(width as int))] + wrap_line(line.skip(width as int), width)
    }
}

/// The rows of all of `lines` in the wrapped mode, in order.
pub open spec fn wrapped_rows(lines: Seq<Seq<char>>, width: nat) -> Seq<Seq<char>>
    decreases lines.len(),
{
    if lines.len() == 0 {
        Seq::empty()
    } else {
        wrap_line(lines[0], width) + wrapped_rows(lines.drop_first(), width)
    }
}

/// At most the first `n` entries of `s`.
pub open spec fn first_rows(s: Seq<Seq<char>>, n: nat) -> Seq<Seq<char>> {
    if s.len() <= n {
        s
    } else {
        s.take(n as int)
    }
}

pub open spec fn texts(v: Seq<String>) -> Seq<Seq<char>> {
    v.map_values(|t: String| t@)
}

/// The title frame: the rows to draw and the cells where the product's name
/// and version go.
pub struct TitleScreen {
    pub rows: Vec<String>,
    pub name_at: Position,
    pub version_at: Position,
}

/// The buffer, the viewport (its size and scroll offset) and the caret, both
/// as a logical location in the text and as a cell on the screen.
pub struct View {
    pub buffer: Buffer,
    pub needs_redraw: bool,
    /// The logical coordinate of the viewport's top-left cell.
    pub scroll_offset: Position,
    /// The caret in the text: `y` is a line index, `x` a character offset.
    pub location: Position,
    /// The caret on the screen.
    pub position: Position,
    pub width: u16,
    pub height: u16,
}

impl View {
    pub open spec fn line_count_spec(&self) -> int {
        self.buffer.lines().len() as int
    }

    pub open spec fn line_len(&self, y: int) -> int {
        self.buffer.lines()[y].len() as int
    }

    /// The screen cell of the caret is its location minus the scroll offset.
    pub open spec fn caret_matches_scroll(&self) -> bool {
        &&& self.location.x == self.scroll_offset.x + self.position.x
        &&& self.location.y == self.scroll_offset.y + self.position.y
    }

    /// The caret stands on a line of the buffer, or on row zero of an empty
    /// buffer. Its column may lie past the end of a shorter line that a
    /// vertical move reached.
    pub open spec fn caret_on_line(&self) -> bool {
        if self.line_count_spec() == 0 {
            self.location.y == 0
        } else {
            self.location.y < self.line_count_spec()
        }
    }

    pub open spec fn caret_on_screen(&self) -> bool {
        &&& self.position.x < self.width
        &&& self.position.y < self.height
    }

    pub open spec fn wf(&self) -> bool {
        &&& self.buffer.fits()
        &&& self.caret_matches_scroll()
        &&& self.caret_on_line()
        &&& self.caret_on_screen()
    }

    /// A move that needs the caret's line, on a caret that has none.
    pub open spec fn lacks_line_for(&self, d: MovementDirection) -> bool {
        &&& (d == MovementDirection::Right || d == MovementDirection::FullRight)
        &&& self.location.y >= self.line_count_spec()
    }

    /// Location, screen position and scroll offset after the move `d` by `n`.
    pub open spec fn caret_after(&self, d: MovementDirection, n: usize) -> (Position, Position, Position) {
        let l = self.location;
        let p = self.position;
        let s = self.scroll_offset;
        let w = self.width as int;
        let h = self.height as int;
        let count = self.line_count_spec();
        let same = (l, p, s);
        match d {
            MovementDirection::Left => {
                let k = min(n as int, l.x as int);
                let on_screen = min(k, p.x as int);
                (at(l.x - k, l.y as int), at(p.x - on_screen, p.y as int), at(s.x - (k - on_screen), s.y as int))
            },
            MovementDirection::Right => {
                if l.y < count && l.x < self.line_len(l.y as int) {
                    let k = min(n as int, self.line_len(l.y as int) - l.x);
                    let on_screen = min(k, w - 1 - p.x);
                    (at(l.x + k, l.y as int), at(p.x + on_screen, p.y as int), at(s.x + (k - on_screen), s.y as int))
                } else {
                    same
                }
            },
            MovementDirection::Up => {
                let k = min(n as int, l.y as int);
                let on_screen = min(k, p.y as int);
                (at(l.x as int, l.y - k), at(p.x as int, p.y - on_screen), at(s.x as int, s.y - (k - on_screen)))
            },
            MovementDirection::Down => {
                if l.y + 1 < count {
                    let k = min(n as int, count - 1 - l.y);
                    let on_screen = min(k, h - 1 - p.y);
                    (at(l.x as int, l.y + k), at(p.x as int, p.y + on_screen), at(s.x as int, s.y + (k - on_screen)))
                } else {
                    same
                }
            },
            MovementDirection::Top => {
                if l.y == 0 || p.y == 0 {
                    same
                } else {
                    (at(l.x as int, s.y as int), at(p.x as int, 0), s)
                }
            },
            MovementDirection::Bottom => {
                if count == 0 || l.y >= count - 1 || p.y >= h - 1 {
                    same
                } else {
                    let last_row = min(h, count - s.y) - 1;
                    (at(l.x as int, s.y + last_row), at(p.x as int, last_row), s)
                }
            },
            MovementDirection::FullLeft => (at(0, l.y as int), at(0, p.y as int), at(0, s.y as int)),
            MovementDirection::FullRight => {
                if l.y < count {
                    let len = self.line_len(l.y as int);
                    if len < w {
                        (at(len, l.y as int), at(len, p.y as int), at(0, s.y as int))
                    } else {
                        (at(len, l.y as int), at(w - 1, p.y as int), at(len - w + 1, s.y as int))
                    }
                } else {
                    same
                }
            },
        }
    }

    /// The view after the move `d` by `n`: the caret and the scroll offset
    /// move as `caret_after` says, and a redraw is owed once anything changed.
    pub open spec fn moved(self, d: MovementDirection, n: usize) -> View {
        let t = self.caret_after(d, n);
        View {
            buffer: self.buffer,
            needs_redraw: self.needs_redraw || t.0 != self.location || t.1 != self.position || t.2
                != self.scroll_offset,
            scroll_offset: t.2,
            location: t.0,
            position: t.1,
            width: self.width,
            height: self.height,
        }
    }

    /// The scroll offset after `scroll(d, n)`: it saturates at zero going
    /// back and at the largest `usize` going forward.
    pub open spec fn scrolled(&self, d: MovementDirection, n: usize) -> Position {
        let s = self.scroll_offset;
        match d {
            MovementDirection::Left => at(s.x - min(n as int, s.x as int), s.y as int),
            MovementDirection::Right => at(min(s.x + n, usize::MAX as int), s.y as int),
            MovementDirection::Up => at(s.x as int, s.y - min(n as int, s.y as int)),
            MovementDirection::Down => at(s.x as int, min(s.y + n, usize::MAX as int)),
            _ => s,
        }
    }

    /// The scroll offset that brings a caret lying right of or below the
    /// viewport back into its last column or row, scrolling no further.
    pub open spec fn revealing_offset(&self) -> Position {
        let l = self.location;
        let s = self.scroll_offset;
        at(
            if self.position.x < self.width { s.x as int } else { l.x - (self.width - 1) },
            if self.position.y < self.height { s.y as int } else { l.y - (self.height - 1) },
        )
    }

    /// The part of `line` inside the viewport's columns; nothing where the
    /// line ends left of them, and no padding where it ends inside them.
    pub open spec fn clipped(&self, line: Seq<char>) -> Seq<char> {
        line.subrange(
            min(line.len() as int, self.scroll_offset.x as int),
            min(line.len() as int, self.scroll_offset.x + self.width),
        )
    }

    /// The text on screen row `r`: the clipped line `scroll_offset.y + r`,
    /// or nothing past the last line.
    pub open spec fn visible_row(&self, r: int) -> Seq<char> {
        let y = self.scroll_offset.y + r;
        if y < self.line_count_spec() {
            self.clipped(self.buffer.lines()[y])
        } else {
            Seq::empty()
        }
    }

    /// The title banner's cell: a third of the way down less two rows, half
    /// way across less two columns, stopping at the screen's edge.
    pub open spec fn title_at(&self) -> Position {
        at(
            if self.width / 2 >= 2 { self.width / 2 - 2 } else { 0 },
            if self.height / 3 >= 2 { self.height / 3 - 2 } else { 0 },
        )
    }

    /// A view of an empty buffer, with the caret and the scroll offset at the
    /// origin, owing a first draw.
    pub fn new(width: u16, height: u16) -> (r: View)
        ensures
            r.buffer.lines().len() == 0,
            r.wf() <==> (width > 0 && height > 0),
            r.needs_redraw,
            r.scroll_offset == at(0, 0),
            r.location == at(0, 0),
            r.position == at(0, 0),
            r.width == width,
            r.height == height,
    {
        View {
            buffer: Buffer::new(),
            needs_redraw: true,
            scroll_offset: Position::new(0, 0),
            location: Position::new(0, 0),
            position: Position::new(0, 0),
            width,
            height,
        }
    }
    /// Moves the caret by `amount` in the direction `direction`, scrolling the
    /// viewport where the caret would leave it. A move that needs the caret's
    /// line fails, changing nothing, where that line does not exist.
    pub fn move_caret(&mut self, direction: MovementDirection, amount: usize) -> (r: Result<(), MoveError>)
        requires
            old(self).wf(),
        ensures
            *final(self) == old(self).moved(direction, amount),
            r is Err <==> old(self).lacks_line_for(direction),
            final(self).wf(),
    {
        let ghost before = *self;
        let count = self.buffer.line_count();
        let w = self.width as usize;
        let h = self.height as usize;
        let l = self.location;
        let p = self.position;
        let s = self.scroll_offset;
        let (nl, np, ns) = match direction {
            MovementDirection::Left => {
                let k = if amount < l.x { amount } else { l.x };
                let on_screen = if k < p.x { k } else { p.x };
                (Position::new(l.x - k, l.y), Position::new(p.x - on_screen, p.y), Position::new(s.x - (k - on_screen), s.y))
            },
            MovementDirection::Right => {
                if l.y >= count {
                    return Err(MoveError::LineMissing);
                }
                let len = self.buffer.contents[l.y].as_str().unicode_len();
                if l.x < len {
                    let k = if amount < len - l.x { amount } else { len - l.x };
                    let room = w - 1 - p.x;
                    let on_screen = if k < room { k } else { room };
                    (Position::new(l.x + k, l.y), Position::new(p.x + on_screen, p.y), Position::new(s.x + (k - on_screen), s.y))
                } else {
                    (l, p, s)
                }
            },
            MovementDirection::Up => {
                let k = if amount < l.y { amount } else { l.y };
                let on_screen = if k < p.y { k } else { p.y };
                (Position::new(l.x, l.y - k), Position::new(p.x, p.y - on_screen), Position::new(s.x, s.y - (k - on_screen)))
            },
            MovementDirection::Down => {
                if l.y + 1 < count {
                    let k = if amount < count - 1 - l.y { amount } else { count - 1 - l.y };
                    let room = h - 1 - p.y;
                    let on_screen = if k < room { k } else { room };
                    (Position::new(l.x, l.y + k), Position::new(p.x, p.y + on_screen), Position::new(s.x, s.y + (k - on_screen)))
                } else {
                    (l, p, s)
                }
            },
            MovementDirection::Top => {
                if l.y == 0 || p.y == 0 {
                    (l, p, s)
                } else {
                    (Position::new(l.x, s.y), Position::new(p.x, 0), s)
                }
            },
            MovementDirection::Bottom => {
                if count == 0 || l.y >= count - 1 || p.y >= h - 1 {
                    (l, p, s)
                } else {
                    let visible = if h < count - s.y { h } else { count - s.y };
                    let last_row = visible - 1;
                    (Position::new(l.x, s.y + last_row), Position::new(p.x, last_row), s)
                }
            },
            MovementDirection::FullLeft => (Position::new(0, l.y), Position::new(0, p.y), Position::new(0, s.y)),
            MovementDirection::FullRight => {
                if l.y >= count {
                    return Err(MoveError::LineMissing);
                }
                let len = self.buffer.contents[l.y].as_str().unicode_len();
                if len < w {
                    (Position::new(len, l.y), Position::new(len, p.y), Position::new(0, s.y))
                } else {
                    (Position::new(len, l.y), Position::new(w - 1, p.y), Position::new(len - w + 1, s.y))
                }
            },
        };
        if nl != l || np != p || ns != s {
            self.needs_redraw = true;
        }
        self.location = nl;
        self.position = np;
        self.scroll_offset = ns;
        proof {
            lemma_move_keeps_wf(before, direction, amount);
        }
        Ok(())
    }

    /// Slides the viewport by `amount` along the axis of `direction`; the
    /// caret's fields are left to the caller. A redraw is owed afterwards.
    pub fn scroll(&mut self, direction: MovementDirection, amount: usize)
        ensures
            final(self).scroll_offset == old(self).scrolled(direction, amount),
            final(self).needs_redraw,
            final(self).buffer == old(self).buffer,
            final(self).location == old(self).location,
            final(self).position == old(self).position,
            final(self).width == old(self).width,
            final(self).height == old(self).height,
    {
        match direction {
            MovementDirection::Left => {
                self.scroll_offset.x = self.scroll_offset.x - if amount < self.scroll_offset.x {
                    amount
                } else {
                    self.scroll_offset.x
                };
            },
            MovementDirection::Right => {
                self.scroll_offset.x = self.scroll_offset.x.saturating_add(amount);
            },
            MovementDirection::Up => {
                self.scroll_offset.y = self.scroll_offset.y - if amount < self.scroll_offset.y {
                    amount
                } else {
                    self.scroll_offset.y
                };
            },
            MovementDirection::Down => {
                self.scroll_offset.y = self.scroll_offset.y.saturating_add(amount);
            },
            _ => {},
        }
        self.needs_redraw = true;
    }

    /// The visible part of the text, as half-open intervals `(start, end)`:
    /// rows `[scroll_offset.y, scroll_offset.y + height)` and columns
    /// `[scroll_offset.x, scroll_offset.x + width)`, an end saturating at the
    /// largest `usize`.
    pub fn visible_range(&self) -> (r: ((usize, usize), (usize, usize)))
        ensures
            r.0.0 == self.scroll_offset.y,
            r.0.1 == min(self.scroll_offset.y + self.height, usize::MAX as int),
            r.1.0 == self.scroll_offset.x,
            r.1.1 == min(self.scroll_offset.x + self.width, usize::MAX as int),
    {
        let s = self.scroll_offset;
        ((s.y, s.y.saturating_add(self.height as usize)), (s.x, s.x.saturating_add(self.width as usize)))
    }

    /// Takes the terminal's new size. The scroll offset and the caret stay as
    /// they are; bringing the caret back into view is the caller's part.
    pub fn update_terminal_size(&mut self, width: u16, height: u16)
        ensures
            final(self).width == width,
            final(self).height == height,
            final(self).needs_redraw,
            final(self).buffer == old(self).buffer,
            final(self).scroll_offset == old(self).scroll_offset,
            final(self).location == old(self).location,
            final(self).position == old(self).position,
    {
        self.height = height;
        self.width = width;
        self.needs_redraw = true;
    }

    /// Scrolls just far enough that the caret lies inside the viewport again,
    /// after the viewport shrank under it.
    pub fn keep_caret_visible(&mut self)
        requires
            old(self).buffer.fits(),
            old(self).caret_matches_scroll(),
            old(self).caret_on_line(),
            old(self).width > 0,
            old(self).height > 0,
        ensures
            final(self).scroll_offset == old(self).revealing_offset(),
            final(self).location == old(self).location,
            final(self).position == at(
                final(self).location.x - final(self).scroll_offset.x,
                final(self).location.y - final(self).scroll_offset.y,
            ),
            final(self).needs_redraw == (old(self).needs_redraw || final(self).scroll_offset
                != old(self).scroll_offset),
            final(self).buffer == old(self).buffer,
            final(self).width == old(self).width,
            final(self).height == old(self).height,
            final(self).wf(),
    {
        let w = self.width as usize;
        let h = self.height as usize;
        if self.position.x >= w {
            self.scroll_offset.x = self.location.x - (w - 1);
            self.position.x = w - 1;
            self.needs_redraw = true;
        }
        if self.position.y >= h {
            self.scroll_offset.y = self.location.y - (h - 1);
            self.position.y = h - 1;
            self.needs_redraw = true;
        }
    }
    /// The glyph drawn on a row that holds no text.
    pub fn draw_empty_line() -> (r: String)
        ensures
            r@ == seq!['~'],
    {
        proof {
            reveal_strlit("~");
        }
        "~".to_owned()
    }

    /// The text of `line` that falls inside the viewport's columns.
    pub fn draw_line(&self, line: &str) -> (r: String)
        ensures
            r@ == self.clipped(line@),
    {
        let len = line.unicode_len();
        let sx = self.scroll_offset.x;
        let w = self.width as usize;
        let start = if sx < len { sx } else { len };
        let end = if sx < len && w < len - sx { sx + w } else { len };
        line.substring_char(start, end).to_owned()
    }

    /// The frame of the content view: one entry per screen row, holding the
    /// part of the line shown there. No redraw is owed afterwards.
    pub fn render(&mut self) -> (rows: Vec<String>)
        requires
            old(self).buffer.fits(),
        ensures
            rows@.len() == old(self).height,
            forall|r: int| 0 <= r < rows@.len() ==> #[trigger] rows@[r]@ == old(self).visible_row(r),
            !final(self).needs_redraw,
            *final(self) == (View { needs_redraw: false, ..*old(self) }),
    {
        let mut rows: Vec<String> = Vec::new();
        let h = self.height as usize;
        let count = self.buffer.line_count();
        let sy = self.scroll_offset.y;
        let mut row: usize = 0;
        while row < h
            invariant
                row <= h,
                h == self.height,
                count == self.line_count_spec(),
                sy == self.scroll_offset.y,
                *self == *old(self),
                rows@.len() == row,
                forall|r: int| 0 <= r < row ==> #[trigger] rows@[r]@ == self.visible_row(r),
            decreases h - row,
        {
            let text = if sy < count && row < count - sy {
                self.draw_line(self.buffer.contents[sy + row].as_str())
            } else {
                String::new()
            };
            rows.push(text);
            row += 1;
        }
        self.needs_redraw = false;
        rows
    }

    /// The cells of the title banner: the product name, and the version one
    /// row below and two columns right of it.
    pub fn draw_title(&self) -> (r: (Position, Position))
        ensures
            r.0 == self.title_at(),
            r.1 == at(self.title_at().x + 2, self.title_at().y + 1),
    {
        let half = self.width as usize / 2;
        let third = self.height as usize / 3;
        let x = if half >= 2 { half - 2 } else { 0 };
        let y = if third >= 2 { third - 2 } else { 0 };
        (Position::new(x, y), Position::new(x + 2, y + 1))
    }

    /// The frame shown in place of an empty buffer: every row holds the
    /// empty-row glyph, under the banner's two cells. No redraw is owed
    /// afterwards.
    pub fn render_title_screen(&mut self) -> (r: TitleScreen)
        ensures
            r.rows@.len() == old(self).height,
            forall|i: int| 0 <= i < r.rows@.len() ==> #[trigger] r.rows@[i]@ == seq!['~'],
            r.name_at == old(self).title_at(),
            r.version_at == at(old(self).title_at().x + 2, old(self).title_at().y + 1),
            *final(self) == (View { needs_redraw: false, ..*old(self) }),
    {
        let mut rows: Vec<String> = Vec::new();
        let h = self.height as usize;
        let mut row: usize = 0;
        while row < h
            invariant
                row <= h,
                rows@.len() == row,
                forall|i: int| 0 <= i < row ==> #[trigger] rows@[i]@ == seq!['~'],
            decreases h - row,
        {
            rows.push(Self::draw_empty_line());
            row += 1;
        }
        let (name_at, version_at) = self.draw_title();
        self.needs_redraw = false;
        TitleScreen { rows, name_at, version_at }
    }

    /// Appends the lines of `file_contents` to the buffer, in order.
    pub fn fill_buffer(&mut self, file_contents: &str)
        requires
            old(self).buffer.fits(),
        ensures
            final(self).buffer.lines() == old(self).buffer.lines() + crate::buffer::lines_of(file_contents@),
            final(self).buffer.fits(),
            final(self).needs_redraw,
            final(self).scroll_offset == old(self).scroll_offset,
            final(self).location == old(self).location,
            final(self).position == old(self).position,
            final(self).width == old(self).width,
            final(self).height == old(self).height,
            old(self).wf() ==> final(self).wf(),
    {
        self.buffer.load(file_contents);
        self.needs_redraw = true;
    }
    /// Appends to `rows` the wrapped rows of `line`, and returns how many
    /// there were.
    pub fn draw_line_wrapped(&self, line: &str, rows: &mut Vec<String>) -> (used: usize)
        requires
            self.width > 0,
            line@.len() <= usize::MAX,
        ensures
            texts(final(rows)@) == texts(old(rows)@) + wrap_line(line@, self.width as nat),
            used == wrap_line(line@, self.width as nat).len(),
    {
        let w = self.width as usize;
        let len = line.unicode_len();
        let mut start: usize = 0;
        let mut used: usize = 1;
        assert(line@.skip(0) =~= line@);
        while len - start > w
            invariant
                w == self.width,
                w > 0,
                len == line@.len(),
                start <= len,
                used <= start + 1,
                texts(rows@) + wrap_line(line@.skip(start as int), w as nat) == texts(old(rows)@)
                    + wrap_line(line@, w as nat),
                used + wrap_line(line@.skip(start as int), w as nat).len() == wrap_line(line@, w as nat).len() + 1,
            decreases len - start,
        {
            let ghost rest = line@.skip(start as int);
            let piece = trim_text(line.substring_char(start, start + w));
            assert(line@.subrange(start as int, start + w) =~= rest.take(w as int));
            assert(rest.skip(w as int) =~= line@.skip(start + w));
            let ghost before = texts(rows@);
            rows.push(piece);
            assert(texts(rows@) =~= before.push(trimmed(rest.take(w as int))));
            assert(texts(rows@) + wrap_line(line@.skip(start + w), w as nat) =~= before + wrap_line(rest, w as nat));
            start = start + w;
            used = used + 1;
        }
        let ghost rest = line@.skip(start as int);
        let piece = trim_text(line.substring_char(start, len));
        assert(line@.subrange(start as int, len as int) =~= rest);
        let ghost before = texts(rows@);
        rows.push(piece);
        assert(texts(rows@) =~= before.push(trimmed(rest)));
        assert(texts(rows@) =~= before + wrap_line(rest, w as nat));
        used
    }

    /// The frame of the wrapped mode: from the first line on, each line
    /// takes as many rows as its wrapped pieces, until the rows or the lines
    /// run out. No redraw is owed afterwards.
    pub fn render_wrapped(&mut self) -> (rows: Vec<String>)
        requires
            old(self).buffer.fits(),
        ensures
            old(self).width > 0 ==> texts(rows@) == first_rows(
                wrapped_rows(old(self).buffer.lines(), old(self).width as nat),
                old(self).height as nat,
            ),
            old(self).width == 0 ==> rows@.len() == 0,
            *final(self) == (View { needs_redraw: false, ..*old(self) }),
    {
        let mut rows: Vec<String> = Vec::new();
        let h = self.height as usize;
        if self.width > 0 {
            let count = self.buffer.line_count();
            let ghost lines = self.buffer.lines();
            let mut text_line: usize = 0;
            assert(lines.skip(0) =~= lines);
            assert(texts(rows@) =~= Seq::<Seq<char>>::empty());
            while text_line < count && rows.len() < h
                invariant
                    *self == *old(self),
                    self.width > 0,
                    h == self.height,
                    count == lines.len(),
                    lines == self.buffer.lines(),
                    self.buffer.fits(),
                    text_line <= count,
                    texts(rows@) + wrapped_rows(lines.skip(text_line as int), self.width as nat)
                        == wrapped_rows(lines, self.width as nat),
                decreases count - text_line,
            {
                let ghost rest = lines.skip(text_line as int);
                assert(rest.drop_first() =~= lines.skip(text_line + 1));
                let _ = self.draw_line_wrapped(self.buffer.contents[text_line].as_str(), &mut rows);
                text_line += 1;
            }
            proof {
                if text_line == count {
                    assert(lines.skip(text_line as int) =~= Seq::<Seq<char>>::empty());
                    assert(texts(rows@) =~= wrapped_rows(lines, self.width as nat));
                }
            }
            let ghost all = wrapped_rows(lines, self.width as nat);
            rows.truncate(h);
            assert(texts(rows@) =~= first_rows(all, h as nat));
        }
        self.needs_redraw = false;
        rows
    }
}

/// Every movement keeps the caret's screen cell equal to its location minus
/// the scroll offset, keeps that cell inside the viewport, and keeps the caret
/// on a line of the buffer.
pub proof fn lemma_move_keeps_wf(v: View, d: MovementDirection, n: usize)
    requires
        v.wf(),
    ensures
        v.moved(d, n).wf(),
{
    match d {
        MovementDirection::Left => {
            let k = min(n as int, v.location.x as int);
            let on_screen = min(k, v.position.x as int);
            assert(0 <= k - on_screen <= v.scroll_offset.x);
            assert(v.moved(d, n).wf());
        },
        MovementDirection::Right => {
            assert(v.moved(d, n).wf());
        },
        MovementDirection::Up => {
            assert(v.moved(d, n).wf());
        },
        MovementDirection::Down => {
            assert(v.moved(d, n).wf());
        },
        MovementDirection::Top => {
            assert(v.moved(d, n).wf());
        },
        MovementDirection::Bottom => {
            assert(v.moved(d, n).wf());
        },
        MovementDirection::FullLeft => {
            assert(v.moved(d, n).wf());
        },
        MovementDirection::FullRight => {
            assert(v.moved(d, n).wf());
        },
    }
}

/// The view after the moves of `moves`, in order.
pub open spec fn after_moves(v: View, moves: Seq<(MovementDirection, usize)>) -> View
    decreases moves.len(),
{
    if moves.len() == 0 {
        v
    } else {
        after_moves(v.moved(moves[0].0, moves[0].1), moves.drop_first())
    }
}

/// After any sequence of movements the caret's screen cell is its location
/// minus the scroll offset, and lies within the viewport.
pub proof fn lemma_moves_keep_caret_on_screen(v: View, moves: Seq<(MovementDirection, usize)>)
    requires
        v.wf(),
    ensures
        after_moves(v, moves).wf(),
        after_moves(v, moves).position.x + after_moves(v, moves).scroll_offset.x == after_moves(v, moves).location.x,
        after_moves(v, moves).position.y + after_moves(v, moves).scroll_offset.y == after_moves(v, moves).location.y,
        after_moves(v, moves).position.x < v.width,
        after_moves(v, moves).position.y < v.height,
    decreases moves.len(),
{
    if moves.len() > 0 {
        lemma_move_keeps_wf(v, moves[0].0, moves[0].1);
        lemma_moves_keep_caret_on_screen(v.moved(moves[0].0, moves[0].1), moves.drop_first());
    }
}

/// Scrolling back saturates: the offset drops by the amount, or to zero where
/// the amount is larger, and so never goes below zero.
pub proof fn lemma_scroll_back_saturates(v: View, n: usize)
    ensures
        v.scrolled(MovementDirection::Left, n).x == if n <= v.scroll_offset.x {
            v.scroll_offset.x - n
        } else {
            0
        },
        v.scrolled(MovementDirection::Up, n).y == if n <= v.scroll_offset.y {
            v.scroll_offset.y - n
        } else {
            0
        },
        v.scroll_offset.x == 0 ==> v.scrolled(MovementDirection::Left, n) == v.scroll_offset,
        v.scroll_offset.y == 0 ==> v.scrolled(MovementDirection::Up, n) == v.scroll_offset,
{
}

/// Moving left with the caret at the start of its line and the viewport
/// scrolled fully left changes nothing, the redraw flag included.
pub proof fn lemma_left_at_line_start_changes_nothing(v: View, n: usize)
    requires
        v.wf(),
        v.location.x == 0,
        v.scroll_offset.x == 0,
    ensures
        v.moved(MovementDirection::Left, n) == v,
{
}

/// Moving right advances the caret by the amount, but never past the end of
/// its line: it stops at the line's length.
pub proof fn lemma_right_stops_at_line_end(v: View, n: usize)
    requires
        v.wf(),
        v.location.y < v.line_count_spec(),
        v.location.x <= v.line_len(v.location.y as int),
    ensures
        v.moved(MovementDirection::Right, n).location.x == min(
            v.location.x + n,
            v.line_len(v.location.y as int),
        ),
        v.moved(MovementDirection::Right, n).location.x <= v.line_len(v.location.y as int),
        v.moved(MovementDirection::Right, n).location.y == v.location.y,
{
}

} // verus!
