use vstd::prelude::*;
use vstd::view::View as _;
use crate::buffer::{Buffer, Location, SaveError, SaveRequest, inserted, line_len, split_lines, text_of};

verus! {

/// A direction of cursor movement.
#[derive(Clone, Copy, Debug, PartialEq, Eq, Structural)]
pub enum Direction {
    Up,
    Down,
    Left,
    Right,
}

/// A terminal's size in character cells.
#[derive(Clone, Copy, Debug, PartialEq, Eq, Structural)]
pub struct Size {
    pub cols: u16,
    pub rows: u16,
}

/// The cursor and scroll state over a document, with the flag that marks the
/// shown picture as stale.
pub struct View {
    buffer: Buffer,
    redraw: bool,
    location: Location,
    offset: Location,
}

/// The smaller of two integers.
pub open spec fn min(a: int, b: int) -> int {
    if a < b {
        a
    } else {
        b
    }
}

/// The cursor lies on an existing row or on the append row, and not past the
/// end of its line.
pub open spec fn in_bounds(lines: Seq<Seq<char>>, loc: Location) -> bool {
    loc.y <= lines.len() && loc.x <= line_len(lines, loc.y as int)
}

/// Where one step in `dir` takes the cursor. Vertical steps keep the row in
/// `[0, line count]` and snap the column to the landing line's end; horizontal
/// steps never leave the line.
pub open spec fn moved(lines: Seq<Seq<char>>, loc: Location, dir: Direction) -> Location {
    match dir {
        Direction::Up => {
            let y = if loc.y > 0 { loc.y - 1 } else { 0 };
            Location { x: min(loc.x as int, line_len(lines, y) as int) as u16, y: y as u16 }
        },
        Direction::Down => {
            let y = min(min(loc.y + 1, u16::MAX as int), lines.len() as int);
            Location { x: min(loc.x as int, line_len(lines, y) as int) as u16, y: y as u16 }
        },
        Direction::Left => Location { x: if loc.x > 0 { (loc.x - 1) as u16 } else { 0 }, y: loc.y },
        Direction::Right => Location {
            x: min(min(loc.x + 1, u16::MAX as int), line_len(lines, loc.y as int) as int) as u16,
            y: loc.y,
        },
    }
}

/// Where a sequence of steps takes the cursor.
pub open spec fn moved_all(lines: Seq<Seq<char>>, loc: Location, dirs: Seq<Direction>) -> Location
    decreases dirs.len(),
{
    if dirs.len() == 0 {
        loc
    } else {
        moved(lines, moved_all(lines, loc, dirs.drop_last()), dirs.last())
    }
}

/// The least change of the first shown cell `off` on one axis that keeps
/// `pos` among the `n` shown cells.
pub open spec fn scroll_axis(pos: int, off: int, n: int) -> int {
    if pos < off {
        pos
    } else if pos >= off + n {
        if n > 0 {
            pos - n + 1
        } else {
            pos
        }
    } else {
        off
    }
}

/// The scroll offset after fitting the window of `size` around `loc`.
pub open spec fn scrolled(loc: Location, off: Location, size: Size) -> Location {
    Location {
        x: scroll_axis(loc.x as int, off.x as int, size.cols as int) as u16,
        y: scroll_axis(loc.y as int, off.y as int, size.rows as int) as u16,
    }
}

/// The cursor is inside the window of `size` that starts at `off`.
pub open spec fn fits(loc: Location, off: Location, size: Size) -> bool {
    &&& off.y <= loc.y < off.y + size.rows
    &&& off.x <= loc.x < off.x + size.cols
}

/// The text of the welcome banner.
pub open spec fn banner() -> Seq<char> {
    "Welcome to RustyText!"@
}

/// The banner row: a marker, the banner centred in `cols` cells, cut to `cols`.
pub open spec fn banner_row(cols: int) -> Seq<char> {
    let pad = if cols > banner().len() { (cols - banner().len()) / 2 } else { 0 };
    let full = seq!['~'] + Seq::new(pad as nat, |i: int| ' ') + banner();
    full.take(min(cols, full.len() as int))
}

/// The part of `l` in columns `[left, left + cols)`.
pub open spec fn slice_row(l: Seq<char>, left: int, cols: int) -> Seq<char> {
    l.subrange(min(left, l.len() as int), min(left + cols, l.len() as int))
}

/// The rows shown for `lines` scrolled to `off` in a terminal of `size`. An
/// empty document shows the banner a third of the way down and markers
/// elsewhere; otherwise each row shows its slice of a line, or a marker past
/// the document's end.
pub open spec fn frame_rows(lines: Seq<Seq<char>>, off: Location, size: Size) -> Seq<Seq<char>> {
    if lines.len() == 0 {
        Seq::new(
            size.rows as nat,
            |i: int| if i == size.rows / 3 { banner_row(size.cols as int) } else { seq!['~'] },
        )
    } else {
        Seq::new(
            size.rows as nat,
            |i: int|
                if i + off.y < lines.len() {
                    slice_row(lines[i + off.y], off.x as int, size.cols as int)
                } else {
                    seq!['~']
                },
        )
    }
}

/// The characters of each row handed out.
pub open spec fn rows_of(r: Option<Vec<String>>) -> Option<Seq<Seq<char>>> {
    match r {
        Some(v) => Some(v@.map_values(|s: String| s@)),
        None => None,
    }
}

/// The state after a render from `before`, with the rows it handed out:
/// nothing but the stale mark changes, and rows come out exactly when the
/// picture was stale.
pub open spec fn rendered(
    before: View,
    after: View,
    out: Option<Seq<Seq<char>>>,
    size: Size,
) -> bool {
    &&& after.lines() == before.lines()
    &&& after.path() == before.path()
    &&& after.location() == before.location()
    &&& after.offset() == before.offset()
    &&& !after.dirty()
    &&& out == if before.dirty() {
        Some(frame_rows(before.lines(), before.offset(), size))
    } else {
        None
    }
}

impl View {
    pub closed spec fn lines(&self) -> Seq<Seq<char>> {
        self.buffer.model()
    }

    pub closed spec fn path(&self) -> Option<Seq<char>> {
        self.buffer.path()
    }

    pub closed spec fn location(&self) -> Location {
        self.location
    }

    pub closed spec fn offset(&self) -> Location {
        self.offset
    }

    pub closed spec fn dirty(&self) -> bool {
        self.redraw
    }

    /// The cursor is in bounds and the scroll offset does not pass it.
    pub open spec fn wf(&self) -> bool {
        &&& in_bounds(self.lines(), self.location())
        &&& self.offset().x <= self.location().x
        &&& self.offset().y <= self.location().y
    }

    /// An empty document, cursor and scroll at the origin, to be drawn.
    pub fn new() -> (r: View)
        ensures
            r.wf(),
            r.lines() == Seq::<Seq<char>>::empty(),
            r.path() is None,
            r.location() == (Location { x: 0, y: 0 }),
            r.offset() == (Location { x: 0, y: 0 }),
            r.dirty(),
    {
        View {
            buffer: Buffer::new(),
            redraw: true,
            location: Location { x: 0, y: 0 },
            offset: Location { x: 0, y: 0 },
        }
    }

    /// Length of line `row` as a cursor column, saturated at the largest one.
    fn line_len_u16(&self, row: u16) -> (r: u16)
        ensures
            r == min(line_len(self.lines(), row as int) as int, u16::MAX as int),
    {
        let len = self.buffer.line_length(row as usize);
        if len > u16::MAX as usize {
            u16::MAX
        } else {
            len as u16
        }
    }

    /// Moves the cursor one step in `dir`, scrolls the window of `size` around
    /// it, and marks the picture stale.
    pub fn move_cursor_press(&mut self, dir: Direction, size: Size)
        requires
            old(self).wf(),
        ensures
            final(self).wf(),
            final(self).location() == moved(old(self).lines(), old(self).location(), dir),
            final(self).offset() == scrolled(final(self).location(), old(self).offset(), size),
            size.rows > 0 && size.cols > 0 ==> fits(final(self).location(), final(self).offset(), size),
            final(self).lines() == old(self).lines(),
            final(self).path() == old(self).path(),
            final(self).dirty(),
    {
        let Location { mut x, mut y } = self.location;
        match dir {
            Direction::Up => {
                y = if y > 0 { y - 1 } else { 0 };
                let len = self.line_len_u16(y);
                x = if x < len { x } else { len };
            },
            Direction::Down => {
                y = if y < u16::MAX { y + 1 } else { y };
                let count = self.buffer.line_count();
                if (y as usize) > count {
                    y = count as u16;
                }
                let len = self.line_len_u16(y);
                x = if x < len { x } else { len };
            },
            Direction::Left => {
                x = if x > 0 { x - 1 } else { 0 };
            },
            Direction::Right => {
                x = if x < u16::MAX { x + 1 } else { x };
                let len = self.line_len_u16(y);
                x = if x < len { x } else { len };
            },
        }
        self.location = Location { x, y };
        self.scroll(size);
        self.redraw = true;
    }

    /// Moves the scroll offset as little as needed for the cursor to show in
    /// a terminal of `size`; the picture is marked stale when the offset moved.
    pub fn scroll(&mut self, size: Size)
        ensures
            final(self).offset() == scrolled(old(self).location(), old(self).offset(), size),
            size.rows > 0 && size.cols > 0 ==> fits(final(self).location(), final(self).offset(), size),
            final(self).offset().x <= final(self).location().x,
            final(self).offset().y <= final(self).location().y,
            final(self).wf() == in_bounds(old(self).lines(), old(self).location()),
            final(self).dirty() == (old(self).dirty() || final(self).offset() != old(self).offset()),
            final(self).location() == old(self).location(),
            final(self).lines() == old(self).lines(),
            final(self).path() == old(self).path(),
    {
        let y = scroll_axis_exec(self.location.y, self.offset.y, size.rows);
        let x = scroll_axis_exec(self.location.x, self.offset.x, size.cols);
        if y != self.offset.y || x != self.offset.x {
            self.offset = Location { x, y };
            self.redraw = true;
        }
    }

    /// The rows shown for a non-empty document in a terminal of `size`.
    fn render_buffer(&self, size: Size) -> (r: Vec<String>)
        requires
            self.lines().len() > 0,
        ensures
            r@.map_values(|s: String| s@) == frame_rows(self.lines(), self.offset(), size),
    {
        let top = self.offset.y as usize;
        let left = self.offset.x as usize;
        let mut rows: Vec<String> = Vec::new();
        let mut i: u16 = 0;
        while i < size.rows
            invariant
                i <= size.rows,
                rows@.len() == i,
                top == self.offset().y,
                left == self.offset().x,
                self.lines().len() > 0,
                forall|k: int|
                    0 <= k < i ==> (#[trigger] rows@[k])@ == frame_rows(self.lines(), self.offset(), size)[k],
            decreases size.rows - i,
        {
            let row = i as usize + top;
            if row < self.buffer.line_count() {
                let line = self.buffer.line(row);
                let len = line.unicode_len();
                let start: usize = if left < len { left } else { len };
                let end: usize = if left + (size.cols as usize) < len { left + size.cols as usize } else { len };
                rows.push(String::from_str(line.substring_char(start, end)));
            } else {
                proof {
                    reveal_strlit("~");
                }
                rows.push(String::from_str("~"));
            }
            i = i + 1;
        }
        assert(rows@.map_values(|s: String| s@) =~= frame_rows(self.lines(), self.offset(), size));
        rows
    }

    /// Draws the window of `size` when the picture is stale, and marks it
    /// fresh; does nothing when it is fresh.
    pub fn render(&mut self, size: Size) -> (r: Option<Vec<String>>)
        ensures
            rendered(*old(self), *final(self), rows_of(r), size),
            final(self).wf() == old(self).wf(),
    {
        if !self.redraw {
            return None;
        }
        let rows = if self.buffer.is_empty() {
            render_welcome(size)
        } else {
            self.render_buffer(size)
        };
        self.redraw = false;
        Some(rows)
    }

    /// Replaces the document with the one read from `contents`, tied to the
    /// file `file_name`; cursor and scroll go back to the origin.
    pub fn load(&mut self, file_name: &str, contents: &str)
        ensures
            final(self).wf(),
            final(self).lines() == split_lines(contents@),
            final(self).path() == Some(file_name@),
            final(self).location() == (Location { x: 0, y: 0 }),
            final(self).offset() == (Location { x: 0, y: 0 }),
            final(self).dirty(),
    {
        self.buffer = Buffer::load(file_name, contents);
        self.location = Location { x: 0, y: 0 };
        self.offset = Location { x: 0, y: 0 };
        self.redraw = true;
    }

    /// Fits the window to a terminal that now has `size`, and marks the
    /// picture stale.
    pub fn resize(&mut self, size: Size)
        requires
            old(self).wf(),
        ensures
            final(self).wf(),
            final(self).offset() == scrolled(old(self).location(), old(self).offset(), size),
            size.rows > 0 && size.cols > 0 ==> fits(final(self).location(), final(self).offset(), size),
            final(self).location() == old(self).location(),
            final(self).lines() == old(self).lines(),
            final(self).path() == old(self).path(),
            final(self).dirty(),
    {
        self.scroll(size);
        self.redraw = true;
    }

    /// The cursor in buffer coordinates.
    pub fn cursor(&self) -> (r: Location)
        ensures
            r == self.location(),
    {
        self.location
    }

    /// The buffer coordinate shown at the top-left cell.
    pub fn scroll_offset(&self) -> (r: Location)
        ensures
            r == self.offset(),
    {
        self.offset
    }

    /// Whether the shown picture is stale.
    pub fn needs_redraw(&self) -> (r: bool)
        ensures
            r == self.dirty(),
    {
        self.redraw
    }

    pub fn buffer(&self) -> (r: &Buffer)
        ensures
            r.model() == self.lines(),
            r.path() == self.path(),
    {
        &self.buffer
    }

    /// The cursor's position on the screen: column and row.
    pub fn get_location(&self) -> (r: (u16, u16))
        requires
            self.wf(),
        ensures
            r.0 == self.location().x - self.offset().x,
            r.1 == self.location().y - self.offset().y,
    {
        (self.location.x - self.offset.x, self.location.y - self.offset.y)
    }

    /// Inserts `character` at the cursor, which stays where it is, and marks
    /// the picture stale.
    pub fn insert(&mut self, character: char)
        requires
            old(self).wf(),
        ensures
            final(self).wf(),
            final(self).lines() == inserted(old(self).lines(), character, old(self).location()),
            final(self).location() == old(self).location(),
            final(self).offset() == old(self).offset(),
            final(self).path() == old(self).path(),
            final(self).dirty(),
    {
        self.buffer.insert(character, self.location);
        self.redraw = true;
        proof {
            let l = old(self).lines();
            let n = self.lines();
            let loc = self.location;
            if loc.y < l.len() {
                assert(n[loc.y as int].len() == l[loc.y as int].len() + 1);
            }
        }
    }

    /// What storing the document writes, or `NoDestination` when it is tied
    /// to no file.
    pub fn save(&self) -> (r: Result<SaveRequest, SaveError>)
        ensures
            self.path() is None ==> r == Err::<SaveRequest, SaveError>(SaveError::NoDestination),
            self.path() is Some ==> r is Ok,
            r matches Ok(req) ==> Some(req.path@) == self.path() && req.text@ == text_of(self.lines()),
    {
        self.buffer.save()
    }
}

impl Default for View {
    fn default() -> (r: View)
        ensures
            r.wf(),
            r.lines() == Seq::<Seq<char>>::empty(),
            r.path() is None,
            r.location() == (Location { x: 0, y: 0 }),
            r.offset() == (Location { x: 0, y: 0 }),
            r.dirty(),
    {
        View::new()
    }
}


/// One cursor step keeps the cursor in bounds.
pub proof fn lemma_move_in_bounds(lines: Seq<Seq<char>>, loc: Location, dir: Direction)
    requires
        in_bounds(lines, loc),
    ensures
        in_bounds(lines, moved(lines, loc, dir)),
{
}

/// Any sequence of cursor steps from an in-bounds position keeps the row in
/// `[0, line count]` and the column in `[0, length of that row]`.
pub proof fn lemma_moves_in_bounds(lines: Seq<Seq<char>>, loc: Location, dirs: Seq<Direction>)
    requires
        in_bounds(lines, loc),
    ensures
        in_bounds(lines, moved_all(lines, loc, dirs)),
    decreases dirs.len(),
{
    if dirs.len() > 0 {
        lemma_moves_in_bounds(lines, loc, dirs.drop_last());
        lemma_move_in_bounds(lines, moved_all(lines, loc, dirs.drop_last()), dirs.last());
    }
}

/// After scrolling, the cursor lies inside the window on both axes, for any
/// terminal with at least one row and one column.
pub proof fn lemma_scroll_fits(loc: Location, off: Location, size: Size)
    requires
        size.rows > 0,
        size.cols > 0,
    ensures
        fits(loc, scrolled(loc, off, size), size),
{
}

/// Rendering twice with nothing in between draws once: the second render
/// hands out no rows and changes nothing.
pub proof fn lemma_render_twice(
    v0: View,
    v1: View,
    v2: View,
    out1: Option<Seq<Seq<char>>>,
    out2: Option<Seq<Seq<char>>>,
    size1: Size,
    size2: Size,
)
    requires
        rendered(v0, v1, out1, size1),
        rendered(v1, v2, out2, size2),
    ensures
        out2 is None,
        v2.lines() == v1.lines(),
        v2.path() == v1.path(),
        v2.location() == v1.location(),
        v2.offset() == v1.offset(),
        v2.dirty() == v1.dirty(),
{
}

/// The banner row for a terminal `cols` cells wide.
fn welcome_line(cols: u16) -> (r: String)
    ensures
        r@ == banner_row(cols as int),
{
    let text = "Welcome to RustyText!";
    proof {
        reveal_strlit("Welcome to RustyText!");
        reveal_strlit("~");
    }
    let len = text.unicode_len();
    let pad: usize = if cols as usize > len { (cols as usize - len) / 2 } else { 0 };
    let mut line = String::from_str("~");
    let mut i: usize = 0;
    while i < pad
        invariant
            i <= pad,
            line@ == seq!['~'] + Seq::new(i as nat, |k: int| ' '),
        decreases pad - i,
    {
        line.append(" ");
        proof {
            reveal_strlit(" ");
            assert(seq!['~'] + Seq::new((i + 1) as nat, |k: int| ' ') =~= line@);
        }
        i = i + 1;
    }
    line.append(text);
    let n = line.as_str().unicode_len();
    let keep: usize = if (cols as usize) < n { cols as usize } else { n };
    let r = String::from_str(line.as_str().substring_char(0, keep));
    assert(r@ =~= banner_row(cols as int));
    r
}

/// The rows shown for an empty document.
fn render_welcome(size: Size) -> (r: Vec<String>)
    ensures
        r@.map_values(|s: String| s@) == frame_rows(Seq::empty(), Location { x: 0, y: 0 }, size),
{
    let mut rows: Vec<String> = Vec::new();
    let mut i: u16 = 0;
    while i < size.rows
        invariant
            i <= size.rows,
            rows@.len() == i,
            forall|k: int|
                0 <= k < i ==> (#[trigger] rows@[k])@ == (if k == size.rows / 3 {
                    banner_row(size.cols as int)
                } else {
                    seq!['~']
                }),
        decreases size.rows - i,
    {
        if i == size.rows / 3 {
            rows.push(welcome_line(size.cols));
        } else {
            proof {
                reveal_strlit("~");
            }
            rows.push(String::from_str("~"));
        }
        i = i + 1;
    }
    assert(rows@.map_values(|s: String| s@) =~= frame_rows(Seq::empty(), Location { x: 0, y: 0 }, size));
    rows
}

/// The new first shown cell on one axis: see `scroll_axis`.
fn scroll_axis_exec(pos: u16, off: u16, n: u16) -> (r: u16)
    ensures
        r == scroll_axis(pos as int, off as int, n as int),
{
    if pos < off {
        pos
    } else if pos as u32 >= off as u32 + n as u32 {
        if n > 0 {
            pos - n + 1
        } else {
            pos
        }
    } else {
        off
    }
}

} // verus!
