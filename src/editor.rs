use vstd::prelude::*;
use vstd::view::View as _;
use crate::buffer::inserted;
use crate::view::{Direction, Size, View, moved, rendered, rows_of, scrolled};

verus! {

/// What an input event asks of the editor, decoded once at the boundary.
#[derive(Clone, Copy, Debug, PartialEq, Eq, Structural)]
pub enum Intent {
    Quit,
    Move(Direction),
    Insert(char),
    Resize,
    Ignored,
}

/// What one refresh shows: the rows drawn, if the picture was stale, and
/// where the cursor goes on the screen.
pub struct Frame {
    pub rows: Option<Vec<String>>,
    pub cursor_col: u16,
    pub cursor_row: u16,
}

/// The controller: the viewport it drives and whether it is quitting.
pub struct Editor {
    quitting: bool,
    view: View,
}

/// The viewport is the same in every observed part.
pub open spec fn same_view(a: View, b: View) -> bool {
    &&& a.lines() == b.lines()
    &&& a.path() == b.path()
    &&& a.location() == b.location()
    &&& a.offset() == b.offset()
    &&& a.dirty() == b.dirty()
}

/// How `intent` takes the viewport from `before` to `after` in a terminal of
/// `size`. A move steps the cursor and scrolls, an insertion edits at the
/// cursor, a resize scrolls; each marks the picture stale. Quitting and
/// ignored input leave the viewport alone.
pub open spec fn applied(before: View, after: View, intent: Intent, size: Size) -> bool {
    match intent {
        Intent::Move(d) => {
            let loc = moved(before.lines(), before.location(), d);
            &&& after.location() == loc
            &&& after.offset() == scrolled(loc, before.offset(), size)
            &&& after.lines() == before.lines()
            &&& after.path() == before.path()
            &&& after.dirty()
        },
        Intent::Insert(c) => {
            &&& after.lines() == inserted(before.lines(), c, before.location())
            &&& after.location() == before.location()
            &&& after.offset() == before.offset()
            &&& after.path() == before.path()
            &&& after.dirty()
        },
        Intent::Resize => {
            &&& after.offset() == scrolled(before.location(), before.offset(), size)
            &&& after.location() == before.location()
            &&& after.lines() == before.lines()
            &&& after.path() == before.path()
            &&& after.dirty()
        },
        Intent::Quit | Intent::Ignored => same_view(before, after),
    }
}

impl Editor {
    pub closed spec fn viewport(&self) -> View {
        self.view
    }

    pub closed spec fn quitting(&self) -> bool {
        self.quitting
    }

    pub open spec fn wf(&self) -> bool {
        self.viewport().wf()
    }

    /// A running editor over `view`.
    pub fn new(view: View) -> (r: Editor)
        requires
            view.wf(),
        ensures
            r.wf(),
            r.viewport() == view,
            !r.quitting(),
    {
        Editor { quitting: false, view }
    }

    pub fn view(&self) -> (r: &View)
        ensures
            *r == self.viewport(),
    {
        &self.view
    }

    pub fn is_quitting(&self) -> (r: bool)
        ensures
            r == self.quitting(),
    {
        self.quitting
    }

    /// Applies one intent in a terminal of `size`.
    pub fn evaluate_event(&mut self, intent: Intent, size: Size)
        requires
            old(self).wf(),
        ensures
            final(self).wf(),
            applied(old(self).viewport(), final(self).viewport(), intent, size),
            final(self).quitting() == (old(self).quitting() || intent == Intent::Quit),
    {
        match intent {
            Intent::Quit => {
                self.quitting = true;
            },
            Intent::Move(d) => {
                self.view.move_cursor_press(d, size);
            },
            Intent::Insert(c) => {
                self.view.insert(c);
            },
            Intent::Resize => {
                self.view.resize(size);
            },
            Intent::Ignored => {},
        }
    }

    /// Renders the viewport in a terminal of `size` and places the cursor.
    pub fn refresh_screen(&mut self, size: Size) -> (r: Frame)
        requires
            old(self).wf(),
        ensures
            final(self).wf(),
            rendered(old(self).viewport(), final(self).viewport(), rows_of(r.rows), size),
            r.cursor_col == old(self).viewport().location().x - old(self).viewport().offset().x,
            r.cursor_row == old(self).viewport().location().y - old(self).viewport().offset().y,
            final(self).quitting() == old(self).quitting(),
    {
        let rows = self.view.render(size);
        let (cursor_col, cursor_row) = self.view.get_location();
        Frame { rows, cursor_col, cursor_row }
    }
}

} // verus!
