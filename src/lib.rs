//! A small terminal text editor: a line buffer, a cursor and scroll engine,
//! a renderer that produces the visible window, and the controller that
//! turns input intents into state changes.

pub mod buffer;
pub mod view;
pub mod editor;

pub use buffer::{Buffer, Location, SaveError, SaveRequest};
pub use view::{Direction, Size, View};
pub use editor::{Editor, Frame, Intent};

