//! Rendering and navigation core of a terminal line viewer: a buffer of text
//! lines, a caret with its logical and on-screen coordinates, a scrolled
//! viewport, the frames drawn from them, and the editor's event handling.

pub mod buffer;
pub mod editor;
pub mod terminal;
pub mod user_configuration;
pub mod view;

pub use buffer::Buffer;
pub use editor::{Command, Editor, EditorAction, EditorEvent, EditorMode, Frame, KeyCode, KeyPress};
pub use terminal::{MovementDirection, Position};
pub use user_configuration::UserControls;
pub use view::{MoveError, TitleScreen, View};
