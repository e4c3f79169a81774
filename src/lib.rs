//! The editing core of a small modal terminal text editor: line buffers with
//! a cursor, a tabbed collection of buffers, an action menu, and the router
//! that sends each key press to the surface the current mode selects.

pub mod app;
pub mod buffer;
pub mod file_manager;
pub mod input;
pub mod keys;
pub mod navigation;
pub mod text;

pub use app::{handle_event, App, Context, WindowState};
pub use buffer::{FileWindow, SaveRequest, StorageError, CURSOR_MARKER, DISPLAY_ROWS};
pub use file_manager::FileManagerWindow;
pub use input::{poll_timeout, tick_due, OVERDUE_WAIT_MS};
pub use keys::{InputEvent, Key, KeyEvent, Window, ALT, CONTROL, SHIFT};
pub use text::{join_lines, split_lines};
pub use navigation::{ActionMenuWindow, NavigationWindow, ACTION_COUNT};
