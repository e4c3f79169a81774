use vstd::prelude::*;

use crate::file_manager::FileManagerWindow;
use crate::keys::{InputEvent, Key, KeyEvent, Window, CONTROL};
use crate::navigation::{ActionMenuWindow, NavigationWindow};

verus! {

/// Which surface takes the keys.
#[derive(Clone, Copy, Debug, PartialEq, Eq, Structural)]
pub enum WindowState {
    Editor,
    FileMenu,
    Navigation,
}

/// Whether `key` with `keyflags` is the key that switches between the editor
/// and the menu: Control-b.
pub open spec fn is_toggle(key: Key, keyflags: u8) -> bool {
    key == Key::Char('b') && keyflags == CONTROL
}

/// The mode after the switch key: the menu, or back to the editor from it.
pub open spec fn toggled(w: WindowState) -> WindowState {
    if w != WindowState::Navigation {
        WindowState::Navigation
    } else {
        WindowState::Editor
    }
}

/// The state that lives as long as the program: the screen size, the mode,
/// the open files and the menu.
#[derive(Debug)]
pub struct Context {
    pub width: u16,
    pub height: u16,
    pub current_window: WindowState,
    pub file_manager_window: FileManagerWindow,
    pub navigation_window: NavigationWindow,
}

/// The editor: a title, whether it is to stop, and its state.
#[derive(Debug)]
pub struct App {
    pub title: String,
    pub should_quit: bool,
    pub context: Context,
}

impl App {
    /// The open files and the menu are well formed.
    pub open spec fn wf(&self) -> bool {
        &&& self.context.file_manager_window.wf()
        &&& self.context.navigation_window.wf()
    }

    /// `next` is `self` after `key` with the `keyflags` modifiers, and
    /// `requested` the menu action it asked for: the switch key flips the
    /// mode and does nothing else; any other key goes to the surface of the
    /// current mode, and none in the file menu mode.
    pub open spec fn keyboard_handled(
        &self,
        next: &App,
        key: Key,
        keyflags: u8,
        requested: Option<ActionMenuWindow>,
    ) -> bool {
        let c = self.context;
        let d = next.context;
        &&& next.title == self.title
        &&& next.should_quit == self.should_quit
        &&& d.width == c.width
        &&& d.height == c.height
        &&& if is_toggle(key, keyflags) {
            &&& d.current_window == toggled(c.current_window)
            &&& d.file_manager_window == c.file_manager_window
            &&& d.navigation_window == c.navigation_window
            &&& requested is None
        } else {
            &&& d.current_window == c.current_window
            &&& match c.current_window {
                WindowState::Editor => {
                    &&& c.file_manager_window.handles(
                        &d.file_manager_window,
                        key,
                        keyflags,
                        requested,
                    )
                    &&& d.navigation_window == c.navigation_window
                },
                WindowState::Navigation => {
                    &&& c.navigation_window.handles(
                        &d.navigation_window,
                        key,
                        keyflags,
                        requested,
                    )
                    &&& d.file_manager_window == c.file_manager_window
                },
                WindowState::FileMenu => {
                    &&& d.file_manager_window == c.file_manager_window
                    &&& d.navigation_window == c.navigation_window
                    &&& requested is None
                },
            }
        }
    }

    /// The editor titled `title`, in the editor mode, with two blank files
    /// (one empty line each, cursor at its start, no path), the first one
    /// current, and nothing highlighted in the menu.
    pub fn new(title: &str) -> (app: App)
        ensures
            app.wf(),
            app.title@ == title@,
            !app.should_quit,
            app.context.width == 0,
            app.context.height == 0,
            app.context.current_window == WindowState::Editor,
            app.context.file_manager_window.current_file_index == 0,
            app.context.file_manager_window.file_list@.len() == 2,
            forall|i: int|
                0 <= i < app.context.file_manager_window.file_list@.len()
                    ==> (#[trigger] app.context.file_manager_window.file_list@[i]).is_blank(),
            app.context.navigation_window.selected is None,
    {
        App {
            title: String::from_str(title),
            should_quit: false,
            context: Context {
                width: 0,
                height: 0,
                current_window: WindowState::Editor,
                file_manager_window: FileManagerWindow::new(),
                navigation_window: NavigationWindow::new(),
            },
        }
    }

    /// A plain character outside the key routing: it changes nothing.
    pub fn on_key(&mut self, c: char)
        ensures
            *final(self) == *old(self),
    {
    }

    /// A tick of the clock: it changes nothing.
    pub fn on_tick(&mut self)
        ensures
            *final(self) == *old(self),
    {
    }

    /// Routes one key press: the switch key flips between the editor and
    /// the menu, before any meaning the key has in a mode; any other key
    /// goes to the surface of the current mode. Returns the menu action the
    /// key asked for, if any.
    pub fn handle_keyboard_event(&mut self, key: Key, keyflags: u8) -> (requested: Option<
        ActionMenuWindow,
    >)
        requires
            old(self).wf(),
        ensures
            final(self).wf(),
            old(self).keyboard_handled(final(self), key, keyflags, requested),
    {
        if key == Key::Char('b') && keyflags == CONTROL {
            if self.context.current_window != WindowState::Navigation {
                self.context.current_window = WindowState::Navigation;
            } else {
                self.context.current_window = WindowState::Editor;
            }
            None
        } else {
            match self.context.current_window {
                WindowState::Editor => self.context.file_manager_window.handle_keyboard_input(
                    key,
                    keyflags,
                ),
                WindowState::Navigation => self.context.navigation_window.handle_keyboard_input(
                    key,
                    keyflags,
                ),
                WindowState::FileMenu => None,
            }
        }
    }
}

/// Takes one event of the main loop: Escape asks the editor to stop, a key
/// going down is routed, and key releases, repeats and ticks change
/// nothing. Returns the menu action that was asked for, if any.
pub fn handle_event(app: &mut App, event: InputEvent<KeyEvent>) -> (requested: Option<
    ActionMenuWindow,
>)
    requires
        old(app).wf(),
    ensures
        final(app).wf(),
        match event {
            InputEvent::InputEvent(k) => if k.code == Key::Esc {
                &&& final(app).should_quit
                &&& final(app).title == old(app).title
                &&& final(app).context == old(app).context
                &&& requested is None
            } else if k.pressed {
                old(app).keyboard_handled(final(app), k.code, k.modifiers, requested)
            } else {
                &&& *final(app) == *old(app)
                &&& requested is None
            },
            InputEvent::Tick => *final(app) == *old(app) && requested is None,
        },
{
    match event {
        InputEvent::InputEvent(k) => {
            if k.code == Key::Esc {
                app.should_quit = true;
                None
            } else if k.pressed {
                app.handle_keyboard_event(k.code, k.modifiers)
            } else {
                None
            }
        },
        InputEvent::Tick => {
            app.on_tick();
            None
        },
    }
}

} // verus!
