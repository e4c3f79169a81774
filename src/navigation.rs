use vstd::prelude::*;

use crate::keys::{Key, Window};

verus! {

/// Number of actions in the menu.
pub const ACTION_COUNT: usize = 6;

/// The actions of the menu, in the order it lists them.
#[derive(Clone, Copy, Debug, PartialEq, Eq, Structural)]
pub enum ActionMenuWindow {
    NewFile,
    OpenFile,
    SaveFile,
    SaveFileAs,
    SaveAll,
    CloseFile,
}

impl ActionMenuWindow {
    /// Where the action stands in the menu, from 0.
    pub open spec fn position(self) -> int {
        match self {
            ActionMenuWindow::NewFile => 0,
            ActionMenuWindow::OpenFile => 1,
            ActionMenuWindow::SaveFile => 2,
            ActionMenuWindow::SaveFileAs => 3,
            ActionMenuWindow::SaveAll => 4,
            ActionMenuWindow::CloseFile => 5,
        }
    }

    /// The action at `index` in the menu, if there is one.
    pub fn from_index(index: usize) -> (r: Option<ActionMenuWindow>)
        ensures
            r is Some <==> index < ACTION_COUNT,
            r is Some ==> r->Some_0.position() == index,
    {
        match index {
            0 => Some(ActionMenuWindow::NewFile),
            1 => Some(ActionMenuWindow::OpenFile),
            2 => Some(ActionMenuWindow::SaveFile),
            3 => Some(ActionMenuWindow::SaveFileAs),
            4 => Some(ActionMenuWindow::SaveAll),
            5 => Some(ActionMenuWindow::CloseFile),
            _ => None,
        }
    }

    /// Where the action stands in the menu, from 0.
    pub fn index(&self) -> (r: usize)
        ensures
            r == self.position(),
            r < ACTION_COUNT,
    {
        match self {
            ActionMenuWindow::NewFile => 0,
            ActionMenuWindow::OpenFile => 1,
            ActionMenuWindow::SaveFile => 2,
            ActionMenuWindow::SaveFileAs => 3,
            ActionMenuWindow::SaveAll => 4,
            ActionMenuWindow::CloseFile => 5,
        }
    }
}

/// The highlight after moving down: one further, from the last back to the
/// first; with nothing highlighted, the first.
pub open spec fn next_highlight(h: Option<usize>) -> Option<usize> {
    match h {
        Some(i) => Some(((i + 1) % (ACTION_COUNT as int)) as usize),
        None => Some(0),
    }
}

/// The highlight after moving up: one back, from the first round to the
/// last; with nothing highlighted, the last.
pub open spec fn previous_highlight(h: Option<usize>) -> Option<usize> {
    match h {
        Some(i) => Some(((i - 1) % (ACTION_COUNT as int)) as usize),
        None => Some((ACTION_COUNT - 1) as usize),
    }
}

/// The action menu: which of its actions is highlighted, if any.
#[derive(Debug)]
pub struct NavigationWindow {
    pub selected: Option<usize>,
}

impl NavigationWindow {
    /// The highlight, if any, is on an action.
    pub open spec fn wf(&self) -> bool {
        self.selected is Some ==> self.selected->Some_0 < ACTION_COUNT
    }

    /// The menu with nothing highlighted.
    pub fn new() -> (w: NavigationWindow)
        ensures
            w.wf(),
            w.selected is None,
    {
        NavigationWindow { selected: None }
    }

    /// Moves the highlight down, wrapping from the last action to the first.
    pub fn next(&mut self)
        requires
            old(self).wf(),
        ensures
            final(self).wf(),
            final(self).selected == next_highlight(old(self).selected),
    {
        let index = match self.selected {
            Some(i) => (i + 1) % ACTION_COUNT,
            None => 0,
        };
        self.selected = Some(index);
    }

    /// Moves the highlight up, wrapping from the first action to the last.
    pub fn previous(&mut self)
        requires
            old(self).wf(),
        ensures
            final(self).wf(),
            final(self).selected == previous_highlight(old(self).selected),
    {
        let index = match self.selected {
            Some(i) => (i + ACTION_COUNT - 1) % ACTION_COUNT,
            None => ACTION_COUNT - 1,
        };
        self.selected = Some(index);
    }

    /// Clears the highlight.
    pub fn unselect(&mut self)
        ensures
            final(self).wf(),
            final(self).selected is None,
    {
        self.selected = None;
    }

    /// The highlighted action, which the caller is to carry out.
    pub fn run(&self) -> (r: Option<ActionMenuWindow>)
        requires
            self.wf(),
        ensures
            r is Some <==> self.selected is Some,
            r is Some ==> r->Some_0.position() == self.selected->Some_0,
    {
        match self.selected {
            Some(i) => ActionMenuWindow::from_index(i),
            None => None,
        }
    }
}

impl Window for NavigationWindow {
    open spec fn inv(&self) -> bool {
        self.wf()
    }

    /// Up and Down move the highlight, Delete clears it, and Enter asks for
    /// the highlighted action; other keys change nothing.
    open spec fn handles(
        &self,
        next: &Self,
        key: Key,
        keyflags: u8,
        requested: Option<ActionMenuWindow>,
    ) -> bool {
        match key {
            Key::Up => next.selected == previous_highlight(self.selected) && requested is None,
            Key::Down => next.selected == next_highlight(self.selected) && requested is None,
            Key::Delete => next.selected is None && requested is None,
            Key::Enter => {
                &&& next.selected == self.selected
                &&& (requested is Some <==> self.selected is Some)
                &&& requested is Some ==> requested->Some_0.position() == self.selected->Some_0
            },
            _ => next.selected == self.selected && requested is None,
        }
    }

    fn handle_keyboard_input(&mut self, key: Key, keyflags: u8) -> (requested: Option<
        ActionMenuWindow,
    >) {
        match key {
            Key::Enter => self.run(),
            Key::Delete => {
                self.unselect();
                None
            },
            Key::Up => {
                self.previous();
                None
            },
            Key::Down => {
                self.next();
                None
            },
            _ => None,
        }
    }
}

} // verus!
