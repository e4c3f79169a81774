use vstd::arithmetic::div_mod::{lemma_add_mod_noop, lemma_small_mod};
use vstd::prelude::*;

use crate::buffer::FileWindow;
use crate::keys::{Key, Window, CONTROL};
use crate::navigation::ActionMenuWindow;

verus! {

/// The tab after `i` among `n`, from the last back to the first.
pub open spec fn next_tab(i: int, n: int) -> int {
    (i + 1) % n
}

/// The tab before `i` among `n`, from the first round to the last.
pub open spec fn previous_tab(i: int, n: int) -> int {
    if i > 0 {
        i - 1
    } else {
        n - 1
    }
}

/// The tab reached from `i` among `n` by going to the next one `k` times.
pub open spec fn next_tab_times(i: int, n: int, k: nat) -> int
    decreases k,
{
    if k == 0 {
        i
    } else {
        next_tab(next_tab_times(i, n, (k - 1) as nat), n)
    }
}

proof fn lemma_next_tab_times_mod(i: int, n: int, k: nat)
    requires
        0 <= i < n,
    ensures
        next_tab_times(i, n, k) == (i + k) % n,
    decreases k,
{
    if k == 0 {
        lemma_small_mod(i as nat, n as nat);
    } else {
        lemma_next_tab_times_mod(i, n, (k - 1) as nat);
        let x = i + k - 1;
        lemma_add_mod_noop(x, 1, n);
        if n > 1 {
            lemma_small_mod(1, n as nat);
        } else {
            assert(x % n == 0 && (x + 1) % n == 0) by (nonlinear_arith)
                requires n == 1;
        }
    }
}

/// Among `n` tabs, going to the next tab `n` times comes back to the tab
/// one started from, and going to the previous tab after the next one
/// does too.
pub proof fn lemma_tabs_cycle(i: int, n: int)
    requires
        0 <= i < n,
    ensures
        next_tab_times(i, n, n as nat) == i,
        previous_tab(next_tab(i, n), n) == i,
{
    lemma_next_tab_times_mod(i, n, n as nat);
    vstd::arithmetic::div_mod::lemma_mod_add_multiples_vanish(i, n);
    lemma_small_mod(i as nat, n as nat);
    if i + 1 < n {
        lemma_small_mod((i + 1) as nat, n as nat);
    } else {
        assert((i + 1) % n == 0) by {
            vstd::arithmetic::div_mod::lemma_mod_self_0(n);
        }
    }
}

/// The open files, shown as tabs, one of them current.
#[derive(Debug)]
pub struct FileManagerWindow {
    pub current_file_index: usize,
    pub file_list: Vec<FileWindow>,
}

impl FileManagerWindow {
    /// There is at least one file, the current index names one, and every
    /// file is well formed.
    pub open spec fn wf(&self) -> bool {
        &&& self.file_list@.len() > 0
        &&& self.current_file_index < self.file_list@.len()
        &&& forall|i: int| 0 <= i < self.file_list@.len() ==> (#[trigger] self.file_list@[i]).wf()
    }

    /// Two blank buffers (one empty line each, cursor at its start, no
    /// path), the first one current.
    pub fn new() -> (w: FileManagerWindow)
        ensures
            w.wf(),
            w.current_file_index == 0,
            w.file_list@.len() == 2,
            forall|i: int| 0 <= i < w.file_list@.len() ==> (#[trigger] w.file_list@[i]).is_blank(),
    {
        let first = FileWindow::new("HI");
        let second = FileWindow::new("Hellooo!");
        let file_list = vec![first, second];
        assert(file_list@[0].is_blank() && file_list@[1].is_blank());
        FileManagerWindow { current_file_index: 0, file_list }
    }

    /// Adds `file` as the last tab; the current tab stays.
    pub fn add_file_menu(&mut self, file: FileWindow)
        requires
            old(self).wf(),
            file.wf(),
        ensures
            final(self).wf(),
            final(self).file_list@ == old(self).file_list@.push(file),
            final(self).current_file_index == old(self).current_file_index,
    {
        self.file_list.push(file);
    }

    /// Makes the next tab current, from the last back to the first.
    pub fn next(&mut self)
        requires
            old(self).wf(),
        ensures
            final(self).wf(),
            final(self).file_list == old(self).file_list,
            final(self).current_file_index == next_tab(
                old(self).current_file_index as int,
                old(self).file_list@.len() as int,
            ),
    {
        let n = self.file_list.len();
        self.current_file_index = (self.current_file_index + 1) % n;
    }

    /// Makes the previous tab current, from the first round to the last.
    pub fn previous(&mut self)
        requires
            old(self).wf(),
        ensures
            final(self).wf(),
            final(self).file_list == old(self).file_list,
            final(self).current_file_index == previous_tab(
                old(self).current_file_index as int,
                old(self).file_list@.len() as int,
            ),
    {
        if self.current_file_index > 0 {
            self.current_file_index = self.current_file_index - 1;
        } else {
            self.current_file_index = self.file_list.len() - 1;
        }
    }

    /// The current file, to be changed in place.
    pub fn current_file(&mut self) -> (file: &mut FileWindow)
        requires
            old(self).wf(),
        ensures
            *file == old(self).file_list@[old(self).current_file_index as int],
            final(self).current_file_index == old(self).current_file_index,
            final(self).file_list@ == old(self).file_list@.update(
                old(self).current_file_index as int,
                *final(file),
            ),
    {
        let i = self.current_file_index;
        &mut self.file_list[i]
    }
}

impl Window for FileManagerWindow {
    open spec fn inv(&self) -> bool {
        self.wf()
    }

    /// Control-n and Control-p go to the next and previous tab; any other
    /// key goes to the current file.
    open spec fn handles(
        &self,
        next: &Self,
        key: Key,
        keyflags: u8,
        requested: Option<ActionMenuWindow>,
    ) -> bool {
        let n = self.file_list@.len() as int;
        let i = self.current_file_index as int;
        &&& requested is None
        &&& if key == Key::Char('n') && keyflags == CONTROL {
            &&& next.file_list == self.file_list
            &&& next.current_file_index == next_tab(i, n)
        } else if key == Key::Char('p') && keyflags == CONTROL {
            &&& next.file_list == self.file_list
            &&& next.current_file_index == previous_tab(i, n)
        } else {
            &&& next.current_file_index == i
            &&& next.file_list@.len() == n
            &&& forall|j: int| 0 <= j < n && j != i ==> next.file_list@[j] == self.file_list@[j]
            &&& self.file_list@[i].handles(&next.file_list@[i], key, keyflags, None)
        }
    }

    fn handle_keyboard_input(&mut self, key: Key, keyflags: u8) -> (requested: Option<
        ActionMenuWindow,
    >) {
        if key == Key::Char('n') && keyflags == CONTROL {
            self.next();
        } else if key == Key::Char('p') && keyflags == CONTROL {
            self.previous();
        } else {
            let file = self.current_file();
            file.handle_keyboard_input(key, keyflags);
        }
        None
    }
}

} // verus!
