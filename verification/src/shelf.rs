use vstd::prelude::*;
use crate::keys::{KeyName, KeyPress};

verus! {

/// What the shelf asks of the caller.
#[derive(Clone, Copy, Debug, PartialEq, Eq, Structural)]
pub enum ShelfOutcome {
    Nothing,
    Redraw,
    /// Remove the item at this index, then reload.
    Remove(usize),
    /// Copy the item at this index.
    Copy(usize),
    /// Copy every item.
    CopyAll,
    Close,
}

/// State of the shelf view: how many items it holds and which is
/// selected.
pub struct ShelfModule {
    pub item_count: usize,
    pub selected_index: usize,
}

/// After a reload the selection stays, moved back onto the last item when
/// it ran past the end.
pub open spec fn reload_index(sel: int, len: int) -> int {
    if len == 0 {
        0
    } else if sel >= len {
        len - 1
    } else {
        sel
    }
}

impl ShelfModule {
    pub fn new(item_count: usize) -> (r: Self)
        ensures
            r.item_count == item_count,
            r.selected_index == 0,
    {
        ShelfModule { item_count, selected_index: 0 }
    }

    /// Takes the new number of items.
    pub fn reload_items(&mut self, item_count: usize)
        ensures
            final(self).item_count == item_count,
            final(self).selected_index == reload_index(
                old(self).selected_index as int,
                item_count as int,
            ),
    {
        self.item_count = item_count;
        if item_count == 0 {
            self.selected_index = 0;
        } else if self.selected_index >= item_count {
            self.selected_index = item_count - 1;
        }
    }

    /// After the selected item was removed: takes the new number of items
    /// and says whether the shelf, now empty, closes.
    pub fn after_removal(&mut self, item_count: usize) -> (close: bool)
        ensures
            final(self).item_count == item_count,
            final(self).selected_index == reload_index(
                old(self).selected_index as int,
                item_count as int,
            ),
            close == (item_count == 0),
    {
        self.reload_items(item_count);
        item_count == 0
    }

    pub fn select_next(&mut self)
        ensures
            final(self).item_count == old(self).item_count,
            old(self).item_count == 0 ==> final(self).selected_index == old(self).selected_index,
            old(self).item_count > 0 ==> final(self).selected_index == crate::nav::next_index(
                old(self).selected_index as int,
                old(self).item_count as int,
            ),
    {
        if self.item_count > 0 {
            self.selected_index = crate::nav::select_next(self.selected_index, self.item_count);
        }
    }

    pub fn select_prev(&mut self)
        ensures
            final(self).item_count == old(self).item_count,
            old(self).item_count == 0 ==> final(self).selected_index == old(self).selected_index,
            old(self).item_count > 0 ==> final(self).selected_index == crate::nav::prev_index(
                old(self).selected_index as int,
                old(self).item_count as int,
            ),
    {
        if self.item_count > 0 {
            self.selected_index = crate::nav::select_prev(self.selected_index, self.item_count);
        }
    }

    /// The selected item, if the selection is on one.
    pub fn selected(&self) -> (r: Option<usize>)
        ensures
            r == if self.selected_index < self.item_count {
                Some(self.selected_index)
            } else {
                None::<usize>
            },
    {
        if self.selected_index < self.item_count {
            Some(self.selected_index)
        } else {
            None
        }
    }

    /// Handles a key press of the shelf.
    pub fn on_key_down(&mut self, event: &KeyPress) -> (r: ShelfOutcome)
        ensures
            final(self).item_count == old(self).item_count,
            !(event.key == KeyName::Left || event.key == KeyName::Up || event.key == KeyName::Right
                || event.key == KeyName::Down) ==> final(self).selected_index == old(self).selected_index,
            match event.key {
                KeyName::Escape => r == ShelfOutcome::Close,
                KeyName::Left | KeyName::Up => r == ShelfOutcome::Redraw && (old(self).item_count > 0
                    ==> final(self).selected_index == crate::nav::prev_index(
                    old(self).selected_index as int,
                    old(self).item_count as int,
                )),
                KeyName::Right | KeyName::Down => r == ShelfOutcome::Redraw && (old(self).item_count > 0
                    ==> final(self).selected_index == crate::nav::next_index(
                    old(self).selected_index as int,
                    old(self).item_count as int,
                )),
                KeyName::Delete | KeyName::Backspace => r == match old(self).selected_spec() {
                    Some(i) => ShelfOutcome::Remove(i),
                    None => ShelfOutcome::Nothing,
                },
                KeyName::Enter => r == match old(self).selected_spec() {
                    Some(i) => ShelfOutcome::Copy(i),
                    None => ShelfOutcome::Nothing,
                },
                KeyName::Letter('c') => r == if event.control {
                    match old(self).selected_spec() {
                        Some(i) => ShelfOutcome::Copy(i),
                        None => ShelfOutcome::Nothing,
                    }
                } else {
                    ShelfOutcome::Nothing
                },
                KeyName::Letter('a') => r == if event.control {
                    ShelfOutcome::CopyAll
                } else {
                    ShelfOutcome::Nothing
                },
                KeyName::Letter('d') => r == if event.control {
                    ShelfOutcome::CopyAll
                } else {
                    match old(self).selected_spec() {
                        Some(i) => ShelfOutcome::Copy(i),
                        None => ShelfOutcome::Nothing,
                    }
                },
                _ => r == ShelfOutcome::Nothing && final(self).selected_index == old(self).selected_index,
            },
    {
        match event.key {
            KeyName::Escape => ShelfOutcome::Close,
            KeyName::Left | KeyName::Up => {
                self.select_prev();
                ShelfOutcome::Redraw
            },
            KeyName::Right | KeyName::Down => {
                self.select_next();
                ShelfOutcome::Redraw
            },
            KeyName::Delete | KeyName::Backspace => match self.selected() {
                Some(i) => ShelfOutcome::Remove(i),
                None => ShelfOutcome::Nothing,
            },
            KeyName::Enter => self.copy_outcome(),
            KeyName::Letter(c) => {
                if c == 'c' && event.control {
                    self.copy_outcome()
                } else if c == 'a' && event.control {
                    ShelfOutcome::CopyAll
                } else if c == 'd' && event.control {
                    ShelfOutcome::CopyAll
                } else if c == 'd' {
                    self.copy_outcome()
                } else {
                    ShelfOutcome::Nothing
                }
            },
            _ => ShelfOutcome::Nothing,
        }
    }

    fn copy_outcome(&self) -> (r: ShelfOutcome)
        ensures
            r == match self.selected_spec() {
                Some(i) => ShelfOutcome::Copy(i),
                None => ShelfOutcome::Nothing,
            },
    {
        match self.selected() {
            Some(i) => ShelfOutcome::Copy(i),
            None => ShelfOutcome::Nothing,
        }
    }

    pub open spec fn selected_spec(&self) -> Option<usize> {
        if self.selected_index < self.item_count {
            Some(self.selected_index)
        } else {
            None
        }
    }
}

/// After a reload the selection is on an item whenever there is one: it
/// stays where it was if that item still exists, else it goes to the last
/// item; an empty shelf selects the first place.
pub proof fn lemma_reload_keeps_selection_inside(sel: int, len: int)
    requires
        0 <= sel,
        0 <= len,
    ensures
        len > 0 ==> 0 <= reload_index(sel, len) < len,
        sel < len ==> reload_index(sel, len) == sel,
        0 < len <= sel ==> reload_index(sel, len) == len - 1,
        len == 0 ==> reload_index(sel, len) == 0,
{
}

} // verus!
