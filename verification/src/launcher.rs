use vstd::prelude::*;
use crate::keys::{KeyName, KeyPress};
use crate::nav::{select_next, select_prev, next_index, prev_index};
use crate::text::{delete_last_word, delete_last_word_spec, pop_last, strip_controls, strip_controls_spec};

verus! {

/// What Enter starts in the launcher.
#[derive(Clone, Copy, Debug, PartialEq, Eq, Structural)]
pub enum LaunchChoice {
    /// Copy the calculator's result.
    CopyResult,
    /// Start the application at this index of the results.
    App(usize),
}

/// What a key press asks of the caller.
pub enum LauncherOutcome {
    Nothing,
    Redraw,
    /// Search again with this query; the caller hands the results to
    /// `set_results`.
    Search(String),
    /// Read the clipboard and hand its text to `paste`.
    Paste,
    /// Put this text on the clipboard.
    Copy(String),
    /// Put this text on the clipboard, then search again with an empty
    /// query.
    Cut(String),
    /// Run the choice, reset the search, and close.
    Launch(LaunchChoice),
    /// Reset the search and close.
    Close,
}

/// State of the application launcher: the query, how many applications
/// matched it, whether the calculator understood it, and the selection.
pub struct LauncherModule {
    pub query: String,
    pub app_count: usize,
    pub has_calc_result: bool,
    pub selected_index: usize,
    pub mouse_moved: bool,
}

impl LauncherModule {
    /// Rows of the result list: the calculator's row, if any, then the
    /// applications.
    pub open spec fn total_spec(&self) -> int {
        self.app_count + if self.has_calc_result {
            1int
        } else {
            0
        }
    }

    pub open spec fn launch_spec(&self) -> Option<LaunchChoice> {
        if self.has_calc_result && self.selected_index == 0 {
            Some(LaunchChoice::CopyResult)
        } else {
            let i = if self.has_calc_result {
                if self.selected_index == 0 {
                    0
                } else {
                    self.selected_index - 1
                }
            } else {
                self.selected_index as int
            };
            if i < self.app_count {
                Some(LaunchChoice::App(i as usize))
            } else {
                None
            }
        }
    }

    pub fn new(app_count: usize) -> (r: Self)
        ensures
            r.query@ == Seq::<char>::empty(),
            r.app_count == app_count,
            !r.has_calc_result,
            r.selected_index == 0,
            !r.mouse_moved,
    {
        LauncherModule {
            query: String::new(),
            app_count,
            has_calc_result: false,
            selected_index: 0,
            mouse_moved: false,
        }
    }

    /// Clears the query; the caller lists all applications again.
    pub fn reset_search(&mut self, app_count: usize)
        ensures
            final(self).query@ == Seq::<char>::empty(),
            final(self).app_count == app_count,
            !final(self).has_calc_result,
            final(self).selected_index == 0,
            !final(self).mouse_moved,
    {
        self.query = String::new();
        self.has_calc_result = false;
        self.selected_index = 0;
        self.mouse_moved = false;
        self.app_count = app_count;
    }

    /// Takes the results of a search for `query`.
    pub fn set_results(&mut self, query: String, app_count: usize, has_calc_result: bool)
        ensures
            final(self).query@ == query@,
            final(self).app_count == app_count,
            final(self).has_calc_result == has_calc_result,
            final(self).selected_index == 0,
            final(self).mouse_moved == old(self).mouse_moved,
    {
        self.query = query;
        self.app_count = app_count;
        self.has_calc_result = has_calc_result;
        self.selected_index = 0;
    }

    pub fn total_items(&self) -> (r: usize)
        requires
            self.app_count < usize::MAX,
        ensures
            r == self.total_spec(),
    {
        self.app_count + if self.has_calc_result {
            1
        } else {
            0
        }
    }

    pub fn select_next(&mut self)
        requires
            old(self).app_count < usize::MAX,
        ensures
            old(self).total_spec() == 0 ==> final(self).selected_index == old(self).selected_index,
            old(self).total_spec() > 0 ==> final(self).selected_index == next_index(
                old(self).selected_index as int,
                old(self).total_spec(),
            ),
            final(self).query@ == old(self).query@,
            final(self).app_count == old(self).app_count,
            final(self).has_calc_result == old(self).has_calc_result,
            final(self).mouse_moved == old(self).mouse_moved,
    {
        let total = self.total_items();
        if total > 0 {
            self.selected_index = select_next(self.selected_index, total);
        }
    }

    pub fn select_prev(&mut self)
        requires
            old(self).app_count < usize::MAX,
        ensures
            old(self).total_spec() == 0 ==> final(self).selected_index == old(self).selected_index,
            old(self).total_spec() > 0 ==> final(self).selected_index == prev_index(
                old(self).selected_index as int,
                old(self).total_spec(),
            ),
            final(self).query@ == old(self).query@,
            final(self).app_count == old(self).app_count,
            final(self).has_calc_result == old(self).has_calc_result,
            final(self).mouse_moved == old(self).mouse_moved,
    {
        let total = self.total_items();
        if total > 0 {
            self.selected_index = select_prev(self.selected_index, total);
        }
    }

    /// What Enter starts: the calculator's result when it is selected, else
    /// the selected application, if the selection is on one.
    pub fn launch_selected(&self) -> (r: Option<LaunchChoice>)
        ensures
            r == self.launch_spec(),
    {
        if self.has_calc_result && self.selected_index == 0 {
            return Some(LaunchChoice::CopyResult);
        }
        let app_index = if self.has_calc_result {
            if self.selected_index == 0 {
                0
            } else {
                self.selected_index - 1
            }
        } else {
            self.selected_index
        };
        if app_index < self.app_count {
            Some(LaunchChoice::App(app_index))
        } else {
            None
        }
    }

    /// The query after pasting `text`: its control characters dropped;
    /// nothing changes when nothing printable is left.
    pub fn paste(&self, text: &str) -> (r: Option<String>)
        ensures
            strip_controls_spec(text@).len() == 0 ==> r is None,
            strip_controls_spec(text@).len() > 0 ==> (r matches Some(q) && q@ == self.query@
                + strip_controls_spec(text@)),
    {
        let clean = strip_controls(text);
        if clean.as_str().unicode_len() == 0 {
            None
        } else {
            Some(self.query.clone().concat(clean.as_str()))
        }
    }

    /// Handles a key press of the launcher.
    pub fn handle_key_down(&mut self, event: &KeyPress) -> (r: LauncherOutcome)
        requires
            old(self).app_count < usize::MAX,
        ensures
            final(self).query@ == old(self).query@,
            final(self).app_count == old(self).app_count,
            final(self).has_calc_result == old(self).has_calc_result,
            event.key != KeyName::Down && event.key != KeyName::Up ==> final(self).selected_index
                == old(self).selected_index && final(self).mouse_moved == old(self).mouse_moved,
            event.ctrl() ==> match event.key {
                KeyName::Letter('v') => r is Paste,
                KeyName::Letter('c') => if old(self).query@.len() > 0 {
                    r matches LauncherOutcome::Copy(t) && t@ == old(self).query@
                } else {
                    r is Nothing
                },
                KeyName::Letter('x') => if old(self).query@.len() > 0 {
                    r matches LauncherOutcome::Cut(t) && t@ == old(self).query@
                } else {
                    r is Nothing
                },
                KeyName::Letter('u') => r matches LauncherOutcome::Search(q) && q@ == Seq::<char>::empty(),
                KeyName::Letter('w') => r matches LauncherOutcome::Search(q) && q@
                    == delete_last_word_spec(old(self).query@),
                _ => true,
            },
            !(event.ctrl() && (event.key == KeyName::Letter('v') || event.key == KeyName::Letter(
                'c',
            ) || event.key == KeyName::Letter('x') || event.key == KeyName::Letter('u')
                || event.key == KeyName::Letter('w'))) ==> match event.key {
                KeyName::Enter => match old(self).launch_spec() {
                    Some(c) => r == LauncherOutcome::Launch(c),
                    None => r is Nothing,
                },
                KeyName::Escape => r is Close,
                KeyName::Down => r is Redraw && !final(self).mouse_moved && (old(self).total_spec() > 0
                    ==> final(self).selected_index == next_index(
                    old(self).selected_index as int,
                    old(self).total_spec(),
                )),
                KeyName::Up => r is Redraw && !final(self).mouse_moved && (old(self).total_spec() > 0
                    ==> final(self).selected_index == prev_index(
                    old(self).selected_index as int,
                    old(self).total_spec(),
                )),
                KeyName::Backspace => if old(self).query@.len() > 0 {
                    r matches LauncherOutcome::Search(q) && q@ == old(self).query@.drop_last()
                } else {
                    r is Nothing
                },
                _ => if event.text@.len() == 1 && !event.ctrl() {
                    r matches LauncherOutcome::Search(q) && q@ == old(self).query@ + event.text@
                } else {
                    r is Nothing
                },
            },
    {
        let ctrl = event.control || event.platform;
        if ctrl {
            match event.key {
                KeyName::Letter(c) => {
                    if c == 'v' {
                        return LauncherOutcome::Paste;
                    }
                    if c == 'c' {
                        if self.query.as_str().unicode_len() > 0 {
                            return LauncherOutcome::Copy(self.query.clone());
                        }
                        return LauncherOutcome::Nothing;
                    }
                    if c == 'x' {
                        if self.query.as_str().unicode_len() > 0 {
                            return LauncherOutcome::Cut(self.query.clone());
                        }
                        return LauncherOutcome::Nothing;
                    }
                    if c == 'u' {
                        return LauncherOutcome::Search(String::new());
                    }
                    if c == 'w' {
                        return LauncherOutcome::Search(delete_last_word(self.query.as_str()));
                    }
                },
                _ => {},
            }
        }
        match event.key {
            KeyName::Enter => match self.launch_selected() {
                Some(c) => LauncherOutcome::Launch(c),
                None => LauncherOutcome::Nothing,
            },
            KeyName::Escape => LauncherOutcome::Close,
            KeyName::Down => {
                self.mouse_moved = false;
                self.select_next();
                LauncherOutcome::Redraw
            },
            KeyName::Up => {
                self.mouse_moved = false;
                self.select_prev();
                LauncherOutcome::Redraw
            },
            KeyName::Backspace => {
                if self.query.as_str().unicode_len() > 0 {
                    LauncherOutcome::Search(pop_last(self.query.as_str()))
                } else {
                    LauncherOutcome::Nothing
                }
            },
            _ => {
                if event.text.as_str().unicode_len() == 1 && !ctrl {
                    LauncherOutcome::Search(self.query.clone().concat(event.text.as_str()))
                } else {
                    LauncherOutcome::Nothing
                }
            },
        }
    }
}

/// Enter runs exactly the highlighted row of the list, whose rows are the
/// calculator's answer (when there is one) followed by the applications in
/// order; a highlight past the last row runs nothing.
pub proof fn lemma_enter_runs_highlighted_row(m: LauncherModule)
    ensures
        m.has_calc_result && m.selected_index == 0 ==> m.launch_spec() == Some(
            LaunchChoice::CopyResult,
        ),
        m.has_calc_result && 1 <= m.selected_index <= m.app_count ==> m.launch_spec() == Some(
            LaunchChoice::App((m.selected_index - 1) as usize),
        ),
        !m.has_calc_result && m.selected_index < m.app_count ==> m.launch_spec() == Some(
            LaunchChoice::App(m.selected_index),
        ),
        m.has_calc_result && m.selected_index > m.app_count ==> m.launch_spec() is None,
        !m.has_calc_result && m.selected_index >= m.app_count ==> m.launch_spec() is None,
        m.launch_spec() matches Some(LaunchChoice::App(i)) ==> i < m.app_count,
        m.total_spec() == m.app_count + if m.has_calc_result {
            1int
        } else {
            0
        },
{
}

} // verus!
