use vstd::prelude::*;
use crate::keys::{
    KeyName, KeyPress, select_indices, all_indices, lemma_select_indices_bound,
    lemma_select_indices_members,
};
use crate::nav::{select_next, select_prev, next_index, prev_index};
use crate::text::{
    contains, contains_spec, delete_last_word, delete_last_word_spec, is_blank, is_blank_spec,
    lowercased, matches_lowered, pop_last, to_lowercase,
};

verus! {

/// An entry of the clipboard history.
pub struct ClipboardItem {
    pub preview: String,
    pub is_image: bool,
}

/// A saved snippet.
pub struct Snippet {
    pub id: String,
    pub title: String,
    pub content: String,
}

#[derive(Clone, Copy, Debug, PartialEq, Eq, Structural)]
pub enum ClipboardTab {
    History,
    Snippets,
}

/// A history entry matches when its preview contains the query; an image
/// also matches the words "imagen" and "image" and their pieces.
pub open spec fn item_matches(item: ClipboardItem, lq: Seq<char>) -> bool {
    contains_spec(lowercased(item.preview@), lq) || (item.is_image && (contains_spec(
        "imagen"@,
        lq,
    ) || contains_spec("image"@, lq)))
}

pub open spec fn snippet_matches(s: Snippet, lq: Seq<char>) -> bool {
    contains_spec(lowercased(s.title@), lq) || contains_spec(lowercased(s.content@), lq)
}

/// The history entries shown for a query: all of them for a blank query.
pub open spec fn item_filter(items: Seq<ClipboardItem>, query: Seq<char>) -> Seq<usize> {
    if is_blank_spec(query) {
        select_indices(items.len(), |i: int| true)
    } else {
        select_indices(items.len(), |i: int| item_matches(items[i], lowercased(query)))
    }
}

pub open spec fn snippet_filter(snippets: Seq<Snippet>, query: Seq<char>) -> Seq<usize> {
    if is_blank_spec(query) {
        select_indices(snippets.len(), |i: int| true)
    } else {
        select_indices(snippets.len(), |i: int| snippet_matches(snippets[i], lowercased(query)))
    }
}

/// What the caller copies.
#[derive(Clone, Copy, Debug, PartialEq, Eq, Structural)]
pub enum ClipboardPick {
    /// The history entry at this index of the full history.
    History(usize),
    /// The snippet at this index of the full snippet list.
    Snippet(usize),
}

/// What a key press asks of the caller.
#[derive(Clone, Copy, Debug, PartialEq, Eq, Structural)]
pub enum ClipboardOutcome {
    Nothing,
    Redraw,
    Copy(ClipboardPick),
    Close,
}

/// State of the clipboard view: the query, the tab, the filtered lists and
/// the selection.
pub struct ClipboardModule {
    pub query: String,
    pub current_tab: ClipboardTab,
    pub items: Vec<ClipboardItem>,
    pub filtered_items: Vec<usize>,
    pub snippets: Vec<Snippet>,
    pub filtered_snippets: Vec<usize>,
    pub selected_index: usize,
    pub mouse_moved: bool,
}

fn filter_items(items: &Vec<ClipboardItem>, query: &str) -> (r: Vec<usize>)
    ensures
        r@ == item_filter(items@, query@),
{
    if is_blank(query) {
        return all_indices(items.len());
    }
    let lq = to_lowercase(query);
    let ghost keep = |i: int| item_matches(items@[i], lowercased(query@));
    let mut out: Vec<usize> = Vec::new();
    let mut i: usize = 0;
    while i < items.len()
        invariant
            i <= items@.len(),
            lq@ == lowercased(query@),
            keep == (|i: int| item_matches(items@[i], lowercased(query@))),
            out@ == select_indices(i as nat, keep),
        decreases items@.len() - i,
    {
        let item = &items[i];
        let hit = matches_lowered(item.preview.as_str(), lq.as_str()) || (item.is_image && (
        contains("imagen", lq.as_str()) || contains("image", lq.as_str())));
        if hit {
            out.push(i);
        }
        i = i + 1;
    }
    out
}

fn filter_snippets(snippets: &Vec<Snippet>, query: &str) -> (r: Vec<usize>)
    ensures
        r@ == snippet_filter(snippets@, query@),
{
    if is_blank(query) {
        return all_indices(snippets.len());
    }
    let lq = to_lowercase(query);
    let ghost keep = |i: int| snippet_matches(snippets@[i], lowercased(query@));
    let mut out: Vec<usize> = Vec::new();
    let mut i: usize = 0;
    while i < snippets.len()
        invariant
            i <= snippets@.len(),
            lq@ == lowercased(query@),
            keep == (|i: int| snippet_matches(snippets@[i], lowercased(query@))),
            out@ == select_indices(i as nat, keep),
        decreases snippets@.len() - i,
    {
        let s = &snippets[i];
        if matches_lowered(s.title.as_str(), lq.as_str()) || matches_lowered(
            s.content.as_str(),
            lq.as_str(),
        ) {
            out.push(i);
        }
        i = i + 1;
    }
    out
}

impl ClipboardModule {
    pub open spec fn wf(&self) -> bool {
        &&& self.filtered_items@ == item_filter(self.items@, self.query@)
        &&& self.filtered_snippets@ == snippet_filter(self.snippets@, self.query@)
    }

    /// Number of entries of the current tab that the query lets through.
    pub open spec fn spec_count(&self) -> nat {
        match self.current_tab {
            ClipboardTab::History => self.filtered_items@.len(),
            ClipboardTab::Snippets => self.filtered_snippets@.len(),
        }
    }

    pub fn new(items: Vec<ClipboardItem>, snippets: Vec<Snippet>) -> (r: Self)
        ensures
            r.wf(),
            r.query@ == Seq::<char>::empty(),
            r.current_tab == ClipboardTab::History,
            r.items@ == items@,
            r.snippets@ == snippets@,
            r.selected_index == 0,
            !r.mouse_moved,
    {
        let query = String::new();
        let filtered_items = filter_items(&items, query.as_str());
        let filtered_snippets = filter_snippets(&snippets, query.as_str());
        ClipboardModule {
            query,
            current_tab: ClipboardTab::History,
            items,
            filtered_items,
            snippets,
            filtered_snippets,
            selected_index: 0,
            mouse_moved: false,
        }
    }

    /// Takes freshly fetched history and snippets, clears the query and
    /// goes back to the first entry.
    pub fn reload_items(&mut self, items: Vec<ClipboardItem>, snippets: Vec<Snippet>)
        ensures
            final(self).wf(),
            final(self).query@ == Seq::<char>::empty(),
            final(self).current_tab == old(self).current_tab,
            final(self).items@ == items@,
            final(self).snippets@ == snippets@,
            final(self).selected_index == 0,
            !final(self).mouse_moved,
    {
        self.query = String::new();
        self.items = items;
        self.snippets = snippets;
        self.filtered_items = filter_items(&self.items, self.query.as_str());
        self.filtered_snippets = filter_snippets(&self.snippets, self.query.as_str());
        self.selected_index = 0;
        self.mouse_moved = false;
    }

    /// Takes a fresh snippet list (after one was pinned or removed),
    /// keeping the selection inside the list.
    pub fn set_snippets(&mut self, snippets: Vec<Snippet>)
        requires
            old(self).wf(),
        ensures
            final(self).wf(),
            final(self).snippets@ == snippets@,
            final(self).query@ == old(self).query@,
            final(self).current_tab == old(self).current_tab,
            final(self).items@ == old(self).items@,
            final(self).mouse_moved == old(self).mouse_moved,
            final(self).selected_index == old(self).selected_index,
    {
        self.snippets = snippets;
        self.filtered_snippets = filter_snippets(&self.snippets, self.query.as_str());
    }

    /// After a snippet was removed: the fresh list, and the selection moved
    /// back onto the last snippet when it ran past the end.
    pub fn remove_snippet(&mut self, snippets: Vec<Snippet>)
        requires
            old(self).wf(),
        ensures
            final(self).wf(),
            final(self).snippets@ == snippets@,
            final(self).query@ == old(self).query@,
            final(self).items@ == old(self).items@,
            final(self).selected_index == if old(self).selected_index
                >= final(self).filtered_snippets@.len()
                && final(self).filtered_snippets@.len() > 0 {
                (final(self).filtered_snippets@.len() - 1) as usize
            } else {
                old(self).selected_index
            },
    {
        self.set_snippets(snippets);
        let count = self.filtered_snippets.len();
        if self.selected_index >= count && count > 0 {
            self.selected_index = count - 1;
        }
    }

    /// The index of the snippet whose content is this history entry's
    /// preview (unpinning removes it).
    pub fn snippet_for_preview(&self, preview: &String) -> (r: Option<usize>)
        ensures
            match r {
                Some(i) => i < self.snippets@.len() && self.snippets@[i as int].content@
                    == preview@ && forall|j: int|
                    0 <= j < i ==> self.snippets@[j].content@ != preview@,
                None => forall|j: int|
                    0 <= j < self.snippets@.len() ==> self.snippets@[j].content@
                        != preview@,
            },
    {
        let mut i: usize = 0;
        while i < self.snippets.len()
            invariant
                i <= self.snippets@.len(),
                forall|j: int| 0 <= j < i ==> self.snippets@[j].content@ != preview@,
            decreases self.snippets@.len() - i,
        {
            if self.snippets[i].content == *preview {
                return Some(i);
            }
            i = i + 1;
        }
        None
    }

    pub fn switch_tab(&mut self, tab: ClipboardTab) -> (changed: bool)
        ensures
            changed == (old(self).current_tab != tab),
            final(self).current_tab == tab,
            changed ==> final(self).selected_index == 0 && !final(self).mouse_moved,
            !changed ==> final(self).selected_index == old(self).selected_index
                && final(self).mouse_moved == old(self).mouse_moved,
            final(self).query@ == old(self).query@,
            final(self).items@ == old(self).items@,
            final(self).snippets@ == old(self).snippets@,
            final(self).filtered_items@ == old(self).filtered_items@,
            final(self).filtered_snippets@ == old(self).filtered_snippets@,
    {
        if self.current_tab != tab {
            self.current_tab = tab;
            self.selected_index = 0;
            self.mouse_moved = false;
            true
        } else {
            false
        }
    }

    /// Replaces the query, filters both lists again and selects the first
    /// entry.
    pub fn update_search(&mut self, new_query: String)
        ensures
            final(self).wf(),
            final(self).query@ == new_query@,
            final(self).selected_index == 0,
            final(self).current_tab == old(self).current_tab,
            final(self).mouse_moved == old(self).mouse_moved,
            final(self).items@ == old(self).items@,
            final(self).snippets@ == old(self).snippets@,
    {
        self.query = new_query;
        self.filtered_items = filter_items(&self.items, self.query.as_str());
        self.filtered_snippets = filter_snippets(&self.snippets, self.query.as_str());
        self.selected_index = 0;
    }

    pub fn current_count(&self) -> (r: usize)
        ensures
            r == self.spec_count(),
    {
        match self.current_tab {
            ClipboardTab::History => self.filtered_items.len(),
            ClipboardTab::Snippets => self.filtered_snippets.len(),
        }
    }

    /// Next entry, wrapping; nothing happens on an empty list.
    pub fn select_next(&mut self)
        ensures
            old(self).spec_count() == 0 ==> final(self).selected_index == old(self).selected_index,
            old(self).spec_count() > 0 ==> final(self).selected_index == next_index(
                old(self).selected_index as int,
                old(self).spec_count() as int,
            ),
            final(self).query@ == old(self).query@,
            final(self).current_tab == old(self).current_tab,
            final(self).mouse_moved == old(self).mouse_moved,
            final(self).items@ == old(self).items@,
            final(self).snippets@ == old(self).snippets@,
            final(self).filtered_items@ == old(self).filtered_items@,
            final(self).filtered_snippets@ == old(self).filtered_snippets@,
    {
        let count = self.current_count();
        if count > 0 {
            self.selected_index = select_next(self.selected_index, count);
        }
    }

    /// Previous entry, wrapping; nothing happens on an empty list.
    pub fn select_prev(&mut self)
        ensures
            old(self).spec_count() == 0 ==> final(self).selected_index == old(self).selected_index,
            old(self).spec_count() > 0 ==> final(self).selected_index == prev_index(
                old(self).selected_index as int,
                old(self).spec_count() as int,
            ),
            final(self).query@ == old(self).query@,
            final(self).current_tab == old(self).current_tab,
            final(self).mouse_moved == old(self).mouse_moved,
            final(self).items@ == old(self).items@,
            final(self).snippets@ == old(self).snippets@,
            final(self).filtered_items@ == old(self).filtered_items@,
            final(self).filtered_snippets@ == old(self).filtered_snippets@,
    {
        let count = self.current_count();
        if count > 0 {
            self.selected_index = select_prev(self.selected_index, count);
        }
    }

    /// The entry Enter copies: the selected one of the current tab, if the
    /// selection is inside the filtered list.
    pub fn copy_selected(&self) -> (r: Option<ClipboardPick>)
        requires
            self.wf(),
        ensures
            self.current_tab == ClipboardTab::History ==> r == if self.selected_index
                < self.filtered_items@.len() {
                Some(ClipboardPick::History(self.filtered_items@[self.selected_index as int]))
            } else {
                None
            },
            self.current_tab == ClipboardTab::Snippets ==> r == if self.selected_index
                < self.filtered_snippets@.len() {
                Some(
                    ClipboardPick::Snippet(self.filtered_snippets@[self.selected_index as int]),
                )
            } else {
                None
            },
            match r {
                Some(ClipboardPick::History(i)) => i < self.items@.len(),
                Some(ClipboardPick::Snippet(i)) => i < self.snippets@.len(),
                None => true,
            },
    {
        let _n_items = self.items.len();
        let _n_snippets = self.snippets.len();
        proof {
            lemma_select_indices_bound(self.items@.len(), |i: int| true);
            lemma_select_indices_bound(
                self.items@.len(),
                |i: int| item_matches(self.items@[i], lowercased(self.query@)),
            );
            lemma_select_indices_bound(self.snippets@.len(), |i: int| true);
            lemma_select_indices_bound(
                self.snippets@.len(),
                |i: int| snippet_matches(self.snippets@[i], lowercased(self.query@)),
            );
        }
        match self.current_tab {
            ClipboardTab::History => {
                if self.selected_index < self.filtered_items.len() {
                    Some(ClipboardPick::History(self.filtered_items[self.selected_index]))
                } else {
                    None
                }
            },
            ClipboardTab::Snippets => {
                if self.selected_index < self.filtered_snippets.len() {
                    Some(ClipboardPick::Snippet(self.filtered_snippets[self.selected_index]))
                } else {
                    None
                }
            },
        }
    }

    /// Handles a key press of the clipboard view.
    pub fn handle_key_down(&mut self, event: &KeyPress) -> (r: ClipboardOutcome)
        requires
            old(self).wf(),
        ensures
            final(self).wf(),
            final(self).items@ == old(self).items@,
            final(self).snippets@ == old(self).snippets@,
            event.key != KeyName::Tab ==> final(self).current_tab == old(self).current_tab,
            (r is Copy || r == ClipboardOutcome::Close || r == ClipboardOutcome::Nothing) ==> final(self).selected_index == old(self).selected_index && final(self).query@ == old(self).query@
                && final(self).mouse_moved == old(self).mouse_moved,
            event.ctrl() && event.key == KeyName::Letter('u') ==> final(self).query@
                == Seq::<char>::empty() && final(self).selected_index == 0 && r
                == ClipboardOutcome::Redraw,
            event.ctrl() && event.key == KeyName::Letter('w') ==> final(self).query@
                == delete_last_word_spec(old(self).query@) && final(self).selected_index == 0
                && r == ClipboardOutcome::Redraw,
            !(event.ctrl() && (event.key == KeyName::Letter('u') || event.key == KeyName::Letter(
                'w',
            ))) ==> match event.key {
                KeyName::Tab => final(self).current_tab != old(self).current_tab
                    && final(self).selected_index == 0 && r == ClipboardOutcome::Redraw,
                KeyName::Down => r == ClipboardOutcome::Redraw && !final(self).mouse_moved
                    && final(self).query@ == old(self).query@ && final(self).current_tab == old(self).current_tab
                    && (old(self).spec_count() > 0 ==> final(self).selected_index == next_index(
                    old(self).selected_index as int,
                    old(self).spec_count() as int,
                )),
                KeyName::Up => r == ClipboardOutcome::Redraw && !final(self).mouse_moved
                    && final(self).query@ == old(self).query@ && final(self).current_tab == old(self).current_tab
                    && (old(self).spec_count() > 0 ==> final(self).selected_index == prev_index(
                    old(self).selected_index as int,
                    old(self).spec_count() as int,
                )),
                KeyName::Enter => final(self).query@ == old(self).query@ && match old(self).copy_selected_spec() {
                    Some(p) => r == ClipboardOutcome::Copy(p),
                    None => r == ClipboardOutcome::Nothing,
                },
                KeyName::Escape => r == ClipboardOutcome::Close && final(self).query@ == old(self).query@,
                KeyName::Backspace => if old(self).query@.len() > 0 {
                    final(self).query@ == old(self).query@.drop_last()
                        && final(self).selected_index == 0 && r == ClipboardOutcome::Redraw
                } else {
                    final(self).query@ == old(self).query@ && r == ClipboardOutcome::Nothing
                },
                _ => if event.text@.len() == 1 && !event.ctrl() && !event.alt {
                    final(self).query@ == old(self).query@ + event.text@
                        && final(self).selected_index == 0 && r == ClipboardOutcome::Redraw
                } else {
                    final(self).query@ == old(self).query@ && r == ClipboardOutcome::Nothing
                },
            },
    {
        let ctrl = event.control || event.platform;
        if ctrl {
            match event.key {
                KeyName::Letter(c) => {
                    if c == 'u' {
                        self.update_search(String::new());
                        return ClipboardOutcome::Redraw;
                    }
                    if c == 'w' {
                        let q = delete_last_word(self.query.as_str());
                        self.update_search(q);
                        return ClipboardOutcome::Redraw;
                    }
                },
                _ => {},
            }
        }
        match event.key {
            KeyName::Tab => {
                let next = match self.current_tab {
                    ClipboardTab::History => ClipboardTab::Snippets,
                    ClipboardTab::Snippets => ClipboardTab::History,
                };
                self.switch_tab(next);
                ClipboardOutcome::Redraw
            },
            KeyName::Down => {
                self.mouse_moved = false;
                self.select_next();
                ClipboardOutcome::Redraw
            },
            KeyName::Up => {
                self.mouse_moved = false;
                self.select_prev();
                ClipboardOutcome::Redraw
            },
            KeyName::Enter => match self.copy_selected() {
                Some(p) => ClipboardOutcome::Copy(p),
                None => ClipboardOutcome::Nothing,
            },
            KeyName::Escape => ClipboardOutcome::Close,
            KeyName::Backspace => {
                if self.query.as_str().unicode_len() > 0 {
                    let q = pop_last(self.query.as_str());
                    self.update_search(q);
                    ClipboardOutcome::Redraw
                } else {
                    ClipboardOutcome::Nothing
                }
            },
            _ => {
                if event.text.as_str().unicode_len() == 1 && !ctrl && !event.alt {
                    let q = self.query.clone().concat(event.text.as_str());
                    self.update_search(q);
                    ClipboardOutcome::Redraw
                } else {
                    ClipboardOutcome::Nothing
                }
            },
        }
    }

    pub open spec fn copy_selected_spec(&self) -> Option<ClipboardPick> {
        match self.current_tab {
            ClipboardTab::History => if self.selected_index < self.filtered_items@.len() {
                Some(ClipboardPick::History(self.filtered_items@[self.selected_index as int]))
            } else {
                None
            },
            ClipboardTab::Snippets => if self.selected_index
                < self.filtered_snippets@.len() {
                Some(ClipboardPick::Snippet(self.filtered_snippets@[self.selected_index as int]))
            } else {
                None
            },
        }
    }
}

/// The snippets listed for a query are, in their saved order, exactly
/// those whose title or content, lowercased, holds the lowercased query;
/// a blank query lists them all.
pub proof fn lemma_snippet_search(snippets: Seq<Snippet>, query: Seq<char>)
    requires
        snippets.len() <= usize::MAX,
    ensures
        forall|i: int|
            0 <= i < snippets.len() ==> (#[trigger] snippet_filter(snippets, query).contains(
                i as usize,
            ) <==> (is_blank_spec(query) || contains_spec(lowercased(snippets[i].title@), lowercased(query))
                || contains_spec(lowercased(snippets[i].content@), lowercased(query)))),
        forall|k: int|
            0 <= k < snippet_filter(snippets, query).len() ==> #[trigger] snippet_filter(
                snippets,
                query,
            )[k] < snippets.len(),
        forall|a: int, b: int|
            0 <= a < b < snippet_filter(snippets, query).len() ==> #[trigger] snippet_filter(
                snippets,
                query,
            )[a] < #[trigger] snippet_filter(snippets, query)[b],
{
    let all = |i: int| true;
    let some = |i: int| snippet_matches(snippets[i], lowercased(query));
    lemma_select_indices_members(snippets.len(), all);
    lemma_select_indices_members(snippets.len(), some);
    lemma_select_indices_bound(snippets.len(), all);
    lemma_select_indices_bound(snippets.len(), some);
}

/// The history entries listed for a query are, in history order, exactly
/// those whose lowercased preview holds the lowercased query, an image also
/// matching any piece of the words "imagen" and "image"; a blank query
/// lists them all.
pub proof fn lemma_history_search(items: Seq<ClipboardItem>, query: Seq<char>)
    requires
        items.len() <= usize::MAX,
    ensures
        forall|i: int|
            0 <= i < items.len() ==> (#[trigger] item_filter(items, query).contains(i as usize) <==> (
            is_blank_spec(query) || contains_spec(lowercased(items[i].preview@), lowercased(query))
                || (items[i].is_image && (contains_spec("imagen"@, lowercased(query))
                || contains_spec("image"@, lowercased(query)))))),
        forall|k: int|
            0 <= k < item_filter(items, query).len() ==> #[trigger] item_filter(items, query)[k]
                < items.len(),
        forall|a: int, b: int|
            0 <= a < b < item_filter(items, query).len() ==> #[trigger] item_filter(items, query)[a]
                < #[trigger] item_filter(items, query)[b],
{
    let all = |i: int| true;
    let some = |i: int| item_matches(items[i], lowercased(query));
    lemma_select_indices_members(items.len(), all);
    lemma_select_indices_members(items.len(), some);
    lemma_select_indices_bound(items.len(), all);
    lemma_select_indices_bound(items.len(), some);
}

/// Copying takes the highlighted row of the list the current tab shows:
/// a history entry on the history tab, a snippet on the snippets tab, each
/// named by its place in the full list; nothing when the highlight is past
/// the end of that list.
pub proof fn lemma_copy_takes_highlighted_row(m: ClipboardModule)
    requires
        m.wf(),
        m.items@.len() <= usize::MAX,
        m.snippets@.len() <= usize::MAX,
    ensures
        m.current_tab == ClipboardTab::History && m.selected_index < m.filtered_items@.len() ==> ({
            let j = m.filtered_items@[m.selected_index as int];
            m.copy_selected_spec() == Some(ClipboardPick::History(j)) && j < m.items@.len()
        }),
        m.current_tab == ClipboardTab::Snippets && m.selected_index < m.filtered_snippets@.len()
            ==> ({
            let j = m.filtered_snippets@[m.selected_index as int];
            m.copy_selected_spec() == Some(ClipboardPick::Snippet(j)) && j < m.snippets@.len()
        }),
        m.selected_index >= m.spec_count() ==> m.copy_selected_spec() is None,
{
    lemma_history_search(m.items@, m.query@);
    lemma_snippet_search(m.snippets@, m.query@);
}

} // verus!
