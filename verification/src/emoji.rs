use vstd::prelude::*;
use crate::keys::{
    KeyName, KeyPress, select_indices, lemma_select_indices_bound, lemma_select_indices_members,
};
use crate::nav::{
    GridCursor, COLS, ITEMS_PER_PAGE, grid_next_spec, grid_prev_spec, grid_row_down_spec,
    grid_row_up_spec, grid_next_page_spec, grid_prev_page_spec, lemma_grid_moves_stay_inside,
    lemma_page_moves_stay_inside, total_pages,
};
use crate::text::{
    contains, contains_spec, eq_ignore_ascii_case, eq_ignore_ascii_case_spec, lowercased,
    matches_lowered, pop_last, to_lowercase, trim, trim_spec,
};

verus! {

/// An emoji of the picker.
pub struct EmojiItem {
    pub emoji: String,
    pub name: String,
    pub category: String,
    pub keywords: Vec<String>,
}

pub open spec fn keyword_hit(keywords: Seq<String>, lq: Seq<char>) -> bool {
    exists|k: int| 0 <= k < keywords.len() && contains_spec(lowercased(#[trigger] keywords[k]@), lq)
}

/// An emoji is shown when it is in the chosen category (if any) and its
/// name, category or one of its keywords contains the trimmed query.
pub open spec fn emoji_matches(item: EmojiItem, category: Option<Seq<char>>, lq: Seq<char>) -> bool {
    &&& match category {
        Some(c) => eq_ignore_ascii_case_spec(item.category@, c),
        None => true,
    }
    &&& (lq.len() == 0 || contains_spec(lowercased(item.name@), lq) || contains_spec(
        lowercased(item.category@),
        lq,
    ) || keyword_hit(item.keywords@, lq))
}

pub open spec fn emoji_filter(
    items: Seq<EmojiItem>,
    query: Seq<char>,
    category: Option<Seq<char>>,
) -> Seq<usize> {
    select_indices(
        items.len(),
        |i: int| emoji_matches(items[i], category, lowercased(trim_spec(query))),
    )
}

pub open spec fn category_view(c: Option<String>) -> Option<Seq<char>> {
    match c {
        Some(s) => Some(s@),
        None => None,
    }
}

/// What a key press asks of the caller.
#[derive(Clone, Copy, Debug, PartialEq, Eq, Structural)]
pub enum EmojiOutcome {
    Nothing,
    Redraw,
    /// Copy the emoji at this index of the full list, then close.
    Copy(usize),
    Close,
}

/// State of the emoji picker.
pub struct EmojiModule {
    pub query: String,
    pub category_filter: Option<String>,
    pub items: Vec<EmojiItem>,
    pub filtered_items: Vec<usize>,
    pub cursor: GridCursor,
    pub mouse_moved: bool,
}

fn any_keyword(keywords: &Vec<String>, lq: &str) -> (r: bool)
    ensures
        r == keyword_hit(keywords@, lq@),
{
    let mut k: usize = 0;
    while k < keywords.len()
        invariant
            k <= keywords@.len(),
            forall|j: int| 0 <= j < k ==> !contains_spec(lowercased(#[trigger] keywords@[j]@), lq@),
        decreases keywords@.len() - k,
    {
        if matches_lowered(keywords[k].as_str(), lq) {
            return true;
        }
        k = k + 1;
    }
    false
}

fn filter_emojis(items: &Vec<EmojiItem>, query: &str, category: &Option<String>) -> (r: Vec<usize>)
    ensures
        r@ == emoji_filter(items@, query@, category_view(*category)),
{
    let t = trim(query);
    let lq = to_lowercase(t.as_str());
    let ghost keep = |i: int|
        emoji_matches(items@[i], category_view(*category), lowercased(trim_spec(query@)));
    let mut out: Vec<usize> = Vec::new();
    let mut i: usize = 0;
    while i < items.len()
        invariant
            i <= items@.len(),
            lq@ == lowercased(trim_spec(query@)),
            keep == (|i: int|
                emoji_matches(items@[i], category_view(*category), lowercased(trim_spec(query@)))),
            out@ == select_indices(i as nat, keep),
        decreases items@.len() - i,
    {
        let item = &items[i];
        let in_category = match category {
            Some(c) => eq_ignore_ascii_case(item.category.as_str(), c.as_str()),
            None => true,
        };
        let hit = in_category && (lq.as_str().unicode_len() == 0 || matches_lowered(
            item.name.as_str(),
            lq.as_str(),
        ) || matches_lowered(item.category.as_str(), lq.as_str()) || any_keyword(
            &item.keywords,
            lq.as_str(),
        ));
        if hit {
            out.push(i);
        }
        i = i + 1;
    }
    out
}

impl EmojiModule {
    /// The filtered list points into the full list, and the cursor stays
    /// on it.
    pub open spec fn wf(&self) -> bool {
        let len = self.filtered_items@.len();
        &&& forall|i: int|
            0 <= i < len ==> #[trigger] self.filtered_items@[i] < self.items@.len()
        &&& len + ITEMS_PER_PAGE <= usize::MAX
        &&& self.cursor.selected_index + COLS <= usize::MAX
        &&& self.cursor.page * ITEMS_PER_PAGE <= usize::MAX
        &&& len > 0 ==> self.cursor.selected_index < len && self.cursor.page * ITEMS_PER_PAGE < len
    }

    pub fn new(items: Vec<EmojiItem>) -> (r: Self)
        requires
            items@.len() + ITEMS_PER_PAGE <= usize::MAX,
        ensures
            r.wf(),
            r.query@ == Seq::<char>::empty(),
            r.category_filter is None,
            r.items@ == items@,
            r.filtered_items@ == emoji_filter(items@, Seq::<char>::empty(), None),
            r.cursor == GridCursor::new_spec(),
            !r.mouse_moved,
    {
        let query = String::new();
        let category_filter: Option<String> = None;
        let filtered_items = filter_emojis(&items, query.as_str(), &category_filter);
        let _n = items.len();
        proof {
            lemma_select_indices_bound(
                items@.len(),
                |i: int|
                    emoji_matches(items@[i], None, lowercased(trim_spec(Seq::<char>::empty()))),
            );
        }
        EmojiModule {
            query,
            category_filter,
            items,
            filtered_items,
            cursor: GridCursor::new(),
            mouse_moved: false,
        }
    }

    fn refilter(&mut self)
        requires
            old(self).items@.len() + ITEMS_PER_PAGE <= usize::MAX,
        ensures
            final(self).filtered_items@ == emoji_filter(
                old(self).items@,
                old(self).query@,
                category_view(old(self).category_filter),
            ),
            final(self).cursor == GridCursor::new_spec(),
            final(self).query@ == old(self).query@,
            final(self).category_filter == old(self).category_filter,
            final(self).items@ == old(self).items@,
            final(self).mouse_moved == old(self).mouse_moved,
            final(self).wf(),
    {
        self.filtered_items = filter_emojis(&self.items, self.query.as_str(), &self.category_filter);
        self.cursor = GridCursor::new();
        let _n = self.items.len();
        proof {
            lemma_select_indices_bound(
                self.items@.len(),
                |i: int|
                    emoji_matches(
                        self.items@[i],
                        category_view(self.category_filter),
                        lowercased(trim_spec(self.query@)),
                    ),
            );
        }
    }

    /// Takes a fresh emoji list: no query, no category, first emoji.
    pub fn reload_items(&mut self, items: Vec<EmojiItem>)
        requires
            items@.len() + ITEMS_PER_PAGE <= usize::MAX,
        ensures
            final(self).wf(),
            final(self).query@ == Seq::<char>::empty(),
            final(self).category_filter is None,
            final(self).items@ == items@,
            final(self).filtered_items@ == emoji_filter(items@, Seq::<char>::empty(), None),
            final(self).cursor == GridCursor::new_spec(),
            !final(self).mouse_moved,
    {
        self.query = String::new();
        self.category_filter = None;
        self.items = items;
        self.mouse_moved = false;
        self.refilter();
    }

    /// Forgets the filtered list and the query (the picker closes).
    pub fn clear_cache(&mut self)
        requires
            old(self).wf(),
        ensures
            final(self).wf(),
            final(self).filtered_items@ == Seq::<usize>::empty(),
            final(self).query@ == Seq::<char>::empty(),
            final(self).items@ == old(self).items@,
            final(self).cursor == old(self).cursor,
            final(self).category_filter == old(self).category_filter,
    {
        self.filtered_items.clear();
        self.query = String::new();
    }

    pub fn update_search(&mut self, new_query: String)
        requires
            old(self).items@.len() + ITEMS_PER_PAGE <= usize::MAX,
        ensures
            final(self).wf(),
            final(self).query@ == new_query@,
            final(self).filtered_items@ == emoji_filter(
                old(self).items@,
                new_query@,
                category_view(old(self).category_filter),
            ),
            final(self).cursor == GridCursor::new_spec(),
            final(self).category_filter == old(self).category_filter,
            final(self).items@ == old(self).items@,
            final(self).mouse_moved == old(self).mouse_moved,
    {
        self.query = new_query;
        self.refilter();
    }

    pub fn set_category(&mut self, category: Option<String>)
        requires
            old(self).items@.len() + ITEMS_PER_PAGE <= usize::MAX,
        ensures
            final(self).wf(),
            final(self).category_filter == category,
            final(self).filtered_items@ == emoji_filter(
                old(self).items@,
                old(self).query@,
                category_view(category),
            ),
            final(self).cursor == GridCursor::new_spec(),
            final(self).query@ == old(self).query@,
            final(self).items@ == old(self).items@,
    {
        self.category_filter = category;
        self.refilter();
    }

    /// The emoji Enter copies: the selected one, if the selection is inside
    /// the filtered list.
    pub open spec fn copy_selected_spec(&self) -> Option<usize> {
        if self.cursor.selected_index < self.filtered_items@.len() {
            Some(self.filtered_items@[self.cursor.selected_index as int])
        } else {
            None
        }
    }

    /// Handles a key press of the picker.
    pub fn handle_key_down(&mut self, event: &KeyPress) -> (r: EmojiOutcome)
        requires
            old(self).wf(),
            old(self).items@.len() + ITEMS_PER_PAGE <= usize::MAX,
        ensures
            final(self).wf(),
            final(self).items@ == old(self).items@,
            final(self).category_filter == old(self).category_filter,
            ({
                let len = old(self).filtered_items@.len() as int;
                let sel = old(self).cursor.selected_index as int;
                let page = old(self).cursor.page as int;
                let now = (final(self).cursor.selected_index as int, final(self).cursor.page as int);
                let kept = r == EmojiOutcome::Redraw && final(self).query@ == old(self).query@
                    && final(self).filtered_items@ == old(self).filtered_items@ && (len == 0
                    ==> final(self).cursor == old(self).cursor);
                match event.key {
                    KeyName::Right => kept && !final(self).mouse_moved && (len > 0 ==> now
                        == grid_next_spec(sel, len)),
                    KeyName::Left => kept && !final(self).mouse_moved && (len > 0 ==> now
                        == grid_prev_spec(sel, len)),
                    KeyName::Down => kept && !final(self).mouse_moved && (len > 0 ==> now
                        == grid_row_down_spec(sel, len)),
                    KeyName::Up => kept && !final(self).mouse_moved && (len > 0 ==> now
                        == grid_row_up_spec(sel, len)),
                    KeyName::PageDown => kept && (len > 0 ==> now == grid_next_page_spec(page, len)),
                    KeyName::PageUp => kept && (len > 0 ==> now == grid_prev_page_spec(page, len)),
                    KeyName::Enter => match old(self).copy_selected_spec() {
                        Some(i) => r == EmojiOutcome::Copy(i) && final(self).query@
                            == Seq::<char>::empty() && final(self).filtered_items@
                            == Seq::<usize>::empty(),
                        None => r == EmojiOutcome::Nothing && final(self).query@ == old(self).query@,
                    },
                    KeyName::Escape => r == EmojiOutcome::Close && final(self).query@
                        == Seq::<char>::empty() && final(self).filtered_items@
                        == Seq::<usize>::empty(),
                    KeyName::Backspace => if old(self).query@.len() > 0 {
                        final(self).query@ == old(self).query@.drop_last() && r == EmojiOutcome::Redraw
                            && final(self).filtered_items@ == emoji_filter(
                            old(self).items@,
                            old(self).query@.drop_last(),
                            category_view(old(self).category_filter),
                        ) && final(self).cursor == GridCursor::new_spec()
                    } else {
                        final(self).query@ == old(self).query@ && r == EmojiOutcome::Nothing
                    },
                    _ => if event.text@.len() == 1 && !event.control && !event.alt
                        && !event.platform {
                        final(self).query@ == old(self).query@ + event.text@
                            && final(self).filtered_items@ == emoji_filter(
                            old(self).items@,
                            old(self).query@ + event.text@,
                            category_view(old(self).category_filter),
                        ) && final(self).cursor == GridCursor::new_spec() && r == EmojiOutcome::Redraw
                    } else {
                        final(self).query@ == old(self).query@ && r == EmojiOutcome::Nothing
                    },
                }
            }),
    {
        let len = self.filtered_items.len();
        proof {
            if len > 0 {
                lemma_grid_moves_stay_inside(self.cursor.selected_index as int, len as int);
                lemma_page_moves_stay_inside(self.cursor.page as int, len as int);
                assert(self.cursor.page < total_pages(len as int)) by (nonlinear_arith)
                    requires
                        self.cursor.page * 35 < len,
                        total_pages(len as int) == (len + 34) / 35,
                ;
            }
        }
        match event.key {
            KeyName::Right => {
                self.mouse_moved = false;
                self.cursor.select_next(len);
                proof { lemma_page_of_selection(self.cursor.selected_index, self.cursor.page, len); }
                EmojiOutcome::Redraw
            },
            KeyName::Left => {
                self.mouse_moved = false;
                self.cursor.select_prev(len);
                proof { lemma_page_of_selection(self.cursor.selected_index, self.cursor.page, len); }
                EmojiOutcome::Redraw
            },
            KeyName::Down => {
                self.mouse_moved = false;
                self.cursor.select_row_down(len);
                proof { lemma_page_of_selection(self.cursor.selected_index, self.cursor.page, len); }
                EmojiOutcome::Redraw
            },
            KeyName::Up => {
                self.mouse_moved = false;
                self.cursor.select_row_up(len);
                proof { lemma_page_of_selection(self.cursor.selected_index, self.cursor.page, len); }
                EmojiOutcome::Redraw
            },
            KeyName::PageUp => {
                self.cursor.prev_page(len);
                EmojiOutcome::Redraw
            },
            KeyName::PageDown => {
                self.cursor.next_page(len);
                EmojiOutcome::Redraw
            },
            KeyName::Enter => {
                if self.cursor.selected_index < len {
                    let i = self.filtered_items[self.cursor.selected_index];
                    self.clear_cache();
                    EmojiOutcome::Copy(i)
                } else {
                    EmojiOutcome::Nothing
                }
            },
            KeyName::Escape => {
                self.clear_cache();
                EmojiOutcome::Close
            },
            KeyName::Backspace => {
                if self.query.as_str().unicode_len() > 0 {
                    let q = pop_last(self.query.as_str());
                    self.update_search(q);
                    EmojiOutcome::Redraw
                } else {
                    EmojiOutcome::Nothing
                }
            },
            _ => {
                if event.text.as_str().unicode_len() == 1 && !event.control && !event.alt
                    && !event.platform {
                    let q = self.query.clone().concat(event.text.as_str());
                    self.update_search(q);
                    EmojiOutcome::Redraw
                } else {
                    EmojiOutcome::Nothing
                }
            },
        }
    }
}

/// After a move that put the selection inside the list, the page shown
/// starts inside the list.
proof fn lemma_page_of_selection(sel: usize, page: usize, len: usize)
    requires
        len > 0 ==> sel < len && page == sel / ITEMS_PER_PAGE,
    ensures
        len > 0 ==> page * ITEMS_PER_PAGE < len,
{
    if len > 0 {
        assert(page * 35 <= sel) by (nonlinear_arith)
            requires page == sel / 35;
    }
}

/// The emoji of page `page`: from `page * ITEMS_PER_PAGE` up to a full page,
/// cut at the end of the list; an empty range past the end.
pub fn page_bounds(page: usize, total: usize) -> (r: (usize, usize))
    ensures
        page * ITEMS_PER_PAGE < total ==> r == (
            (page * ITEMS_PER_PAGE) as usize,
            (if page * ITEMS_PER_PAGE + ITEMS_PER_PAGE < total {
                page * ITEMS_PER_PAGE + ITEMS_PER_PAGE
            } else {
                total as int
            }) as usize,
        ),
        page * ITEMS_PER_PAGE >= total ==> r.0 == r.1,
{
    let start = match page.checked_mul(ITEMS_PER_PAGE) {
        Some(v) => v,
        None => {
            return (0, 0);
        },
    };
    if start >= total {
        return (0, 0);
    }
    let end = if total - start > ITEMS_PER_PAGE {
        start + ITEMS_PER_PAGE
    } else {
        total
    };
    (start, end)
}

/// The page the grid draws: back to the first one when the page ran past
/// the last (an empty list has one page).
pub fn visible_page(page: usize, total: usize) -> (r: usize)
    ensures
        r == if page >= (if total == 0 {
            1
        } else {
            total_pages(total as int)
        }) {
            0
        } else {
            page as int
        },
{
    let pages = if total == 0 {
        1
    } else {
        total / ITEMS_PER_PAGE + if total % ITEMS_PER_PAGE == 0 {
            0
        } else {
            1
        }
    };
    proof {
        if total > 0 {
            assert(pages == (total + 34) / 35) by (nonlinear_arith)
                requires
                    total > 0,
                    pages == total / 35 + if total % 35 == 0 {
                        0int
                    } else {
                        1int
                    },
            ;
        }
    }
    if page >= pages {
        0
    } else {
        page
    }
}

/// Whether the category button `cat` shows as chosen: "all" when no
/// category is chosen, any button whose name matches the chosen one
/// without regard to ASCII case.
pub fn category_is_active(cat: &str, filter: &Option<String>) -> (r: bool)
    ensures
        r == match filter {
            None => cat@ == "all"@,
            Some(f) => eq_ignore_ascii_case_spec(cat@, f@),
        },
{
    match filter {
        None => {
            let all = String::from_str("all");
            let c = String::from_str(cat);
            c == all
        },
        Some(f) => eq_ignore_ascii_case(cat, f.as_str()),
    }
}

/// The emojis listed for a query and a category are, in their order,
/// exactly those of that category (ASCII case aside; any category when none
/// is chosen) whose lowercased name, category or one of whose keywords holds
/// the lowercased trimmed query; an empty trimmed query lists the whole
/// category.
pub proof fn lemma_emoji_search(items: Seq<EmojiItem>, query: Seq<char>, category: Option<Seq<char>>)
    requires
        items.len() <= usize::MAX,
    ensures
        forall|i: int|
            0 <= i < items.len() ==> (#[trigger] emoji_filter(items, query, category).contains(
                i as usize,
            ) <==> ((category matches Some(c) ==> eq_ignore_ascii_case_spec(items[i].category@, c))
                && ({
                let lq = lowercased(trim_spec(query));
                lq.len() == 0 || contains_spec(lowercased(items[i].name@), lq) || contains_spec(
                    lowercased(items[i].category@),
                    lq,
                ) || exists|k: int|
                    0 <= k < items[i].keywords@.len() && contains_spec(
                        lowercased(#[trigger] items[i].keywords@[k]@),
                        lq,
                    )
            }))),
        forall|a: int, b: int|
            0 <= a < b < emoji_filter(items, query, category).len() ==> #[trigger] emoji_filter(
                items,
                query,
                category,
            )[a] < #[trigger] emoji_filter(items, query, category)[b],
{
    let keep = |i: int| emoji_matches(items[i], category, lowercased(trim_spec(query)));
    lemma_select_indices_members(items.len(), keep);
}

} // verus!
