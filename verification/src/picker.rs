use vstd::prelude::*;
use crate::keys::{
    KeyName, KeyPress, select_indices, all_indices, lemma_select_indices_bound,
    lemma_select_indices_members,
};
use crate::nav::{next_index, prev_index};
use crate::text::{
    contains_spec, delete_last_word, delete_last_word_spec, lowercased, matches_lowered, pop_last,
    strip_controls, strip_controls_spec, to_lowercase,
};

verus! {

/// The names a picker shows for a query: all of them for an empty query,
/// else those containing it, without regard to case.
pub open spec fn name_filter(names: Seq<String>, query: Seq<char>) -> Seq<usize> {
    if query.len() == 0 {
        select_indices(names.len(), |i: int| true)
    } else {
        select_indices(
            names.len(),
            |i: int| contains_spec(lowercased(names[i]@), lowercased(query)),
        )
    }
}

fn filter_names(names: &Vec<String>, query: &str) -> (r: Vec<usize>)
    ensures
        r@ == name_filter(names@, query@),
{
    if query.unicode_len() == 0 {
        return all_indices(names.len());
    }
    let lq = to_lowercase(query);
    let ghost keep = |i: int| contains_spec(lowercased(names@[i]@), lowercased(query@));
    let mut out: Vec<usize> = Vec::new();
    let mut i: usize = 0;
    while i < names.len()
        invariant
            i <= names@.len(),
            lq@ == lowercased(query@),
            keep == (|i: int| contains_spec(lowercased(names@[i]@), lowercased(query@))),
            out@ == select_indices(i as nat, keep),
        decreases names@.len() - i,
    {
        if matches_lowered(names[i].as_str(), lq.as_str()) {
            out.push(i);
        }
        i = i + 1;
    }
    out
}

/// Which way the carousel slides.
#[derive(Clone, Copy, Debug, PartialEq, Eq, Structural)]
pub enum Slide {
    Back,
    Forward,
}

/// Which keys a picker answers to: the theme picker, or the wallpaper
/// picker, which also takes `h`, `l` and Space.
#[derive(Clone, Copy, Debug, PartialEq, Eq, Structural)]
pub enum PickerKeys {
    Themes,
    Wallpapers,
}

/// What a key press asks of the caller.
#[derive(Clone, Copy, Debug, PartialEq, Eq, Structural)]
pub enum PickerOutcome {
    Nothing,
    /// The query changed: stop any slide and redraw.
    QueryChanged,
    /// Read the clipboard and hand its text to `paste`.
    Paste,
    /// Start a slide the given way.
    Slid(Slide),
    /// Apply the item at this index of the full list.
    Apply(usize),
    Close,
}

/// A carousel of named items (themes or wallpapers) with a search query.
pub struct Picker {
    pub names: Vec<String>,
    pub query: String,
    pub selected_idx: usize,
}

impl Picker {
    pub open spec fn filtered_spec(&self) -> Seq<usize> {
        name_filter(self.names@, self.query@)
    }

    pub fn new(names: Vec<String>, selected_idx: usize) -> (r: Self)
        ensures
            r.names@ == names@,
            r.query@ == Seq::<char>::empty(),
            r.selected_idx == selected_idx,
    {
        Picker { names, query: String::new(), selected_idx }
    }

    /// The indices, in the full list, of the items the query lets through.
    pub fn filtered_items(&self) -> (r: Vec<usize>)
        ensures
            r@ == self.filtered_spec(),
    {
        filter_names(&self.names, self.query.as_str())
    }

    /// Moves the selection to `new_idx`, wrapped into the filtered list;
    /// nothing happens when the list is empty.
    pub fn navigate(&mut self, dir: Slide, new_idx: usize) -> (r: Option<Slide>)
        ensures
            final(self).names@ == old(self).names@,
            final(self).query@ == old(self).query@,
            old(self).filtered_spec().len() == 0 ==> r is None && final(self).selected_idx == old(self).selected_idx,
            old(self).filtered_spec().len() > 0 ==> r == Some(dir) && final(self).selected_idx
                == (new_idx as int) % (old(self).filtered_spec().len() as int),
    {
        let total = self.filtered_items().len();
        if total == 0 {
            return None;
        }
        self.selected_idx = new_idx % total;
        Some(dir)
    }

    /// One item back, wrapping; only a carousel of two or more items moves.
    pub fn select_prev(&mut self) -> (r: Option<Slide>)
        ensures
            final(self).names@ == old(self).names@,
            final(self).query@ == old(self).query@,
            old(self).filtered_spec().len() <= 1 ==> r is None && final(self).selected_idx == old(self).selected_idx,
            old(self).filtered_spec().len() > 1 ==> r == Some(Slide::Back)
                && final(self).selected_idx == prev_index(
                old(self).selected_idx as int,
                old(self).filtered_spec().len() as int,
            ) % (old(self).filtered_spec().len() as int),
    {
        let total = self.filtered_items().len();
        if total > 1 {
            let next = if self.selected_idx == 0 {
                total - 1
            } else {
                self.selected_idx - 1
            };
            self.navigate(Slide::Back, next)
        } else {
            None
        }
    }

    /// One item forward, wrapping; only a carousel of two or more items
    /// moves.
    pub fn select_next(&mut self) -> (r: Option<Slide>)
        ensures
            final(self).names@ == old(self).names@,
            final(self).query@ == old(self).query@,
            old(self).filtered_spec().len() <= 1 ==> r is None && final(self).selected_idx == old(self).selected_idx,
            old(self).filtered_spec().len() > 1 ==> r == Some(Slide::Forward)
                && final(self).selected_idx == next_index(
                old(self).selected_idx as int,
                old(self).filtered_spec().len() as int,
            ) % (old(self).filtered_spec().len() as int),
    {
        let total = self.filtered_items().len();
        if total > 1 {
            let next = crate::nav::select_next(self.selected_idx, total);
            self.navigate(Slide::Forward, next)
        } else {
            None
        }
    }

    pub open spec fn apply_spec(&self) -> Option<usize> {
        let f = self.filtered_spec();
        if f.len() == 0 {
            None
        } else if self.selected_idx < f.len() {
            Some(f[self.selected_idx as int])
        } else {
            Some(f[f.len() - 1])
        }
    }

    /// The item Enter applies: the selected one, or the last one when the
    /// selection ran past the end.
    pub fn apply_selected(&self) -> (r: Option<usize>)
        ensures
            r == self.apply_spec(),
            match r {
                Some(i) => i < self.names@.len(),
                None => true,
            },
    {
        let filtered = self.filtered_items();
        let _n = self.names.len();
        proof {
            lemma_select_indices_bound(self.names@.len(), |i: int| true);
            lemma_select_indices_bound(
                self.names@.len(),
                |i: int| contains_spec(lowercased(self.names@[i]@), lowercased(self.query@)),
            );
        }
        if filtered.len() == 0 {
            None
        } else {
            let idx = crate::nav::clamp_to_last(self.selected_idx, filtered.len());
            Some(filtered[idx])
        }
    }

    /// The selection the carousel draws: back to the first item when it ran
    /// past the end of the filtered list.
    pub fn normalize_selection(&mut self)
        ensures
            final(self).names@ == old(self).names@,
            final(self).query@ == old(self).query@,
            final(self).selected_idx == if old(self).filtered_spec().len() > 0
                && old(self).selected_idx >= old(self).filtered_spec().len() {
                0
            } else {
                old(self).selected_idx
            },
    {
        let total = self.filtered_items().len();
        if total > 0 && self.selected_idx >= total {
            self.selected_idx = 0;
        }
    }

    fn set_query(&mut self, query: String)
        ensures
            final(self).names@ == old(self).names@,
            final(self).query@ == query@,
            final(self).selected_idx == 0,
    {
        self.query = query;
        self.selected_idx = 0;
    }

    /// Appends pasted text, control characters dropped; nothing happens
    /// when nothing printable is left.
    pub fn paste(&mut self, text: &str) -> (changed: bool)
        ensures
            final(self).names@ == old(self).names@,
            changed == (strip_controls_spec(text@).len() > 0),
            changed ==> final(self).query@ == old(self).query@ + strip_controls_spec(text@)
                && final(self).selected_idx == 0,
            !changed ==> final(self).query@ == old(self).query@ && final(self).selected_idx == old(self).selected_idx,
    {
        let clean = strip_controls(text);
        if clean.as_str().unicode_len() > 0 {
            let q = self.query.clone().concat(clean.as_str());
            self.set_query(q);
            true
        } else {
            false
        }
    }

    /// What a key press does to a picker: `old` before it, `new` after it,
    /// `r` what it asks of the caller.
    pub open spec fn key_effect(
        old: Picker,
        new: Picker,
        event: KeyPress,
        keys: PickerKeys,
        r: PickerOutcome,
    ) -> bool {
        &&& (new.names@ == old.names@)
        &&& (event.ctrl() && event.key == KeyName::Letter('u') ==> new.query@ == Seq::<char>::empty() && new.selected_idx == 0 && r == PickerOutcome::QueryChanged)
        &&& (event.ctrl() && event.key == KeyName::Letter('w') ==> new.query@
            == delete_last_word_spec(old.query@) && new.selected_idx == 0 && r
            == PickerOutcome::QueryChanged)
        &&& (event.ctrl() && event.key == KeyName::Letter('v') ==> r == PickerOutcome::Paste
            && new.query@ == old.query@ && new.selected_idx == old.selected_idx)
        &&& (!(event.ctrl() && (event.key == KeyName::Letter('u') || event.key == KeyName::Letter(
            'w',
        ) || event.key == KeyName::Letter('v'))) ==> {
            let back = event.key == KeyName::Left || (keys == PickerKeys::Wallpapers
                && event.key == KeyName::Letter('h'));
            let forward = event.key == KeyName::Right || (keys == PickerKeys::Wallpapers
                && event.key == KeyName::Letter('l'));
            let apply = event.key == KeyName::Enter || (keys == PickerKeys::Wallpapers
                && event.key == KeyName::Space);
            if event.key == KeyName::Escape {
                r == PickerOutcome::Close && new.query@ == old.query@ && new.selected_idx
                    == old.selected_idx
            } else if back {
                new.query@ == old.query@ && (old.filtered_spec().len() > 1 ==> r
                    == PickerOutcome::Slid(Slide::Back) && new.selected_idx == prev_index(
                    old.selected_idx as int,
                    old.filtered_spec().len() as int,
                ) % (old.filtered_spec().len() as int)) && (old.filtered_spec().len() <= 1 ==> r
                    == PickerOutcome::Nothing && new.selected_idx == old.selected_idx)
            } else if forward {
                new.query@ == old.query@ && (old.filtered_spec().len() > 1 ==> r
                    == PickerOutcome::Slid(Slide::Forward) && new.selected_idx == next_index(
                    old.selected_idx as int,
                    old.filtered_spec().len() as int,
                ) % (old.filtered_spec().len() as int)) && (old.filtered_spec().len() <= 1 ==> r
                    == PickerOutcome::Nothing && new.selected_idx == old.selected_idx)
            } else if apply {
                new.query@ == old.query@ && new.selected_idx == old.selected_idx && r == match old.apply_spec() {
                    Some(i) => PickerOutcome::Apply(i),
                    None => PickerOutcome::Nothing,
                }
            } else if event.key == KeyName::Backspace {
                if old.query@.len() > 0 {
                    new.query@ == old.query@.drop_last()
                        && new.selected_idx == 0 && r == PickerOutcome::QueryChanged
                } else {
                    new.query@ == old.query@ && r == PickerOutcome::Nothing && new.selected_idx
                        == old.selected_idx
                }
            } else if event.text@.len() == 1 && !event.ctrl() {
                new.query@ == old.query@ + event.text@
                    && new.selected_idx == 0 && r == PickerOutcome::QueryChanged
            } else {
                new.query@ == old.query@ && r == PickerOutcome::Nothing && new.selected_idx
                    == old.selected_idx
            }
        })
    }

    /// Handles a key press; `keys` tells which picker this is.
    pub fn handle_key_down(&mut self, event: &KeyPress, keys: PickerKeys) -> (r: PickerOutcome)
        ensures
            Picker::key_effect(*old(self), *final(self), *event, keys, r),
    {
        let ctrl = event.control || event.platform;
        if ctrl {
            match event.key {
                KeyName::Letter(c) => {
                    if c == 'u' {
                        self.set_query(String::new());
                        return PickerOutcome::QueryChanged;
                    }
                    if c == 'w' {
                        let q = delete_last_word(self.query.as_str());
                        self.set_query(q);
                        return PickerOutcome::QueryChanged;
                    }
                    if c == 'v' {
                        return PickerOutcome::Paste;
                    }
                },
                _ => {},
            }
        }
        let wall = keys == PickerKeys::Wallpapers;
        let back = match event.key {
            KeyName::Left => true,
            KeyName::Letter(c) => wall && c == 'h',
            _ => false,
        };
        let forward = match event.key {
            KeyName::Right => true,
            KeyName::Letter(c) => wall && c == 'l',
            _ => false,
        };
        let apply = match event.key {
            KeyName::Enter => true,
            KeyName::Space => wall,
            _ => false,
        };
        if event.key == KeyName::Escape {
            PickerOutcome::Close
        } else if back {
            match self.select_prev() {
                Some(d) => PickerOutcome::Slid(d),
                None => PickerOutcome::Nothing,
            }
        } else if forward {
            match self.select_next() {
                Some(d) => PickerOutcome::Slid(d),
                None => PickerOutcome::Nothing,
            }
        } else if apply {
            match self.apply_selected() {
                Some(i) => PickerOutcome::Apply(i),
                None => PickerOutcome::Nothing,
            }
        } else if event.key == KeyName::Backspace {
            if self.query.as_str().unicode_len() > 0 {
                let q = pop_last(self.query.as_str());
                self.set_query(q);
                PickerOutcome::QueryChanged
            } else {
                PickerOutcome::Nothing
            }
        } else if event.text.as_str().unicode_len() == 1 && !ctrl {
            let q = self.query.clone().concat(event.text.as_str());
            self.set_query(q);
            PickerOutcome::QueryChanged
        } else {
            PickerOutcome::Nothing
        }
    }
}

/// The theme picker.
pub struct SelectThemeModule {
    pub picker: Picker,
}

/// The wallpaper picker.
pub struct WallpaperModule {
    pub picker: Picker,
}

impl SelectThemeModule {
    /// Opens on the current theme, or the first one when the current theme
    /// is not in the list.
    pub fn new(names: Vec<String>, current: Option<usize>) -> (r: Self)
        ensures
            r.picker.names@ == names@,
            r.picker.query@ == Seq::<char>::empty(),
            r.picker.selected_idx == match current {
                Some(i) => i,
                None => 0,
            },
    {
        let selected = match current {
            Some(i) => i,
            None => 0,
        };
        SelectThemeModule { picker: Picker::new(names, selected) }
    }

    /// Takes a fresh theme list; the selection follows the current theme
    /// when it is in the list.
    pub fn refresh_themes(&mut self, names: Vec<String>, current: Option<usize>)
        ensures
            final(self).picker.names@ == names@,
            final(self).picker.query@ == old(self).picker.query@,
            final(self).picker.selected_idx == match current {
                Some(i) => i,
                None => old(self).picker.selected_idx,
            },
    {
        self.picker.names = names;
        match current {
            Some(i) => {
                self.picker.selected_idx = i;
            },
            None => {},
        }
    }

    pub fn handle_key_down(&mut self, event: &KeyPress) -> (r: PickerOutcome)
        ensures
            Picker::key_effect(old(self).picker, final(self).picker, *event, PickerKeys::Themes, r),
    {
        self.picker.handle_key_down(event, PickerKeys::Themes)
    }
}

impl WallpaperModule {
    pub fn new() -> (r: Self)
        ensures
            r.picker.names@ == Seq::<String>::empty(),
            r.picker.query@ == Seq::<char>::empty(),
            r.picker.selected_idx == 0,
    {
        WallpaperModule { picker: Picker::new(Vec::new(), 0) }
    }

    /// Takes a fresh wallpaper list. When the list changed, the selection
    /// goes to the current wallpaper if it is listed, else stays unless it
    /// ran past the end; an unchanged list only aims at the current
    /// wallpaper the first time.
    pub fn reload_items(
        &mut self,
        names: Vec<String>,
        changed: bool,
        initialized: bool,
        current: Option<usize>,
    ) -> (initialized_now: bool)
        ensures
            initialized_now || (!changed && initialized),
            changed ==> final(self).picker.names@ == names@,
            !changed ==> final(self).picker.names@ == old(self).picker.names@,
            final(self).picker.query@ == old(self).picker.query@,
            changed ==> final(self).picker.selected_idx == match current {
                Some(i) => i,
                None => if old(self).picker.selected_idx >= names@.len() {
                    0
                } else {
                    old(self).picker.selected_idx
                },
            },
            !changed && !initialized ==> final(self).picker.selected_idx == match current {
                Some(i) => i,
                None => old(self).picker.selected_idx,
            },
            !changed && initialized ==> final(self).picker.selected_idx == old(self).picker.selected_idx,
    {
        if changed {
            let len = names.len();
            self.picker.names = names;
            match current {
                Some(i) => {
                    self.picker.selected_idx = i;
                },
                None => {
                    if self.picker.selected_idx >= len {
                        self.picker.selected_idx = 0;
                    }
                },
            }
            true
        } else if !initialized {
            match current {
                Some(i) => {
                    self.picker.selected_idx = i;
                },
                None => {},
            }
            true
        } else {
            initialized
        }
    }

    /// Forgets the list and the query (the picker closes).
    pub fn clear_cache(&mut self)
        ensures
            final(self).picker.names@ == Seq::<String>::empty(),
            final(self).picker.query@ == Seq::<char>::empty(),
            final(self).picker.selected_idx == 0,
    {
        self.picker.names = Vec::new();
        self.picker.query = String::new();
        self.picker.selected_idx = 0;
    }

    pub fn handle_key_down(&mut self, event: &KeyPress) -> (r: PickerOutcome)
        ensures
            Picker::key_effect(
                old(self).picker,
                final(self).picker,
                *event,
                PickerKeys::Wallpapers,
                r,
            ),
    {
        self.picker.handle_key_down(event, PickerKeys::Wallpapers)
    }
}

/// The names a picker lists for a query are, in their order, exactly those
/// whose lowercased form holds the lowercased query; an empty query lists
/// them all. Enter applies the highlighted one of them, or the last when
/// the highlight ran past the end, and nothing when none is listed.
pub proof fn lemma_picker_search_and_apply(p: Picker)
    requires
        p.names@.len() <= usize::MAX,
    ensures
        forall|i: int|
            0 <= i < p.names@.len() ==> (#[trigger] p.filtered_spec().contains(i as usize) <==> (
            p.query@.len() == 0 || contains_spec(lowercased(p.names@[i]@), lowercased(p.query@)))),
        forall|a: int, b: int|
            0 <= a < b < p.filtered_spec().len() ==> #[trigger] p.filtered_spec()[a]
                < #[trigger] p.filtered_spec()[b],
        p.filtered_spec().len() == 0 ==> p.apply_spec() is None,
        p.selected_idx < p.filtered_spec().len() ==> p.apply_spec() == Some(
            p.filtered_spec()[p.selected_idx as int],
        ),
        0 < p.filtered_spec().len() <= p.selected_idx ==> p.apply_spec() == Some(
            p.filtered_spec().last(),
        ),
{
    lemma_select_indices_members(p.names@.len(), |i: int| true);
    lemma_select_indices_members(
        p.names@.len(),
        |i: int| contains_spec(lowercased(p.names@[i]@), lowercased(p.query@)),
    );
}

} // verus!
