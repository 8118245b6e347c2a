use vstd::prelude::*;
use crate::keys::{KeyName, KeyPress};
use crate::dates::{decimal, u64_to_decimal};
use crate::text::{
    eq_ignore_ascii_case, eq_ignore_ascii_case_spec, pop_last, strip_controls,
    strip_controls_spec, trim, trim_spec,
};

verus! {

#[derive(Clone, Copy, Debug, PartialEq, Eq, Structural)]
pub enum SettingsTab {
    Capsule,
    Apps,
    Media,
    LockScreen,
    System,
}

#[derive(Clone, Copy, Debug, PartialEq, Eq, Structural)]
pub enum SettingsSubSection {
    MusicPlayers,
    LockScreenFormats,
}

#[derive(Clone, Copy, Debug, PartialEq, Eq, Structural)]
pub enum SettingsField {
    Terminal,
    Browser,
    Editor,
    CapsuleRound,
    SatelliteRound,
    CardsRound,
    MarginTop,
    IdleHeight,
    Gap,
    AnimDuration,
    IdleTimeout,
    TimeFormat,
    DateFormat,
    Language,
    MusicPlayer,
    Search,
    FileManager,
    VolumeOutput,
    VolumeInput,
}

/// The two looks of the capsule.
#[derive(Clone, Copy, Debug, PartialEq, Eq, Structural)]
pub enum CapsuleStyle {
    Normal,
    Concave,
}

/// Tab cycles forward through the tabs, wrapping.
pub open spec fn next_tab_spec(tab: SettingsTab) -> SettingsTab {
    match tab {
        SettingsTab::Capsule => SettingsTab::Apps,
        SettingsTab::Apps => SettingsTab::Media,
        SettingsTab::Media => SettingsTab::LockScreen,
        SettingsTab::LockScreen => SettingsTab::System,
        SettingsTab::System => SettingsTab::Capsule,
    }
}

pub fn next_tab(tab: SettingsTab) -> (r: SettingsTab)
    ensures
        r == next_tab_spec(tab),
{
    match tab {
        SettingsTab::Capsule => SettingsTab::Apps,
        SettingsTab::Apps => SettingsTab::Media,
        SettingsTab::Media => SettingsTab::LockScreen,
        SettingsTab::LockScreen => SettingsTab::System,
        SettingsTab::System => SettingsTab::Capsule,
    }
}

/// Where the sheet is and what is open in it.
#[derive(Clone, Copy, Debug, PartialEq, Eq, Structural)]
pub struct SettingsNav {
    pub active_tab: SettingsTab,
    pub active_field: Option<SettingsField>,
    pub open_dropdown: Option<SettingsField>,
    pub dropdown_anim_field: Option<SettingsField>,
    pub active_subsection: Option<SettingsSubSection>,
}

/// The switches of the form.
#[derive(Clone, Copy, Debug, PartialEq, Eq, Structural)]
pub struct SettingsFlags {
    pub capsule_style: CapsuleStyle,
    pub show_lyrics: bool,
    pub show_clock: bool,
    pub show_media_player: bool,
    pub show_output_devices: bool,
    pub show_input_devices: bool,
}

/// The text fields of the form.
pub struct SettingsInputs {
    pub terminal: String,
    pub browser: String,
    pub editor: String,
    pub file_manager: String,
    pub music_player: String,
    pub capsule_round: String,
    pub satellite_round: String,
    pub cards_round: String,
    pub margin_top: String,
    pub idle_height: String,
    pub gap: String,
    pub anim_duration: String,
    pub idle_timeout: String,
    pub time_format: String,
    pub date_format: String,
    pub search: String,
}

/// Whether a field is edited as text.
pub open spec fn is_text_field(f: SettingsField) -> bool {
    !(f == SettingsField::Language || f == SettingsField::VolumeOutput || f
        == SettingsField::VolumeInput)
}

/// The text of a text field.
pub open spec fn text_of(i: SettingsInputs, f: SettingsField) -> Seq<char> {
    match f {
        SettingsField::Terminal => i.terminal@,
        SettingsField::Browser => i.browser@,
        SettingsField::Editor => i.editor@,
        SettingsField::FileManager => i.file_manager@,
        SettingsField::MusicPlayer => i.music_player@,
        SettingsField::CapsuleRound => i.capsule_round@,
        SettingsField::SatelliteRound => i.satellite_round@,
        SettingsField::CardsRound => i.cards_round@,
        SettingsField::MarginTop => i.margin_top@,
        SettingsField::IdleHeight => i.idle_height@,
        SettingsField::Gap => i.gap@,
        SettingsField::AnimDuration => i.anim_duration@,
        SettingsField::IdleTimeout => i.idle_timeout@,
        SettingsField::TimeFormat => i.time_format@,
        SettingsField::DateFormat => i.date_format@,
        SettingsField::Search => i.search@,
        _ => Seq::empty(),
    }
}

/// `b` has the texts of `a` except, perhaps, in field `f`.
pub open spec fn same_texts_except(a: SettingsInputs, b: SettingsInputs, f: Option<SettingsField>) -> bool {
    forall|g: SettingsField| Some(g) != f ==> #[trigger] text_of(a, g) == text_of(b, g)
}

impl SettingsInputs {
    pub fn new() -> (r: Self)
        ensures
            forall|g: SettingsField| #[trigger] text_of(r, g) == Seq::<char>::empty(),
    {
        SettingsInputs {
            terminal: String::new(),
            browser: String::new(),
            editor: String::new(),
            file_manager: String::new(),
            music_player: String::new(),
            capsule_round: String::new(),
            satellite_round: String::new(),
            cards_round: String::new(),
            margin_top: String::new(),
            idle_height: String::new(),
            gap: String::new(),
            anim_duration: String::new(),
            idle_timeout: String::new(),
            time_format: String::new(),
            date_format: String::new(),
            search: String::new(),
        }
    }

    /// Replaces the text of field `f`; fields without text are left alone.
    pub fn set(&mut self, f: SettingsField, value: String)
        ensures
            is_text_field(f) ==> text_of(*final(self), f) == value@,
            same_texts_except(*old(self), *final(self), Some(f)),
            !is_text_field(f) ==> same_texts_except(*old(self), *final(self), None),
    {
        match f {
            SettingsField::Terminal => self.terminal = value,
            SettingsField::Browser => self.browser = value,
            SettingsField::Editor => self.editor = value,
            SettingsField::FileManager => self.file_manager = value,
            SettingsField::MusicPlayer => self.music_player = value,
            SettingsField::CapsuleRound => self.capsule_round = value,
            SettingsField::SatelliteRound => self.satellite_round = value,
            SettingsField::CardsRound => self.cards_round = value,
            SettingsField::MarginTop => self.margin_top = value,
            SettingsField::IdleHeight => self.idle_height = value,
            SettingsField::Gap => self.gap = value,
            SettingsField::AnimDuration => self.anim_duration = value,
            SettingsField::IdleTimeout => self.idle_timeout = value,
            SettingsField::TimeFormat => self.time_format = value,
            SettingsField::DateFormat => self.date_format = value,
            SettingsField::Search => self.search = value,
            _ => {},
        }
    }

    /// The text of field `f` (empty for fields without text).
    pub fn get(&self, f: SettingsField) -> (r: String)
        ensures
            r@ == text_of(*self, f),
    {
        match f {
            SettingsField::Terminal => self.terminal.clone(),
            SettingsField::Browser => self.browser.clone(),
            SettingsField::Editor => self.editor.clone(),
            SettingsField::FileManager => self.file_manager.clone(),
            SettingsField::MusicPlayer => self.music_player.clone(),
            SettingsField::CapsuleRound => self.capsule_round.clone(),
            SettingsField::SatelliteRound => self.satellite_round.clone(),
            SettingsField::CardsRound => self.cards_round.clone(),
            SettingsField::MarginTop => self.margin_top.clone(),
            SettingsField::IdleHeight => self.idle_height.clone(),
            SettingsField::Gap => self.gap.clone(),
            SettingsField::AnimDuration => self.anim_duration.clone(),
            SettingsField::IdleTimeout => self.idle_timeout.clone(),
            SettingsField::TimeFormat => self.time_format.clone(),
            SettingsField::DateFormat => self.date_format.clone(),
            SettingsField::Search => self.search.clone(),
            _ => String::new(),
        }
    }
}

/// What the caller does after a settings action.
#[derive(Clone, Copy, Debug, PartialEq, Eq, Structural)]
pub enum SettingsOutcome {
    Nothing,
    Redraw,
    /// Redraw and write the form to the configuration.
    Save,
    /// Redraw and start the section cross-fade.
    Transition,
    /// Read the clipboard and hand its text to `paste`.
    Paste,
    /// Reset the sheet and close it.
    Close,
}

/// State of the settings sheet.
pub struct SettingsModule {
    pub nav: SettingsNav,
    pub flags: SettingsFlags,
    pub inputs: SettingsInputs,
    pub music_players: Vec<String>,
}

/// A closed navigation: no field, no dropdown, no subsection.
pub open spec fn nav_closed(n: SettingsNav) -> bool {
    n.active_field is None && n.open_dropdown is None && n.dropdown_anim_field is None
        && n.active_subsection is None
}

/// What an edit of field `f` asks for: the search field only redraws,
/// every other field is saved.
pub open spec fn edit_outcome(f: SettingsField) -> SettingsOutcome {
    if f == SettingsField::Search {
        SettingsOutcome::Redraw
    } else {
        SettingsOutcome::Save
    }
}

/// Adding a music player: the trimmed name joins the list unless it is
/// empty or already there (ASCII letters compared without case).
pub open spec fn player_known(players: Seq<String>, name: Seq<char>) -> bool {
    exists|i: int| 0 <= i < players.len() && eq_ignore_ascii_case_spec(#[trigger] players[i]@, name)
}

impl SettingsModule {
    pub fn new(flags: SettingsFlags) -> (r: Self)
        ensures
            r.nav == (SettingsNav {
                active_tab: SettingsTab::Capsule,
                active_field: None,
                open_dropdown: None,
                dropdown_anim_field: None,
                active_subsection: None,
            }),
            r.flags == flags,
            forall|g: SettingsField| #[trigger] text_of(r.inputs, g) == Seq::<char>::empty(),
            r.music_players@ == Seq::<String>::empty(),
    {
        SettingsModule {
            nav: SettingsNav {
                active_tab: SettingsTab::Capsule,
                active_field: None,
                open_dropdown: None,
                dropdown_anim_field: None,
                active_subsection: None,
            },
            flags,
            inputs: SettingsInputs::new(),
            music_players: Vec::new(),
        }
    }

    /// Switches tab, leaving any subsection, search, field and dropdown;
    /// returns whether the view changed (the caller then cross-fades).
    pub fn set_tab(&mut self, tab: SettingsTab) -> (changed: bool)
        ensures
            changed == (old(self).nav.active_tab != tab || old(self).nav.active_subsection is Some
                || text_of(old(self).inputs, SettingsField::Search).len() > 0),
            final(self).nav.active_tab == tab,
            nav_closed(final(self).nav),
            text_of(final(self).inputs, SettingsField::Search) == Seq::<char>::empty(),
            same_texts_except(old(self).inputs, final(self).inputs, Some(SettingsField::Search)),
            final(self).flags == old(self).flags,
            final(self).music_players@ == old(self).music_players@,
    {
        let changed = self.nav.active_tab != tab || self.nav.active_subsection.is_some()
            || self.inputs.search.as_str().unicode_len() > 0;
        self.nav = SettingsNav {
            active_tab: tab,
            active_field: None,
            open_dropdown: None,
            dropdown_anim_field: None,
            active_subsection: None,
        };
        self.inputs.set(SettingsField::Search, String::new());
        changed
    }

    pub fn open_subsection(&mut self, sub: SettingsSubSection)
        ensures
            final(self).nav == (SettingsNav {
                active_subsection: Some(sub),
                active_field: None,
                open_dropdown: None,
                dropdown_anim_field: None,
                ..old(self).nav
            }),
            final(self).flags == old(self).flags,
            same_texts_except(old(self).inputs, final(self).inputs, None),
            final(self).music_players@ == old(self).music_players@,
    {
        self.nav = SettingsNav {
            active_subsection: Some(sub),
            active_field: None,
            open_dropdown: None,
            dropdown_anim_field: None,
            ..self.nav
        };
    }

    /// Leaves the subsection, if one is open; returns whether one was.
    pub fn close_subsection(&mut self) -> (closed: bool)
        ensures
            closed == old(self).nav.active_subsection is Some,
            closed ==> final(self).nav == (SettingsNav {
                active_subsection: None,
                active_field: None,
                open_dropdown: None,
                dropdown_anim_field: None,
                ..old(self).nav
            }),
            !closed ==> final(self).nav == old(self).nav,
            final(self).flags == old(self).flags,
            same_texts_except(old(self).inputs, final(self).inputs, None),
            final(self).music_players@ == old(self).music_players@,
    {
        if self.nav.active_subsection.is_some() {
            self.nav = SettingsNav {
                active_subsection: None,
                active_field: None,
                open_dropdown: None,
                dropdown_anim_field: None,
                ..self.nav
            };
            true
        } else {
            false
        }
    }

    pub fn navigate_back(&mut self) -> (closed: bool)
        ensures
            closed == old(self).nav.active_subsection is Some,
            final(self).nav.active_subsection is None,
            final(self).flags == old(self).flags,
    {
        self.close_subsection()
    }

    pub fn can_navigate_back(&self) -> (r: bool)
        ensures
            r == self.nav.active_subsection is Some,
    {
        self.nav.active_subsection.is_some()
    }

    pub fn can_navigate_forward(&self) -> (r: bool)
        ensures
            !r,
    {
        false
    }

    /// Opens the dropdown of `field`, or closes it when it is the open one;
    /// returns whether it opened (the caller then animates it).
    pub fn toggle_dropdown(&mut self, field: SettingsField) -> (opened: bool)
        ensures
            opened == (old(self).nav.open_dropdown != Some(field)),
            opened ==> final(self).nav == (SettingsNav {
                open_dropdown: Some(field),
                dropdown_anim_field: Some(field),
                active_field: None,
                ..old(self).nav
            }),
            !opened ==> final(self).nav == (SettingsNav {
                open_dropdown: None,
                dropdown_anim_field: None,
                ..old(self).nav
            }),
            final(self).flags == old(self).flags,
    {
        if self.nav.open_dropdown == Some(field) {
            self.nav = SettingsNav { open_dropdown: None, dropdown_anim_field: None, ..self.nav };
            false
        } else {
            self.nav = SettingsNav {
                open_dropdown: Some(field),
                dropdown_anim_field: Some(field),
                active_field: None,
                ..self.nav
            };
            true
        }
    }

    fn close_menus(&mut self)
        ensures
            final(self).nav == (SettingsNav {
                open_dropdown: None,
                dropdown_anim_field: None,
                active_field: None,
                ..old(self).nav
            }),
            final(self).flags == old(self).flags,
            same_texts_except(old(self).inputs, final(self).inputs, None),
            final(self).music_players@ == old(self).music_players@,
    {
        self.nav = SettingsNav {
            open_dropdown: None,
            dropdown_anim_field: None,
            active_field: None,
            ..self.nav
        };
    }

    /// Picks an application command from a dropdown; only the terminal,
    /// browser, editor and file manager fields take one. The caller saves.
    pub fn select_app_command(&mut self, field: SettingsField, command: String)
        ensures
            (field == SettingsField::Terminal || field == SettingsField::Browser || field
                == SettingsField::Editor || field == SettingsField::FileManager) ==> text_of(
                final(self).inputs,
                field,
            ) == command@ && same_texts_except(old(self).inputs, final(self).inputs, Some(field)),
            !(field == SettingsField::Terminal || field == SettingsField::Browser || field
                == SettingsField::Editor || field == SettingsField::FileManager)
                ==> same_texts_except(old(self).inputs, final(self).inputs, None),
            final(self).nav == (SettingsNav {
                open_dropdown: None,
                dropdown_anim_field: None,
                active_field: None,
                ..old(self).nav
            }),
            final(self).flags == old(self).flags,
    {
        match field {
            SettingsField::Terminal | SettingsField::Browser | SettingsField::Editor
            | SettingsField::FileManager => {
                self.inputs.set(field, command);
            },
            _ => {},
        }
        self.close_menus();
    }

    /// A language was picked: the menus close (the caller switches the
    /// language).
    pub fn select_language(&mut self)
        ensures
            final(self).nav == (SettingsNav {
                open_dropdown: None,
                dropdown_anim_field: None,
                active_field: None,
                ..old(self).nav
            }),
            final(self).flags == old(self).flags,
            same_texts_except(old(self).inputs, final(self).inputs, None),
    {
        self.close_menus();
    }

    pub fn set_active_field(&mut self, field: Option<SettingsField>)
        ensures
            final(self).nav == (SettingsNav { active_field: field, ..old(self).nav }),
            final(self).flags == old(self).flags,
    {
        self.nav = SettingsNav { active_field: field, ..self.nav };
    }

    /// A preset value for one of the command or format fields. The caller
    /// saves.
    pub fn apply_preset(&mut self, field: SettingsField, value: String)
        ensures
            (field == SettingsField::Terminal || field == SettingsField::Browser || field
                == SettingsField::Editor || field == SettingsField::FileManager || field
                == SettingsField::TimeFormat || field == SettingsField::DateFormat) ==> text_of(
                final(self).inputs,
                field,
            ) == value@ && same_texts_except(old(self).inputs, final(self).inputs, Some(field)),
            !(field == SettingsField::Terminal || field == SettingsField::Browser || field
                == SettingsField::Editor || field == SettingsField::FileManager || field
                == SettingsField::TimeFormat || field == SettingsField::DateFormat)
                ==> same_texts_except(old(self).inputs, final(self).inputs, None),
            final(self).nav == (SettingsNav { active_field: None, ..old(self).nav }),
            final(self).flags == old(self).flags,
    {
        match field {
            SettingsField::Terminal | SettingsField::Browser | SettingsField::Editor
            | SettingsField::FileManager | SettingsField::TimeFormat
            | SettingsField::DateFormat => {
                self.inputs.set(field, value);
            },
            _ => {},
        }
        self.nav = SettingsNav { active_field: None, ..self.nav };
    }

    /// Adds a music player by name; returns whether it was added (the
    /// caller then saves).
    pub fn add_music_player(&mut self, player: &str) -> (added: bool)
        ensures
            added == (trim_spec(player@).len() > 0 && !player_known(
                old(self).music_players@,
                trim_spec(player@),
            )),
            added ==> final(self).music_players@.len() == old(self).music_players@.len() + 1
                && final(self).music_players@.take(old(self).music_players@.len() as int)
                == old(self).music_players@ && final(self).music_players@.last()@ == trim_spec(
                player@,
            ) && text_of(final(self).inputs, SettingsField::MusicPlayer) == Seq::<char>::empty()
                && same_texts_except(
                old(self).inputs,
                final(self).inputs,
                Some(SettingsField::MusicPlayer),
            ),
            !added ==> final(self).music_players@ == old(self).music_players@ && same_texts_except(
                old(self).inputs,
                final(self).inputs,
                None,
            ),
            final(self).nav == old(self).nav,
            final(self).flags == old(self).flags,
    {
        let clean = trim(player);
        if clean.as_str().unicode_len() == 0 {
            return false;
        }
        let mut i: usize = 0;
        while i < self.music_players.len()
            invariant
                i <= self.music_players@.len(),
                clean@ == trim_spec(player@),
                clean@.len() > 0,
                *self == *old(self),
                forall|j: int|
                    0 <= j < i ==> !eq_ignore_ascii_case_spec(
                        #[trigger] self.music_players@[j]@,
                        clean@,
                    ),
            decreases self.music_players@.len() - i,
        {
            if eq_ignore_ascii_case(self.music_players[i].as_str(), clean.as_str()) {
                proof {
                    assert(eq_ignore_ascii_case_spec(self.music_players@[i as int]@, clean@));
                    assert(self.music_players@ == old(self).music_players@);
                    assert(player_known(old(self).music_players@, clean@));
                }
                return false;
            }
            i = i + 1;
        }
        let ghost before = self.music_players@;
        self.music_players.push(clean);
        proof {
            assert(self.music_players@.take(before.len() as int) == before);
        }
        self.inputs.set(SettingsField::MusicPlayer, String::new());
        true
    }

    /// Removes the music player at `index`; returns whether there was one
    /// (the caller then saves).
    pub fn remove_music_player(&mut self, index: usize) -> (removed: bool)
        ensures
            removed == (index < old(self).music_players@.len()),
            removed ==> final(self).music_players@ == old(self).music_players@.remove(index as int),
            !removed ==> final(self).music_players@ == old(self).music_players@,
            final(self).nav == old(self).nav,
            final(self).flags == old(self).flags,
    {
        if index < self.music_players.len() {
            self.music_players.remove(index);
            true
        } else {
            false
        }
    }

    pub fn toggle_show_clock(&mut self)
        ensures
            final(self).flags == (SettingsFlags {
                show_clock: !old(self).flags.show_clock,
                ..old(self).flags
            }),
            final(self).nav == old(self).nav,
    {
        self.flags = SettingsFlags { show_clock: !self.flags.show_clock, ..self.flags };
    }

    pub fn toggle_show_lyrics(&mut self)
        ensures
            final(self).flags == (SettingsFlags {
                show_lyrics: !old(self).flags.show_lyrics,
                ..old(self).flags
            }),
            final(self).nav == old(self).nav,
    {
        self.flags = SettingsFlags { show_lyrics: !self.flags.show_lyrics, ..self.flags };
    }

    pub fn toggle_output_devices(&mut self)
        ensures
            final(self).flags == (SettingsFlags {
                show_output_devices: !old(self).flags.show_output_devices,
                ..old(self).flags
            }),
            final(self).nav == old(self).nav,
    {
        self.flags = SettingsFlags {
            show_output_devices: !self.flags.show_output_devices,
            ..self.flags
        };
    }

    pub fn toggle_input_devices(&mut self)
        ensures
            final(self).flags == (SettingsFlags {
                show_input_devices: !old(self).flags.show_input_devices,
                ..old(self).flags
            }),
            final(self).nav == old(self).nav,
    {
        self.flags = SettingsFlags {
            show_input_devices: !self.flags.show_input_devices,
            ..self.flags
        };
    }

    pub fn toggle_show_media_player(&mut self)
        ensures
            final(self).flags == (SettingsFlags {
                show_media_player: !old(self).flags.show_media_player,
                ..old(self).flags
            }),
            final(self).nav == old(self).nav,
    {
        self.flags = SettingsFlags {
            show_media_player: !self.flags.show_media_player,
            ..self.flags
        };
    }

    /// A whole-number setting picked from a list: only the lock-screen idle
    /// timeout is one; it is written in base ten. Returns whether the form
    /// changed (the caller then saves it).
    pub fn set_field_int(&mut self, field: SettingsField, val: u64)
        ensures
            field == SettingsField::IdleTimeout ==> text_of(final(self).inputs, field) == decimal(
                val as nat,
            ),
            field == SettingsField::IdleTimeout ==> same_texts_except(
                old(self).inputs,
                final(self).inputs,
                Some(field),
            ),
            field != SettingsField::IdleTimeout ==> same_texts_except(
                old(self).inputs,
                final(self).inputs,
                None,
            ),
            final(self).nav == old(self).nav,
            final(self).flags == old(self).flags,
            final(self).music_players@ == old(self).music_players@,
    {
        if field == SettingsField::IdleTimeout {
            self.inputs.set(field, u64_to_decimal(val));
        }
    }

    /// The idle timeout the form holds, in seconds: its text read as a
    /// whole number, or 900 when it is not one.
    pub fn idle_timeout(&self) -> (r: u64)
        ensures
            r == match parse_u64_spec(text_of(self.inputs, SettingsField::IdleTimeout)) {
                Some(v) => v,
                None => 900,
            },
    {
        match parse_u64(self.inputs.idle_timeout.as_str()) {
            Some(v) => v,
            None => 900,
        }
    }

    pub fn set_capsule_style(&mut self, style: CapsuleStyle)
        ensures
            final(self).flags == (SettingsFlags { capsule_style: style, ..old(self).flags }),
            final(self).nav == old(self).nav,
    {
        self.flags = SettingsFlags { capsule_style: style, ..self.flags };
    }

    /// Closes the sheet: back to the first tab with nothing open and no
    /// search.
    pub fn close(&mut self) -> (r: SettingsOutcome)
        ensures
            r == SettingsOutcome::Close,
            final(self).nav.active_tab == SettingsTab::Capsule,
            nav_closed(final(self).nav),
            text_of(final(self).inputs, SettingsField::Search) == Seq::<char>::empty(),
            final(self).flags == old(self).flags,
    {
        self.set_tab(SettingsTab::Capsule);
        SettingsOutcome::Close
    }

    fn append_text_to_field(&mut self, field: SettingsField, text: &str)
        ensures
            is_text_field(field) ==> text_of(final(self).inputs, field) == text_of(
                old(self).inputs,
                field,
            ) + text@ && same_texts_except(old(self).inputs, final(self).inputs, Some(field)),
            !is_text_field(field) ==> same_texts_except(old(self).inputs, final(self).inputs, None),
            final(self).nav == old(self).nav,
            final(self).flags == old(self).flags,
            final(self).music_players@ == old(self).music_players@,
    {
        let current = self.inputs.get(field);
        let updated = current.concat(text);
        if is_text(field) {
            self.inputs.set(field, updated);
        }
    }

    fn pop_char_from_field(&mut self, field: SettingsField)
        ensures
            is_text_field(field) && text_of(old(self).inputs, field).len() > 0 ==> text_of(
                final(self).inputs,
                field,
            ) == text_of(old(self).inputs, field).drop_last(),
            same_texts_except(old(self).inputs, final(self).inputs, Some(field)),
            is_text_field(field) && text_of(old(self).inputs, field).len() == 0 ==> text_of(
                final(self).inputs,
                field,
            ) == Seq::<char>::empty(),
            final(self).nav == old(self).nav,
            final(self).flags == old(self).flags,
            final(self).music_players@ == old(self).music_players@,
    {
        if is_text(field) {
            let current = self.inputs.get(field);
            let updated = pop_last(current.as_str());
            self.inputs.set(field, updated);
        }
    }

    /// Appends pasted text, control characters dropped, to the field being
    /// edited; returns what the caller does next.
    pub fn paste(&mut self, text: &str) -> (r: SettingsOutcome)
        ensures
            old(self).nav.active_field is None ==> r == SettingsOutcome::Nothing
                && same_texts_except(old(self).inputs, final(self).inputs, None),
            old(self).nav.active_field matches Some(f) ==> (is_text_field(f) ==> text_of(
                final(self).inputs,
                f,
            ) == text_of(old(self).inputs, f) + strip_controls_spec(text@)) && same_texts_except(
                old(self).inputs,
                final(self).inputs,
                Some(f),
            ) && r == if f == SettingsField::Search {
                SettingsOutcome::Redraw
            } else {
                SettingsOutcome::Save
            },
            final(self).nav == old(self).nav,
            final(self).flags == old(self).flags,
    {
        match self.nav.active_field {
            None => SettingsOutcome::Nothing,
            Some(field) => {
                let clean = strip_controls(text);
                self.append_text_to_field(field, clean.as_str());
                if field != SettingsField::Search {
                    SettingsOutcome::Save
                } else {
                    SettingsOutcome::Redraw
                }
            },
        }
    }

    /// Handles a key press of the sheet. Escape backs out one level at a
    /// time: dropdown, search, field, subsection, then the sheet itself.
    pub fn handle_key_down(&mut self, event: &KeyPress) -> (r: SettingsOutcome)
        ensures
            final(self).flags == old(self).flags,
            event.key == KeyName::Escape ==> if old(self).nav.open_dropdown is Some {
                final(self).nav == (SettingsNav {
                    open_dropdown: None,
                    dropdown_anim_field: None,
                    ..old(self).nav
                }) && r == SettingsOutcome::Redraw
            } else if old(self).nav.active_field == Some(SettingsField::Search) && text_of(
                old(self).inputs,
                SettingsField::Search,
            ).len() > 0 {
                text_of(final(self).inputs, SettingsField::Search) == Seq::<char>::empty()
                    && final(self).nav == (SettingsNav { active_field: None, ..old(self).nav })
                    && r == SettingsOutcome::Transition
            } else if old(self).nav.active_field is Some {
                final(self).nav == (SettingsNav { active_field: None, ..old(self).nav }) && r
                    == SettingsOutcome::Redraw
            } else if old(self).nav.active_subsection is Some {
                final(self).nav.active_subsection is None && r == SettingsOutcome::Transition
            } else {
                r == SettingsOutcome::Close && final(self).nav.active_tab == SettingsTab::Capsule
                    && nav_closed(final(self).nav)
            },
            event.key == KeyName::Tab && old(self).nav.active_field is None ==> final(self).nav.active_tab == next_tab_spec(old(self).nav.active_tab) && nav_closed(
                final(self).nav,
            ) && r == SettingsOutcome::Transition,
            event.key != KeyName::Escape && !(event.key == KeyName::Tab && old(self).nav.active_field is None) && old(self).nav.active_field is None ==> r
                == SettingsOutcome::Nothing && final(self).nav == old(self).nav
                && same_texts_except(old(self).inputs, final(self).inputs, None),
            old(self).nav.active_field matches Some(f) ==> (event.key != KeyName::Escape ==> ({
                if event.ctrl() && event.key == KeyName::Letter('v') {
                    r == SettingsOutcome::Paste && final(self).nav == old(self).nav
                } else if event.key == KeyName::Backspace {
                    (is_text_field(f) && text_of(old(self).inputs, f).len() > 0 ==> text_of(
                        final(self).inputs,
                        f,
                    ) == text_of(old(self).inputs, f).drop_last()) && same_texts_except(
                        old(self).inputs,
                        final(self).inputs,
                        Some(f),
                    ) && final(self).nav == old(self).nav && r == edit_outcome(f)
                        && final(self).music_players@ == old(self).music_players@
                } else if event.key == KeyName::Enter {
                    final(self).nav == (SettingsNav { active_field: None, ..old(self).nav }) && r
                        == edit_outcome(f) && if f == SettingsField::MusicPlayer {
                        let name = trim_spec(text_of(old(self).inputs, SettingsField::MusicPlayer));
                        if name.len() > 0 && !player_known(old(self).music_players@, name) {
                            final(self).music_players@.len() == old(self).music_players@.len() + 1
                                && final(self).music_players@.take(
                                old(self).music_players@.len() as int,
                            ) == old(self).music_players@ && final(self).music_players@.last()@
                                == name
                        } else {
                            final(self).music_players@ == old(self).music_players@
                        }
                    } else {
                        final(self).music_players@ == old(self).music_players@
                            && same_texts_except(old(self).inputs, final(self).inputs, None)
                    }
                } else if event.text@.len() == 1 && !event.ctrl() {
                    (is_text_field(f) ==> text_of(final(self).inputs, f) == text_of(
                        old(self).inputs,
                        f,
                    ) + event.text@) && same_texts_except(
                        old(self).inputs,
                        final(self).inputs,
                        Some(f),
                    ) && final(self).nav == old(self).nav && r == edit_outcome(f)
                        && final(self).music_players@ == old(self).music_players@
                } else {
                    r == SettingsOutcome::Nothing && final(self).nav == old(self).nav
                        && same_texts_except(old(self).inputs, final(self).inputs, None)
                }
            })),
    {
        let ctrl = event.control || event.platform;
        if event.key == KeyName::Escape {
            if self.nav.open_dropdown.is_some() {
                self.nav = SettingsNav { open_dropdown: None, dropdown_anim_field: None, ..self.nav };
                return SettingsOutcome::Redraw;
            }
            if self.nav.active_field == Some(SettingsField::Search)
                && self.inputs.search.as_str().unicode_len() > 0 {
                self.inputs.set(SettingsField::Search, String::new());
                self.nav = SettingsNav { active_field: None, ..self.nav };
                return SettingsOutcome::Transition;
            }
            if self.nav.active_field.is_some() {
                self.nav = SettingsNav { active_field: None, ..self.nav };
                return SettingsOutcome::Redraw;
            }
            if self.nav.active_subsection.is_some() {
                self.close_subsection();
                return SettingsOutcome::Transition;
            }
            return self.close();
        }
        if event.key == KeyName::Tab && self.nav.active_field.is_none() {
            let tab = next_tab(self.nav.active_tab);
            if self.set_tab(tab) {
                return SettingsOutcome::Transition;
            }
            return SettingsOutcome::Redraw;
        }
        let field = match self.nav.active_field {
            Some(f) => f,
            None => {
                return SettingsOutcome::Nothing;
            },
        };
        if ctrl && event.key == KeyName::Letter('v') {
            return SettingsOutcome::Paste;
        }
        match event.key {
            KeyName::Enter => {
                let mut outcome = if field != SettingsField::Search {
                    SettingsOutcome::Save
                } else {
                    SettingsOutcome::Redraw
                };
                if field == SettingsField::MusicPlayer {
                    let name = self.inputs.music_player.clone();
                    if self.add_music_player(name.as_str()) {
                        outcome = SettingsOutcome::Save;
                    }
                }
                self.nav = SettingsNav { active_field: None, ..self.nav };
                outcome
            },
            KeyName::Backspace => {
                self.pop_char_from_field(field);
                if field != SettingsField::Search {
                    SettingsOutcome::Save
                } else {
                    SettingsOutcome::Redraw
                }
            },
            _ => {
                if event.text.as_str().unicode_len() == 1 && !ctrl {
                    self.append_text_to_field(field, event.text.as_str());
                    if field != SettingsField::Search {
                        SettingsOutcome::Save
                    } else {
                        SettingsOutcome::Redraw
                    }
                } else {
                    SettingsOutcome::Nothing
                }
            },
        }
    }
}

fn is_text(f: SettingsField) -> (r: bool)
    ensures
        r == is_text_field(f),
{
    match f {
        SettingsField::Language | SettingsField::VolumeOutput | SettingsField::VolumeInput => false,
        _ => true,
    }
}

pub open spec fn is_digit(c: char) -> bool {
    '0' <= c && c <= '9'
}

/// The value of a run of decimal digits.
pub open spec fn digits_value(s: Seq<char>) -> nat
    decreases s.len(),
{
    if s.len() == 0 {
        0
    } else {
        digits_value(s.drop_last()) * 10 + (s.last() as nat - 48) as nat
    }
}

/// The text after an optional leading `+`.
pub open spec fn unsigned_digits(s: Seq<char>) -> Seq<char> {
    if s.len() > 0 && s[0] == '+' {
        s.skip(1)
    } else {
        s
    }
}

pub open spec fn all_digits(d: Seq<char>) -> bool {
    forall|i: int| 0 <= i < d.len() ==> is_digit(#[trigger] d[i])
}

/// `u64::from_str`: an optional `+`, then one or more decimal digits whose
/// value fits.
pub open spec fn parse_u64_spec(s: Seq<char>) -> Option<u64> {
    let d = unsigned_digits(s);
    if d.len() > 0 && all_digits(d) && digits_value(d) <= u64::MAX {
        Some(digits_value(d) as u64)
    } else {
        None
    }
}

proof fn lemma_digits_grow(s: Seq<char>, k: int)
    requires
        0 <= k <= s.len(),
        all_digits(s),
    ensures
        digits_value(s.take(k)) <= digits_value(s),
    decreases s.len() - k,
{
    if k < s.len() {
        lemma_digits_grow(s, k + 1);
        assert(s.take(k + 1).drop_last() =~= s.take(k));
    } else {
        assert(s.take(k) =~= s);
    }
}

/// Reads a whole number as `u64::from_str` does.
pub fn parse_u64(text: &str) -> (r: Option<u64>)
    ensures
        r == parse_u64_spec(text@),
{
    let n = text.unicode_len();
    let start: usize = if n > 0 && text.get_char(0) == '+' {
        1
    } else {
        0
    };
    let ghost d = unsigned_digits(text@);
    if start >= n {
        return None;
    }
    let mut value: u64 = 0;
    let mut i: usize = start;
    while i < n
        invariant
            n == text@.len(),
            start <= i <= n,
            d == text@.skip(start as int),
            d == unsigned_digits(text@),
            forall|j: int| 0 <= j < i - start ==> is_digit(#[trigger] d[j]),
            value == digits_value(d.take(i - start)),
        decreases n - i,
    {
        let c = text.get_char(i);
        proof {
            assert(d[i - start] == c);
        }
        if !('0' <= c && c <= '9') {
            proof {
                assert(!is_digit(d[i - start]));
            }
            return None;
        }
        let digit: u64 = (c as u32 - 48) as u64;
        proof {
            assert(d.take(i - start + 1).drop_last() =~= d.take(i - start));
            assert(d.take(i - start + 1).last() == c);
            assert(digits_value(d.take(i - start + 1)) == value * 10 + digit);
        }
        match value.checked_mul(10) {
            Some(v10) => match v10.checked_add(digit) {
                Some(v) => {
                    value = v;
                },
                None => {
                    proof {
                        if all_digits(d) {
                            lemma_digits_grow(d, i - start + 1);
                        }
                    }
                    return None;
                },
            },
            None => {
                proof {
                    if all_digits(d) {
                        lemma_digits_grow(d, i - start + 1);
                    }
                }
                return None;
            },
        }
        i = i + 1;
    }
    proof {
        assert(d.take(n - start) =~= d);
    }
    Some(value)
}

/// Writing a number in base ten and reading it back gives the number:
/// its digits are all decimal digits, none but a lone zero leads with
/// zero, and their value is the number.
pub proof fn lemma_decimal_digits(n: nat)
    ensures
        decimal(n).len() > 0,
        all_digits(decimal(n)),
        digits_value(decimal(n)) == n,
        decimal(n)[0] == '0' ==> n == 0,
    decreases n,
{
    let c = ((n % 10 + 48) as u32) as char;
    assert(c as nat == n % 10 + 48);
    if n >= 10 {
        lemma_decimal_digits(n / 10);
        let d = decimal(n / 10);
        let t = d.push(c);
        assert(t.drop_last() =~= d);
        assert(t[0] == d[0]);
        assert(n / 10 >= 1);
        assert(d[0] != '0');
        assert(decimal(n) == t);
        assert(decimal(n)[0] != '0');
        assert(t.last() == c);
        assert(digits_value(t) == digits_value(d) * 10 + (c as nat - 48) as nat);
        assert((n / 10) * 10 + n % 10 == n);
        assert forall|i: int| 0 <= i < t.len() implies is_digit(#[trigger] t[i]) by {
            if i < d.len() {
                assert(t[i] == d[i]);
            }
        }
    } else {
        assert(decimal(n) == seq![c]);
        if c == '0' {
            assert(('0' as nat) == 48);
            assert(c as nat == 48);
            assert(n == 0);
        }
        assert(decimal(n)[0] == c);
        let one = seq![c];
        assert(one.drop_last() =~= Seq::<char>::empty());
        assert(digits_value(Seq::<char>::empty()) == 0);
        assert(one.last() == c);
        assert(digits_value(one) == digits_value(one.drop_last()) * 10 + (one.last() as nat - 48) as nat);
    }
}

/// Reading back what a number's base-ten text says gives the number, with
/// or without a leading `+`.
pub proof fn lemma_parse_reads_decimal(n: u64)
    ensures
        parse_u64_spec(decimal(n as nat)) == Some(n),
        parse_u64_spec(seq!['+'] + decimal(n as nat)) == Some(n),
{
    lemma_decimal_digits(n as nat);
    let d = decimal(n as nat);
    assert(is_digit(d[0]));
    assert(unsigned_digits(d) == d);
    assert((seq!['+'] + d).skip(1) =~= d);
    assert(unsigned_digits(seq!['+'] + d) == d);
}

/// Tab steps through the five settings tabs in turn: no tab follows
/// itself, every tab is reached from every other, and five steps come
/// back to the start.
pub proof fn lemma_tabs_cycle(tab: SettingsTab, other: SettingsTab)
    ensures
        next_tab_spec(tab) != tab,
        next_tab_spec(next_tab_spec(next_tab_spec(next_tab_spec(next_tab_spec(tab))))) == tab,
        other == tab || other == next_tab_spec(tab) || other == next_tab_spec(next_tab_spec(tab))
            || other == next_tab_spec(next_tab_spec(next_tab_spec(tab))) || other == next_tab_spec(
            next_tab_spec(next_tab_spec(next_tab_spec(tab))),
        ),
        next_tab_spec(SettingsTab::Capsule) == SettingsTab::Apps,
{
}

} // verus!
