use vstd::prelude::*;
use crate::keys::{KeyName, KeyPress};
use crate::text::{is_control, is_control_spec, pop_last, trim, trim_spec};

verus! {

/// Number of text fields of the theme form: the name and eight colours.
pub const FIELD_COUNT: usize = 9;

#[derive(Clone, Copy, Debug, PartialEq, Eq, Structural)]
pub enum ThemeMode {
    Dark,
    Light,
}

/// What the theme form asks of the caller.
#[derive(Clone, Copy, Debug, PartialEq, Eq, Structural)]
pub enum CreateThemeOutcome {
    Nothing,
    Redraw,
    /// Save the theme under the trimmed name.
    Save,
    Cancel,
}

/// The form that creates a theme: a name, a mode, eight colours in hex,
/// the field being edited and an error line.
pub struct CreateThemeModule {
    /// The name, then background, alternative background, surface,
    /// foreground, muted foreground, accent, red and green.
    pub fields: Vec<String>,
    pub mode: ThemeMode,
    pub active_field: usize,
    pub is_error: bool,
    pub error_msg: String,
}

pub open spec fn has_control(s: Seq<char>) -> bool {
    exists|i: int| 0 <= i < s.len() && is_control_spec(#[trigger] s[i])
}

fn any_control(s: &str) -> (r: bool)
    ensures
        r == has_control(s@),
{
    let n = s.unicode_len();
    let mut i: usize = 0;
    while i < n
        invariant
            n == s@.len(),
            i <= n,
            forall|j: int| 0 <= j < i ==> !is_control_spec(#[trigger] s@[j]),
        decreases n - i,
    {
        if is_control(s.get_char(i)) {
            return true;
        }
        i = i + 1;
    }
    false
}

/// The fields of a fresh form: the name "Nuevo Tema", the five colours of
/// the default theme as given, then the blue accent, the red and the green
/// of the system palette.
pub open spec fn default_fields_spec(
    bg: Seq<char>,
    bg_alt: Seq<char>,
    surface: Seq<char>,
    fg: Seq<char>,
    fg_muted: Seq<char>,
) -> Seq<Seq<char>> {
    seq!["Nuevo Tema"@, bg, bg_alt, surface, fg, fg_muted, "#007BFF"@, "#FF3B30"@, "#34C759"@]
}

pub fn default_fields(
    bg: String,
    bg_alt: String,
    surface: String,
    fg: String,
    fg_muted: String,
) -> (r: Vec<String>)
    ensures
        r@.len() == FIELD_COUNT,
        forall|i: int|
            0 <= i < FIELD_COUNT ==> #[trigger] r@[i]@ == default_fields_spec(
                bg@,
                bg_alt@,
                surface@,
                fg@,
                fg_muted@,
            )[i],
{
    let mut v: Vec<String> = Vec::new();
    v.push(String::from_str("Nuevo Tema"));
    v.push(bg);
    v.push(bg_alt);
    v.push(surface);
    v.push(fg);
    v.push(fg_muted);
    v.push(String::from_str("#007BFF"));
    v.push(String::from_str("#FF3B30"));
    v.push(String::from_str("#34C759"));
    v
}

impl CreateThemeModule {
    pub open spec fn wf(&self) -> bool {
        self.fields@.len() == FIELD_COUNT && self.active_field < FIELD_COUNT
    }

    /// A fresh form: the given name and colours, dark mode, the name field
    /// active, no error.
    pub fn new(fields: Vec<String>) -> (r: Self)
        requires
            fields@.len() == FIELD_COUNT,
        ensures
            r.wf(),
            r.fields@ == fields@,
            r.mode == ThemeMode::Dark,
            r.active_field == 0,
            !r.is_error,
            r.error_msg@ == Seq::<char>::empty(),
    {
        CreateThemeModule {
            fields,
            mode: ThemeMode::Dark,
            active_field: 0,
            is_error: false,
            error_msg: String::new(),
        }
    }

    /// Puts the form back as `new` leaves it, with these fields.
    pub fn reset_form(&mut self, fields: Vec<String>)
        requires
            fields@.len() == FIELD_COUNT,
        ensures
            final(self).wf(),
            final(self).fields@ == fields@,
            final(self).mode == ThemeMode::Dark,
            final(self).active_field == 0,
            !final(self).is_error,
            final(self).error_msg@ == Seq::<char>::empty(),
    {
        *self = CreateThemeModule::new(fields);
    }

    /// Tab moves to the next field, Shift+Tab to the previous one, both
    /// wrapping.
    pub fn cycle_field(&mut self, backwards: bool)
        requires
            old(self).wf(),
        ensures
            final(self).wf(),
            backwards ==> final(self).active_field == if old(self).active_field > 0 {
                old(self).active_field - 1
            } else {
                FIELD_COUNT - 1
            },
            !backwards ==> final(self).active_field == (old(self).active_field + 1) % (
            FIELD_COUNT as int),
            final(self).fields@ == old(self).fields@,
            final(self).is_error == old(self).is_error,
            final(self).mode == old(self).mode,
    {
        if backwards {
            if self.active_field > 0 {
                self.active_field = self.active_field - 1;
            } else {
                self.active_field = FIELD_COUNT - 1;
            }
        } else if self.active_field < FIELD_COUNT - 1 {
            self.active_field = self.active_field + 1;
        } else {
            self.active_field = 0;
        }
    }

    /// Checks the form before saving: a blank name is refused with an
    /// error; returns whether the theme may be saved.
    pub fn validate(&mut self) -> (ok: bool)
        requires
            old(self).wf(),
        ensures
            final(self).wf(),
            ok == (trim_spec(old(self).fields@[0]@).len() > 0),
            !ok ==> final(self).is_error && final(self).error_msg@ == "El nombre no puede estar vacío"@,
            ok ==> final(self).is_error == old(self).is_error && final(self).error_msg@ == old(self).error_msg@,
            final(self).fields@ == old(self).fields@,
            final(self).active_field == old(self).active_field,
            final(self).mode == old(self).mode,
    {
        let name = trim(self.fields[0].as_str());
        if name.as_str().unicode_len() == 0 {
            self.is_error = true;
            self.error_msg = String::from_str("El nombre no puede estar vacío");
            false
        } else {
            true
        }
    }

    /// Saving failed: the error line says so.
    pub fn save_failed(&mut self)
        ensures
            final(self).is_error,
            final(self).error_msg@ == "Error al guardar el tema"@,
            final(self).fields@ == old(self).fields@,
            final(self).active_field == old(self).active_field,
    {
        self.is_error = true;
        self.error_msg = String::from_str("Error al guardar el tema");
    }

    /// Handles a key press of the form.
    pub fn handle_key_down(&mut self, event: &KeyPress) -> (r: CreateThemeOutcome)
        requires
            old(self).wf(),
        ensures
            final(self).wf(),
            final(self).mode == old(self).mode,
            ({
                let f = old(self).active_field as int;
                let t = old(self).fields@[f]@;
                match event.key {
                    KeyName::Tab => r == CreateThemeOutcome::Redraw && final(self).fields@ == old(self).fields@
                        && final(self).active_field == if event.shift {
                        if old(self).active_field > 0 {
                            old(self).active_field - 1
                        } else {
                            FIELD_COUNT - 1
                        }
                    } else {
                        (old(self).active_field + 1) % (FIELD_COUNT as int)
                    },
                    KeyName::Enter => final(self).fields@ == old(self).fields@ && if trim_spec(
                        old(self).fields@[0]@,
                    ).len() > 0 {
                        r == CreateThemeOutcome::Save
                    } else {
                        r == CreateThemeOutcome::Redraw && final(self).is_error
                            && final(self).error_msg@ == "El nombre no puede estar vacío"@
                    },
                    KeyName::Escape => r == CreateThemeOutcome::Cancel && final(self).fields@ == old(self).fields@,
                    KeyName::Backspace => if t.len() > 0 {
                        final(self).fields@[f]@ == t.drop_last() && !final(self).is_error && r
                            == CreateThemeOutcome::Redraw
                    } else {
                        final(self).fields@ == old(self).fields@ && r == CreateThemeOutcome::Nothing
                    },
                    _ => match event.key_char {
                        Some(c) => if !has_control(c@) {
                            final(self).fields@[f]@ == t + c@ && !final(self).is_error && r
                                == CreateThemeOutcome::Redraw
                        } else {
                            final(self).fields@ == old(self).fields@ && r
                                == CreateThemeOutcome::Nothing
                        },
                        None => final(self).fields@ == old(self).fields@ && r
                            == CreateThemeOutcome::Nothing,
                    },
                }
            }),
            forall|g: int|
                0 <= g < FIELD_COUNT && g != old(self).active_field ==> #[trigger] final(self).fields@[g] == old(self).fields@[g],
            event.key != KeyName::Tab ==> final(self).active_field == old(self).active_field,
    {
        match event.key {
            KeyName::Tab => {
                self.cycle_field(event.shift);
                CreateThemeOutcome::Redraw
            },
            KeyName::Enter => {
                if self.validate() {
                    CreateThemeOutcome::Save
                } else {
                    CreateThemeOutcome::Redraw
                }
            },
            KeyName::Escape => CreateThemeOutcome::Cancel,
            KeyName::Backspace => {
                let f = self.active_field;
                if self.fields[f].as_str().unicode_len() > 0 {
                    let shorter = pop_last(self.fields[f].as_str());
                    self.fields.set(f, shorter);
                    self.is_error = false;
                    CreateThemeOutcome::Redraw
                } else {
                    CreateThemeOutcome::Nothing
                }
            },
            _ => match &event.key_char {
                Some(c) => {
                    if !any_control(c.as_str()) {
                        let f = self.active_field;
                        let longer = self.fields[f].clone().concat(c.as_str());
                        self.fields.set(f, longer);
                        self.is_error = false;
                        CreateThemeOutcome::Redraw
                    } else {
                        CreateThemeOutcome::Nothing
                    }
                },
                None => CreateThemeOutcome::Nothing,
            },
        }
    }
}

} // verus!
