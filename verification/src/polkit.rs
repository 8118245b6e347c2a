use vstd::prelude::*;
use crate::keys::{KeyName, KeyPress};
use crate::text::{pop_last, strip_controls, strip_controls_spec};

verus! {

/// What a key press asks of the caller.
pub enum PolkitOutcome {
    Nothing,
    Redraw,
    /// Read the clipboard and hand its text to `paste`.
    Paste,
    /// Put this text on the clipboard.
    Copy(String),
    /// Start authenticating with this password.
    Submit(String),
    /// Answer "cancelled" and close.
    Cancel,
}

/// State of the authentication dialog.
pub struct PolkitModule {
    pub password: String,
    pub is_error: bool,
    pub error_msg: Option<String>,
    pub is_authenticating: bool,
}

impl PolkitModule {
    pub open spec fn is_clean(&self) -> bool {
        !self.is_error && self.error_msg is None
    }

    pub fn new() -> (r: Self)
        ensures
            r.password@ == Seq::<char>::empty(),
            r.is_clean(),
            !r.is_authenticating,
    {
        PolkitModule {
            password: String::new(),
            is_error: false,
            error_msg: None,
            is_authenticating: false,
        }
    }

    /// A new request: empty password, no error.
    pub fn set_request(&mut self)
        ensures
            final(self).password@ == Seq::<char>::empty(),
            final(self).is_clean(),
            !final(self).is_authenticating,
    {
        self.password = String::new();
        self.is_error = false;
        self.error_msg = None;
        self.is_authenticating = false;
    }

    /// The user gave up: everything is forgotten.
    pub fn cancel(&mut self)
        ensures
            final(self).password@ == Seq::<char>::empty(),
            final(self).is_clean(),
            !final(self).is_authenticating,
    {
        self.set_request();
    }

    /// Starts authenticating, unless a check is under way or the password
    /// is empty; returns the password to check.
    pub fn submit_auth(&mut self) -> (r: Option<String>)
        ensures
            old(self).is_authenticating || old(self).password@.len() == 0 ==> r is None && *final(self) == *old(self),
            !(old(self).is_authenticating || old(self).password@.len() == 0) ==> (r matches Some(p) && p@ == old(self).password@) && final(self).is_authenticating && final(self).is_clean()
                && final(self).password@ == old(self).password@,
    {
        if self.is_authenticating || self.password.as_str().unicode_len() == 0 {
            return None;
        }
        self.is_authenticating = true;
        self.is_error = false;
        self.error_msg = None;
        Some(self.password.clone())
    }

    /// Takes the result of the check, once it is there. Success forgets the
    /// password and reports `true` (the dialog closes); a failure keeps the
    /// message and empties the field.
    pub fn poll_result(&mut self, result: Option<Result<(), String>>) -> (authenticated: bool)
        ensures
            !old(self).is_authenticating || result is None ==> !authenticated && *final(self)
                == *old(self),
            old(self).is_authenticating && result is Some ==> !final(self).is_authenticating
                && final(self).password@ == Seq::<char>::empty() && match result {
                Some(Ok(())) => authenticated && final(self).is_clean(),
                Some(Err(e)) => !authenticated && final(self).is_error && final(self).error_msg
                    == Some(e),
                None => true,
            },
    {
        if !self.is_authenticating {
            return false;
        }
        match result {
            None => false,
            Some(Ok(())) => {
                self.is_authenticating = false;
                self.password = String::new();
                self.is_error = false;
                self.error_msg = None;
                true
            },
            Some(Err(e)) => {
                self.is_authenticating = false;
                self.is_error = true;
                self.error_msg = Some(e);
                self.password = String::new();
                false
            },
        }
    }

    fn clear_error(&mut self)
        ensures
            final(self).password@ == old(self).password@,
            final(self).is_clean(),
            final(self).is_authenticating == old(self).is_authenticating,
    {
        self.is_error = false;
        self.error_msg = None;
    }

    /// Appends pasted text, control characters dropped; nothing happens
    /// when nothing printable is left.
    pub fn paste(&mut self, text: &str) -> (changed: bool)
        ensures
            changed == (strip_controls_spec(text@).len() > 0),
            changed ==> final(self).password@ == old(self).password@ + strip_controls_spec(text@)
                && final(self).is_clean(),
            !changed ==> *final(self) == *old(self),
            final(self).is_authenticating == old(self).is_authenticating,
    {
        let clean = strip_controls(text);
        if clean.as_str().unicode_len() > 0 {
            self.password.append(clean.as_str());
            self.clear_error();
            true
        } else {
            false
        }
    }

    /// Handles a key press of the dialog; keys are ignored while a check is
    /// under way.
    pub fn handle_key_down(&mut self, event: &KeyPress) -> (r: PolkitOutcome)
        ensures
            final(self).is_authenticating == old(self).is_authenticating || (event.key
                == KeyName::Enter && final(self).is_authenticating),
            old(self).is_authenticating ==> r is Nothing && *final(self) == *old(self),
            !old(self).is_authenticating && event.ctrl() ==> match event.key {
                KeyName::Letter('v') => r is Paste && *final(self) == *old(self),
                KeyName::Letter('c') => *final(self) == *old(self) && if old(self).password@.len()
                    > 0 {
                    r matches PolkitOutcome::Copy(t) && t@ == old(self).password@
                } else {
                    r is Nothing
                },
                KeyName::Letter('x') => if old(self).password@.len() > 0 {
                    (r matches PolkitOutcome::Copy(t) && t@ == old(self).password@) && final(self).password@ == Seq::<char>::empty() && final(self).is_clean()
                } else {
                    r is Nothing && *final(self) == *old(self)
                },
                KeyName::Letter('u') | KeyName::Letter('w') => final(self).password@ == Seq::<char>::empty() && final(self).is_clean() && r is Redraw,
                _ => true,
            },
            !old(self).is_authenticating && !(event.ctrl() && (event.key == KeyName::Letter('v')
                || event.key == KeyName::Letter('c') || event.key == KeyName::Letter('x')
                || event.key == KeyName::Letter('u') || event.key == KeyName::Letter('w')))
                ==> match event.key {
                KeyName::Enter => if old(self).password@.len() > 0 {
                    (r matches PolkitOutcome::Submit(p) && p@ == old(self).password@) && final(self).is_authenticating
                } else {
                    r is Nothing && *final(self) == *old(self)
                },
                KeyName::Backspace => if old(self).password@.len() > 0 {
                    final(self).password@ == old(self).password@.drop_last() && final(self).is_clean() && r is Redraw
                } else {
                    r is Nothing && *final(self) == *old(self)
                },
                KeyName::Escape => r is Cancel && final(self).password@ == Seq::<char>::empty(),
                KeyName::Space => if !event.ctrl() {
                    final(self).password@ == old(self).password@.push(' ') && final(self).is_clean() && r is Redraw
                } else {
                    r is Nothing && *final(self) == *old(self)
                },
                _ => if event.text@.len() == 1 && !event.ctrl() {
                    final(self).password@ == old(self).password@ + event.text@ && final(self).is_clean() && r is Redraw
                } else {
                    r is Nothing && *final(self) == *old(self)
                },
            },
    {
        if self.is_authenticating {
            return PolkitOutcome::Nothing;
        }
        let ctrl = event.control || event.platform;
        if ctrl {
            match event.key {
                KeyName::Letter(c) => {
                    if c == 'v' {
                        return PolkitOutcome::Paste;
                    }
                    if c == 'c' {
                        if self.password.as_str().unicode_len() > 0 {
                            return PolkitOutcome::Copy(self.password.clone());
                        }
                        return PolkitOutcome::Nothing;
                    }
                    if c == 'x' {
                        if self.password.as_str().unicode_len() > 0 {
                            let copied = self.password.clone();
                            self.password = String::new();
                            self.clear_error();
                            return PolkitOutcome::Copy(copied);
                        }
                        return PolkitOutcome::Nothing;
                    }
                    if c == 'u' || c == 'w' {
                        self.password = String::new();
                        self.clear_error();
                        return PolkitOutcome::Redraw;
                    }
                },
                _ => {},
            }
        }
        match event.key {
            KeyName::Enter => match self.submit_auth() {
                Some(p) => PolkitOutcome::Submit(p),
                None => PolkitOutcome::Nothing,
            },
            KeyName::Backspace => {
                if self.password.as_str().unicode_len() > 0 {
                    self.password = pop_last(self.password.as_str());
                    self.clear_error();
                    PolkitOutcome::Redraw
                } else {
                    PolkitOutcome::Nothing
                }
            },
            KeyName::Escape => {
                self.cancel();
                PolkitOutcome::Cancel
            },
            KeyName::Space => {
                if !ctrl {
                    proof {
                        reveal_strlit(" ");
                        assert(old(self).password@ + " "@ =~= old(self).password@.push(' '));
                    }
                    self.password.append(" ");
                    self.clear_error();
                    PolkitOutcome::Redraw
                } else {
                    PolkitOutcome::Nothing
                }
            },
            _ => {
                if event.text.as_str().unicode_len() == 1 && !ctrl {
                    self.password.append(event.text.as_str());
                    self.clear_error();
                    PolkitOutcome::Redraw
                } else {
                    PolkitOutcome::Nothing
                }
            },
        }
    }
}

} // verus!
