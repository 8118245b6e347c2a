use vstd::prelude::*;
use crate::keys::{KeyName, KeyPress};
use crate::text::{is_blank, is_blank_spec, pop_last, strip_controls, strip_controls_spec};

verus! {

/// The action key that opens an inline reply.
pub open spec fn inline_reply_key() -> Seq<char> {
    "inline-reply"@
}

/// The notification on display: its id and the keys of its actions.
pub struct NotificationItem {
    pub id: u32,
    pub actions: Vec<String>,
}

/// An inline reply being written.
pub struct ReplyState {
    pub text: String,
    /// A reply was sent and its answer has not come yet.
    pub pending: bool,
    pub failed: bool,
}

/// What activating an action asks of the caller.
pub enum ActionOutcome {
    Nothing,
    /// Invoke the action with this key on the notification.
    Invoke(String),
    /// An inline reply opened: focus it.
    ReplyOpened,
}

/// What a key press in the reply field asks of the caller.
#[derive(Clone, Copy, Debug, PartialEq, Eq, Structural)]
pub enum ReplyKeyOutcome {
    /// No reply is open: the key is not for the reply field.
    NotReplying,
    Nothing,
    Redraw,
    /// The reply was cancelled: blur the window.
    Cancelled,
    /// Send the reply text.
    Send,
    /// Read the clipboard and hand its text to `paste_into_reply`.
    Paste,
}

/// State of the notification view.
pub struct NotificationModule {
    pub item: Option<NotificationItem>,
    pub expanded: bool,
    pub hovered: bool,
    pub reply: Option<ReplyState>,
}

pub open spec fn has_action(item: NotificationItem, key: Seq<char>) -> bool {
    exists|i: int| 0 <= i < item.actions@.len() && #[trigger] item.actions@[i]@ == key
}

impl NotificationModule {
    pub open spec fn is_replying_spec(&self) -> bool {
        self.reply is Some
    }

    pub fn new() -> (r: Self)
        ensures
            r.item is None,
            !r.expanded,
            !r.hovered,
            r.reply is None,
    {
        NotificationModule { item: None, expanded: false, hovered: false, reply: None }
    }

    pub fn is_replying(&self) -> (r: bool)
        ensures
            r == self.is_replying_spec(),
    {
        self.reply.is_some()
    }

    /// The pointer entered or left the card. A reply keeps the card open;
    /// returns whether the expanded state changed (the caller tells the
    /// notification store).
    pub fn set_expanded(&mut self, expanded: bool) -> (changed: bool)
        ensures
            final(self).hovered == expanded,
            final(self).reply == old(self).reply,
            final(self).item == old(self).item,
            old(self).is_replying_spec() && !expanded ==> !changed && final(self).expanded == old(self).expanded,
            !(old(self).is_replying_spec() && !expanded) ==> changed == (old(self).expanded
                != expanded) && final(self).expanded == expanded,
    {
        self.hovered = expanded;
        if self.reply.is_some() && !expanded {
            return false;
        }
        if self.expanded != expanded {
            self.expanded = expanded;
            true
        } else {
            false
        }
    }

    /// The view is left: the reply is dropped and the card collapses.
    pub fn deactivate(&mut self) -> (changed: bool)
        ensures
            final(self).reply is None,
            !final(self).expanded,
            !final(self).hovered,
            final(self).item == old(self).item,
            changed == old(self).expanded,
    {
        self.reply = None;
        self.set_expanded(false)
    }

    /// Activates action `key` of notification `id`: the inline reply opens
    /// a reply field, any other action is invoked; nothing happens when
    /// the notification is not the one shown or lacks the action.
    pub fn activate_action(&mut self, id: u32, key: &str) -> (r: ActionOutcome)
        ensures
            final(self).hovered == old(self).hovered,
            final(self).item == old(self).item,
            !(old(self).item matches Some(it) && it.id == id && has_action(it, key@)) ==> (
            r is Nothing && final(self).reply == old(self).reply && final(self).expanded == old(self).expanded),
            (old(self).item matches Some(it) && it.id == id && has_action(it, key@)) ==> if key@
                == inline_reply_key() {
                r is ReplyOpened && (final(self).reply matches Some(rs) && rs.text@ == Seq::<char>::empty() && !rs.pending && !rs.failed) && final(self).expanded
            } else {
                (r matches ActionOutcome::Invoke(k) && k@ == key@) && final(self).reply == old(self).reply && final(self).expanded == old(self).expanded
            },
    {
        let present = match &self.item {
            Some(item) => {
                if item.id != id {
                    false
                } else {
                    let mut found = false;
                    let mut i: usize = 0;
                    while i < item.actions.len()
                        invariant
                            i <= item.actions@.len(),
                            found == exists|j: int| 0 <= j < i && #[trigger] item.actions@[j]@
                                == key@,
                        decreases item.actions@.len() - i,
                    {
                        let k = String::from_str(key);
                        if item.actions[i] == k {
                            found = true;
                        }
                        i = i + 1;
                    }
                    found
                }
            },
            None => false,
        };
        if !present {
            return ActionOutcome::Nothing;
        }
        let reply_key = String::from_str("inline-reply");
        let given = String::from_str(key);
        if given != reply_key {
            return ActionOutcome::Invoke(given);
        }
        self.reply = Some(ReplyState { text: String::new(), pending: false, failed: false });
        self.expanded = true;
        ActionOutcome::ReplyOpened
    }

    /// Cancels the reply, unless one is on its way; the card then follows
    /// the pointer again. Returns whether it was cancelled.
    pub fn cancel_reply(&mut self) -> (cancelled: bool)
        ensures
            final(self).hovered == old(self).hovered,
            (old(self).reply matches Some(rs) && rs.pending) ==> !cancelled && final(self).reply
                == old(self).reply && final(self).expanded == old(self).expanded,
            !(old(self).reply matches Some(rs) && rs.pending) ==> cancelled && final(self).reply is None
                && final(self).expanded == old(self).hovered,
            final(self).item == old(self).item,
    {
        let pending = match &self.reply {
            Some(r) => r.pending,
            None => false,
        };
        if pending {
            return false;
        }
        self.reply = None;
        let h = self.hovered;
        self.set_expanded(h);
        true
    }

    /// Marks the reply as sent and returns its text, unless there is no
    /// notification, no reply, a blank reply, or one already on its way.
    pub fn send_reply(&mut self) -> (r: Option<(u32, String)>)
        ensures
            final(self).hovered == old(self).hovered,
            final(self).item == old(self).item,
            final(self).expanded == old(self).expanded,
            match r {
                Some((id, text)) => (old(self).item matches Some(it) && it.id == id) && (old(self).reply matches Some(rs) && !rs.pending && !is_blank_spec(rs.text@) && text@
                    == rs.text@) && (final(self).reply matches Some(fs) && fs.pending && !fs.failed
                    && fs.text@ == text@),
                None => final(self).reply == old(self).reply && !(old(self).item is Some && (old(self).reply matches Some(rs) && !rs.pending && !is_blank_spec(rs.text@))),
            },
    {
        let id = match &self.item {
            Some(item) => item.id,
            None => {
                return None;
            },
        };
        match &mut self.reply {
            Some(reply) => {
                if reply.pending || is_blank(reply.text.as_str()) {
                    return None;
                }
                reply.pending = true;
                reply.failed = false;
                Some((id, reply.text.clone()))
            },
            None => None,
        }
    }

    /// Takes the answer to a sent reply: success closes the reply, a
    /// failure keeps its text and marks it failed.
    pub fn finish_reply(&mut self, succeeded: bool)
        ensures
            final(self).hovered == old(self).hovered,
            final(self).item == old(self).item,
            final(self).expanded == old(self).expanded,
            (old(self).reply matches Some(rs) && rs.pending) ==> if succeeded {
                final(self).reply is None
            } else {
                final(self).reply matches Some(fs) && !fs.pending && fs.failed && fs.text@ == old(self).reply->0.text@
            },
            !(old(self).reply matches Some(rs) && rs.pending) ==> final(self).reply == old(self).reply,
    {
        let pending = match &self.reply {
            Some(r) => r.pending,
            None => false,
        };
        if !pending {
            return ;
        }
        if succeeded {
            self.reply = None;
        } else {
            match &mut self.reply {
                Some(reply) => {
                    reply.pending = false;
                    reply.failed = true;
                },
                None => {},
            }
        }
    }

    /// Shows another notification (or none). A different id drops the
    /// reply; no notification collapses the card. Returns whether anything
    /// changed.
    pub fn set_item(&mut self, item: Option<NotificationItem>, same_as_current: bool) -> (changed: bool)
        ensures
            final(self).hovered == old(self).hovered,
            same_as_current ==> !changed && final(self).item == old(self).item && final(self).reply == old(self).reply && final(self).expanded == old(self).expanded,
            !same_as_current ==> changed && final(self).item == item && (item_id(old(self).item)
                != item_id(item) ==> final(self).reply is None) && (item_id(old(self).item)
                == item_id(item) ==> final(self).reply == old(self).reply) && (item is None
                ==> !final(self).expanded) && (item is Some ==> final(self).expanded == old(self).expanded),
    {
        if same_as_current {
            return false;
        }
        let old_id = match &self.item {
            Some(i) => Some(i.id),
            None => None,
        };
        let new_id = match &item {
            Some(i) => Some(i.id),
            None => None,
        };
        if old_id != new_id {
            self.reply = None;
        }
        let none = item.is_none();
        self.item = item;
        if none {
            self.expanded = false;
        }
        true
    }

    /// Appends pasted text, control characters dropped, to the reply.
    pub fn paste_into_reply(&mut self, text: &str)
        ensures
            final(self).hovered == old(self).hovered,
            final(self).item == old(self).item,
            (old(self).reply matches Some(rs) && !rs.pending) ==> (final(self).reply matches Some(fs) && fs.text@ == old(self).reply->0.text@ + strip_controls_spec(text@) && !fs.failed && !fs.pending),
            !(old(self).reply matches Some(rs) && !rs.pending) ==> final(self).reply == old(self).reply,
    {
        match &mut self.reply {
            Some(reply) => {
                if !reply.pending {
                    let clean = strip_controls(text);
                    reply.text.append(clean.as_str());
                    reply.failed = false;
                }
            },
            None => {},
        }
    }

    /// Handles a key press while the reply field is open.
    pub fn handle_reply_key(&mut self, event: &KeyPress) -> (r: ReplyKeyOutcome)
        ensures
            final(self).hovered == old(self).hovered,
            final(self).item == old(self).item,
            old(self).reply is None ==> r == ReplyKeyOutcome::NotReplying && final(self).reply is None,
            old(self).reply is Some && event.key == KeyName::Escape ==> if old(self).reply->0.pending {
                r == ReplyKeyOutcome::Nothing && final(self).reply == old(self).reply
                    && final(self).expanded == old(self).expanded
            } else {
                r == ReplyKeyOutcome::Cancelled && final(self).reply is None
                    && final(self).expanded == old(self).hovered
            },
            old(self).reply is Some && event.key == KeyName::Enter ==> r == ReplyKeyOutcome::Send
                && final(self).reply == old(self).reply,
            (old(self).reply matches Some(rs) && rs.pending) && event.key != KeyName::Escape
                && event.key != KeyName::Enter ==> r == ReplyKeyOutcome::Nothing && final(self).reply
                == old(self).reply,
            (old(self).reply matches Some(rs) && !rs.pending) && event.key != KeyName::Escape
                && event.key != KeyName::Enter ==> ({
                let t = old(self).reply->0.text@;
                if event.ctrl() {
                    if event.key == KeyName::Letter('v') {
                        r == ReplyKeyOutcome::Paste
                    } else if event.key == KeyName::Backspace {
                        r == ReplyKeyOutcome::Redraw && (final(self).reply matches Some(fs)
                            && fs.text@ == Seq::<char>::empty() && !fs.failed && !fs.pending)
                    } else {
                        r == ReplyKeyOutcome::Nothing && final(self).reply == old(self).reply
                    }
                } else if event.key == KeyName::Backspace {
                    r == ReplyKeyOutcome::Redraw && (final(self).reply matches Some(fs) && (t.len()
                        > 0 ==> fs.text@ == t.drop_last()) && (t.len() == 0 ==> fs.text@ == t)
                        && !fs.failed && !fs.pending)
                } else if !event.alt {
                    r == ReplyKeyOutcome::Redraw && (final(self).reply matches Some(fs) && fs.text@
                        == t + typed_text(event.key_char) && !fs.failed && !fs.pending)
                } else {
                    r == ReplyKeyOutcome::Redraw && (final(self).reply matches Some(fs) && fs.text@
                        == t && !fs.failed && !fs.pending)
                }
            }),
    {
        if self.reply.is_none() {
            return ReplyKeyOutcome::NotReplying;
        }
        if event.key == KeyName::Escape {
            if self.cancel_reply() {
                return ReplyKeyOutcome::Cancelled;
            }
            return ReplyKeyOutcome::Nothing;
        }
        if event.key == KeyName::Enter {
            return ReplyKeyOutcome::Send;
        }
        let ctrl = event.control || event.platform;
        match &mut self.reply {
            Some(reply) => {
                if reply.pending {
                    return ReplyKeyOutcome::Nothing;
                }
                if ctrl {
                    if event.key == KeyName::Letter('v') {
                        return ReplyKeyOutcome::Paste;
                    } else if event.key == KeyName::Backspace {
                        reply.text = String::new();
                    } else {
                        return ReplyKeyOutcome::Nothing;
                    }
                } else if event.key == KeyName::Backspace {
                    reply.text = pop_last(reply.text.as_str());
                } else if !event.alt {
                    match &event.key_char {
                        Some(k) => {
                            let clean = strip_controls(k.as_str());
                            reply.text.append(clean.as_str());
                        },
                        None => {
                            proof {
                                assert(reply.text@ + Seq::<char>::empty() =~= reply.text@);
                            }
                        },
                    }
                }
                reply.failed = false;
                ReplyKeyOutcome::Redraw
            },
            None => ReplyKeyOutcome::NotReplying,
        }
    }
}

/// The text a key press types into the reply: its character, control
/// characters dropped; nothing for a key that types no character.
pub open spec fn typed_text(key_char: Option<String>) -> Seq<char> {
    match key_char {
        Some(k) => strip_controls_spec(k@),
        None => Seq::empty(),
    }
}

pub open spec fn item_id(item: Option<NotificationItem>) -> Option<u32> {
    match item {
        Some(i) => Some(i.id),
        None => None,
    }
}

} // verus!
