use vstd::prelude::*;
use crate::sizes::{display_text_spec, opt_view, active_display_text};

verus! {

/// The line of the idle pill, as values: the clock, whether audio plays,
/// the system message and its notification id, the track and its toast
/// (with the time it appeared, in milliseconds), the lyric line, and the
/// line fading out.
pub struct IdleModel {
    pub time: Seq<char>,
    pub audio_active: bool,
    pub sys_id: Option<u32>,
    pub sys_text: Option<Seq<char>>,
    pub track_id: Option<Seq<char>>,
    pub toast: Option<Seq<char>>,
    pub toast_since: Option<u64>,
    pub lyric: Option<Seq<char>>,
    pub prev_line: Option<Seq<char>>,
}

/// State of the idle pill's text.
pub struct IdleText {
    pub time: String,
    pub audio_active: bool,
    pub sys_id: Option<u32>,
    pub sys_text: Option<String>,
    pub track_id: Option<String>,
    pub toast: Option<String>,
    pub toast_since: Option<u64>,
    pub lyric: Option<String>,
    pub prev_line: Option<String>,
}

impl View for IdleText {
    type V = IdleModel;

    open spec fn view(&self) -> IdleModel {
        IdleModel {
            time: self.time@,
            audio_active: self.audio_active,
            sys_id: self.sys_id,
            sys_text: opt_view(self.sys_text),
            track_id: opt_view(self.track_id),
            toast: opt_view(self.toast),
            toast_since: self.toast_since,
            lyric: opt_view(self.lyric),
            prev_line: opt_view(self.prev_line),
        }
    }
}

/// The line a system notification puts on the pill: a bell, the
/// application, the summary, and the body when there is one.
pub open spec fn sys_message_spec(app: Seq<char>, summary: Seq<char>, body: Seq<char>) -> Seq<char> {
    if body.len() == 0 {
        "🔔 "@ + app + ": "@ + summary
    } else {
        "🔔 "@ + app + ": "@ + summary + " - "@ + body
    }
}

pub fn sys_message(app: &str, summary: &str, body: &str) -> (r: String)
    ensures
        r@ == sys_message_spec(app@, summary@, body@),
{
    let s = String::from_str("🔔 ").concat(app).concat(": ").concat(summary);
    if body.unicode_len() == 0 {
        s
    } else {
        s.concat(" - ").concat(body)
    }
}

/// The key under which a track is remembered: "title - artist".
pub fn track_key(title: &str, artist: &str) -> (r: String)
    ensures
        r@ == title@ + " - "@ + artist@,
{
    String::from_str(title).concat(" - ").concat(artist)
}

/// The toast of a new track: a note and the title, with the artist when
/// the player names one.
pub open spec fn track_toast_spec(title: Seq<char>, artist: Seq<char>) -> Seq<char> {
    if artist.len() == 0 || artist == "No media playing"@ {
        "🎵 "@ + title
    } else {
        "🎵 "@ + title + " • "@ + artist
    }
}

pub fn track_toast(title: &str, artist: &str) -> (r: String)
    ensures
        r@ == track_toast_spec(title@, artist@),
{
    let placeholder = String::from_str("No media playing");
    let a = String::from_str(artist);
    if artist.unicode_len() == 0 || a == placeholder {
        String::from_str("🎵 ").concat(title)
    } else {
        String::from_str("🎵 ").concat(title).concat(" • ").concat(artist)
    }
}

/// What the spinning record of the idle view does when the track changed.
#[derive(Clone, Copy, Debug, PartialEq, Eq, Structural)]
pub enum DiscAction {
    Start,
    Stop,
    Keep,
}

/// Playing started or stopped: the record spins or stops with it; a
/// player with no media, or a paused one without a title, stops it too.
pub open spec fn disc_spec(was_playing: bool, playing: bool, has_media: bool, title_empty: bool) -> DiscAction {
    if playing != was_playing {
        if playing {
            DiscAction::Start
        } else {
            DiscAction::Stop
        }
    } else if !has_media || (title_empty && !playing) {
        DiscAction::Stop
    } else {
        DiscAction::Keep
    }
}

pub fn disc_on_track_change(was_playing: bool, playing: bool, has_media: bool, title_empty: bool) -> (r:
    DiscAction)
    ensures
        r == disc_spec(was_playing, playing, has_media, title_empty),
{
    if playing != was_playing {
        if playing {
            DiscAction::Start
        } else {
            DiscAction::Stop
        }
    } else if !has_media || (title_empty && !playing) {
        DiscAction::Stop
    } else {
        DiscAction::Keep
    }
}

/// A workspace change that enters or leaves the special workspace starts
/// the special-workspace animation towards the new state.
pub fn special_transition(was_special: bool, is_special: bool) -> (r: Option<bool>)
    ensures
        r == if was_special != is_special {
            Some(is_special)
        } else {
            None::<bool>
        },
{
    if was_special != is_special {
        Some(is_special)
    } else {
        None
    }
}

/// What the idle pill shows for a model.
pub open spec fn shown(m: IdleModel) -> Seq<char> {
    display_text_spec(m.sys_text, m.toast, m.lyric, m.time)
}

/// A milestone of one poll: the model after it, whether the fading line
/// was reset (the fade restarts), and whether anything changed.
pub open spec fn sys_phase(m: IdleModel, sys: Option<(u32, Seq<char>)>) -> (IdleModel, bool, bool) {
    let id = match sys {
        Some(p) => Some(p.0),
        None => None,
    };
    let text = match sys {
        Some(p) => Some(p.1),
        None => None,
    };
    if m.sys_id != id {
        (IdleModel { sys_id: id, sys_text: text, prev_line: Some(shown(m)), ..m }, true, true)
    } else {
        (m, false, false)
    }
}

/// A new track shows its toast (the fade restarts unless a system message
/// covers it); no track clears the track and its toast.
pub open spec fn track_phase(m: IdleModel, track: Option<(Seq<char>, Seq<char>)>, now: u64) -> (
    IdleModel,
    bool,
    bool,
) {
    match track {
        Some(t) => if m.track_id != Some(t.0) {
            let m1 = IdleModel { track_id: Some(t.0), toast: Some(t.1), toast_since: Some(now), ..m };
            if m1.sys_text is None {
                (IdleModel { prev_line: Some(shown(m1)), ..m1 }, true, true)
            } else {
                (m1, false, true)
            }
        } else {
            (m, false, false)
        },
        None => if m.track_id is Some {
            (IdleModel { track_id: None, toast: None, toast_since: None, ..m }, false, true)
        } else {
            (m, false, false)
        },
    }
}

/// How long a track toast stays, in milliseconds.
pub const TOAST_MS: u64 = 3200;

/// A toast that has been shown for its time goes away, fading out unless
/// a system message covers it.
pub open spec fn expiry_phase(m: IdleModel, now: u64) -> (IdleModel, bool, bool) {
    match m.toast_since {
        Some(t) => if now >= t + TOAST_MS {
            let fade = m.sys_text is None;
            let m1 = if fade {
                IdleModel { prev_line: m.toast, ..m }
            } else {
                m
            };
            (IdleModel { toast: None, toast_since: None, ..m1 }, fade, true)
        } else {
            (m, false, false)
        },
        None => (m, false, false),
    }
}

/// A new lyric line replaces the old one, fading unless a system message
/// or a toast covers it.
pub open spec fn lyric_phase(m: IdleModel, lyric: Option<Seq<char>>) -> (IdleModel, bool, bool) {
    if m.lyric != lyric {
        let fade = m.sys_text is None && m.toast is None;
        let m1 = if fade {
            IdleModel { prev_line: Some(shown(m)), ..m }
        } else {
            m
        };
        (IdleModel { lyric, ..m1 }, fade, true)
    } else {
        (m, false, false)
    }
}

/// One poll of the notification store and the players: the phases in
/// order, after the audio flag.
pub open spec fn poll_spec(
    m: IdleModel,
    sys: Option<(u32, Seq<char>)>,
    track: Option<(Seq<char>, Seq<char>)>,
    lyric: Option<Seq<char>>,
    playing: bool,
    now: u64,
) -> (IdleModel, IdleTick) {
    let m0 = IdleModel { audio_active: playing, ..m };
    let (m1, f1, c1) = sys_phase(m0, sys);
    let (m2, f2, c2) = track_phase(m1, track, now);
    let (m3, f3, c3) = expiry_phase(m2, now);
    let (m4, f4, c4) = lyric_phase(m3, lyric);
    (
        m4,
        IdleTick {
            visualizer: if m.audio_active != playing {
                Some(playing)
            } else {
                None
            },
            restart_fade: f1 || f2 || f3 || f4,
            redraw: m.audio_active != playing || c1 || c2 || c3 || c4,
        },
    )
}

/// What a poll asks of the caller.
#[derive(Clone, Copy, Debug, PartialEq, Eq, Structural)]
pub struct IdleTick {
    /// Turn the audio visualizer on or off.
    pub visualizer: Option<bool>,
    /// The fading line was reset: start the fade again from zero.
    pub restart_fade: bool,
    pub redraw: bool,
}

pub open spec fn sys_view(sys: Option<(u32, String)>) -> Option<(u32, Seq<char>)> {
    match sys {
        Some(p) => Some((p.0, p.1@)),
        None => None,
    }
}

pub open spec fn track_view(track: Option<(String, String)>) -> Option<(Seq<char>, Seq<char>)> {
    match track {
        Some(p) => Some((p.0@, p.1@)),
        None => None,
    }
}

fn clone_opt(o: &Option<String>) -> (r: Option<String>)
    ensures
        opt_view(r) == opt_view(*o),
{
    match o {
        Some(s) => Some(s.clone()),
        None => None,
    }
}

fn same_opt(a: &Option<String>, b: &Option<String>) -> (r: bool)
    ensures
        r == (opt_view(*a) == opt_view(*b)),
{
    match (a, b) {
        (Some(x), Some(y)) => *x == *y,
        (None, None) => true,
        _ => false,
    }
}

impl IdleText {
    /// The pill at start: the clock, nothing else.
    pub fn new(time: String) -> (r: Self)
        ensures
            r@ == (IdleModel {
                time: time@,
                audio_active: false,
                sys_id: None,
                sys_text: None,
                track_id: None,
                toast: None,
                toast_since: None,
                lyric: None,
                prev_line: None,
            }),
    {
        IdleText {
            time,
            audio_active: false,
            sys_id: None,
            sys_text: None,
            track_id: None,
            toast: None,
            toast_since: None,
            lyric: None,
            prev_line: None,
        }
    }

    /// What the pill shows now.
    pub fn display_text(&self) -> (r: String)
        ensures
            r@ == shown(self@),
    {
        active_display_text(
            clone_opt(&self.sys_text),
            clone_opt(&self.toast),
            clone_opt(&self.lyric),
            self.time.clone(),
        )
    }

    /// Takes the clock's text; returns whether it changed.
    pub fn set_time(&mut self, time: String) -> (changed: bool)
        ensures
            changed == (old(self)@.time != time@),
            final(self)@ == (IdleModel { time: time@, ..old(self)@ }),
    {
        let changed = !(self.time == time);
        self.time = time;
        changed
    }

    /// The fade finished: the old line is gone.
    pub fn fade_done(&mut self)
        ensures
            final(self)@ == (IdleModel { prev_line: None, ..old(self)@ }),
    {
        self.prev_line = None;
    }

    fn sys_step(&mut self, sys: Option<(u32, String)>) -> (r: (bool, bool))
        ensures
            (final(self)@, r.0, r.1) == sys_phase(old(self)@, sys_view(sys)),
    {
        let (id, text) = match sys {
            Some((i, t)) => (Some(i), Some(t)),
            None => (None, None),
        };
        if self.sys_id != id {
            self.prev_line = Some(self.display_text());
            self.sys_id = id;
            self.sys_text = text;
            (true, true)
        } else {
            (false, false)
        }
    }

    fn track_step(&mut self, track: Option<(String, String)>, now: u64) -> (r: (bool, bool))
        ensures
            (final(self)@, r.0, r.1) == track_phase(old(self)@, track_view(track), now),
    {
        match track {
            Some((id, toast)) => {
                let same = match &self.track_id {
                    Some(cur) => *cur == id,
                    None => false,
                };
                if same {
                    return (false, false);
                }
                self.track_id = Some(id);
                self.toast = Some(toast);
                self.toast_since = Some(now);
                if self.sys_text.is_none() {
                    self.prev_line = Some(self.display_text());
                    (true, true)
                } else {
                    (false, true)
                }
            },
            None => {
                if self.track_id.is_some() {
                    self.track_id = None;
                    self.toast = None;
                    self.toast_since = None;
                    (false, true)
                } else {
                    (false, false)
                }
            },
        }
    }

    fn expiry_step(&mut self, now: u64) -> (r: (bool, bool))
        ensures
            (final(self)@, r.0, r.1) == expiry_phase(old(self)@, now),
    {
        match self.toast_since {
            Some(t) => {
                if now >= t && now - t >= TOAST_MS {
                    let fade = self.sys_text.is_none();
                    if fade {
                        self.prev_line = clone_opt(&self.toast);
                    }
                    self.toast = None;
                    self.toast_since = None;
                    (fade, true)
                } else {
                    (false, false)
                }
            },
            None => (false, false),
        }
    }

    fn lyric_step(&mut self, lyric: Option<String>) -> (r: (bool, bool))
        ensures
            (final(self)@, r.0, r.1) == lyric_phase(old(self)@, opt_view(lyric)),
    {
        if same_opt(&self.lyric, &lyric) {
            return (false, false);
        }
        let fade = self.sys_text.is_none() && self.toast.is_none();
        if fade {
            self.prev_line = Some(self.display_text());
        }
        self.lyric = lyric;
        (fade, true)
    }

    /// Takes one poll: the newest system message (its notification id and
    /// text), the playing track (its key and toast), the lyric line at the
    /// track's position, whether audio plays, and the time in milliseconds.
    pub fn poll(
        &mut self,
        sys: Option<(u32, String)>,
        track: Option<(String, String)>,
        lyric: Option<String>,
        playing: bool,
        now_ms: u64,
    ) -> (r: IdleTick)
        ensures
            (final(self)@, r) == poll_spec(
                old(self)@,
                sys_view(sys),
                track_view(track),
                opt_view(lyric),
                playing,
                now_ms,
            ),
    {
        let audio_changed = self.audio_active != playing;
        self.audio_active = playing;
        let (f1, c1) = self.sys_step(sys);
        let (f2, c2) = self.track_step(track, now_ms);
        let (f3, c3) = self.expiry_step(now_ms);
        let (f4, c4) = self.lyric_step(lyric);
        IdleTick {
            visualizer: if audio_changed {
                Some(playing)
            } else {
                None
            },
            restart_fade: f1 || f2 || f3 || f4,
            redraw: audio_changed || c1 || c2 || c3 || c4,
        }
    }
}

/// A new system message takes the pill at once, over any toast or lyric.
pub proof fn lemma_new_system_message_shows(
    m: IdleModel,
    id: u32,
    text: Seq<char>,
    track: Option<(Seq<char>, Seq<char>)>,
    lyric: Option<Seq<char>>,
    playing: bool,
    now: u64,
)
    requires
        m.sys_id != Some(id),
    ensures
        shown(poll_spec(m, Some((id, text)), track, lyric, playing, now).0) == text,
{
}

/// A track's toast goes away once it has been shown for `TOAST_MS`, while
/// the same track plays on.
pub proof fn lemma_toast_expires(
    m: IdleModel,
    since: u64,
    sys: Option<(u32, Seq<char>)>,
    toast: Seq<char>,
    lyric: Option<Seq<char>>,
    playing: bool,
    now: u64,
)
    requires
        m.track_id is Some,
        m.toast_since == Some(since),
        now >= since + TOAST_MS,
    ensures
        poll_spec(m, sys, Some((m.track_id->0, toast)), lyric, playing, now).0.toast is None,
{
}

/// A new track, while no system message is up, puts its toast on the pill
/// and restarts the fade; when the system message goes away at the same
/// poll the toast is what remains.
pub proof fn lemma_new_track_shows_toast(
    m: IdleModel,
    id: Seq<char>,
    toast: Seq<char>,
    lyric: Option<Seq<char>>,
    playing: bool,
    now: u64,
)
    requires
        m.sys_id is None,
        m.sys_text is None,
        m.track_id != Some(id),
    ensures
        shown(poll_spec(m, None, Some((id, toast)), lyric, playing, now).0) == toast,
        poll_spec(m, None, Some((id, toast)), lyric, playing, now).1.restart_fade,
        poll_spec(m, None, Some((id, toast)), lyric, playing, now).1.redraw,
{
}

/// The audio visualizer is switched exactly when playback started or
/// stopped, to the new state, and the pill is then redrawn; a poll that
/// finds nothing new changes nothing.
pub proof fn lemma_poll_visualizer_and_quiet(
    m: IdleModel,
    sys: Option<(u32, Seq<char>)>,
    track: Option<(Seq<char>, Seq<char>)>,
    lyric: Option<Seq<char>>,
    playing: bool,
    now: u64,
)
    ensures
        poll_spec(m, sys, track, lyric, playing, now).1.visualizer == if m.audio_active != playing {
            Some(playing)
        } else {
            None::<bool>
        },
        m.audio_active != playing ==> poll_spec(m, sys, track, lyric, playing, now).1.redraw,
        (m.audio_active == playing && m.sys_id == (match sys {
            Some(p) => Some(p.0),
            None => None::<u32>,
        }) && m.toast_since is None && m.lyric == lyric && (match track {
            Some(t) => m.track_id == Some(t.0),
            None => m.track_id is None,
        })) ==> poll_spec(m, sys, track, lyric, playing, now) == (
            m,
            IdleTick { visualizer: None, restart_fade: false, redraw: false },
        ),
{
}

/// The pill's lines: a system message reads as a bell, the application, a
/// colon and the summary, followed by a dash and the body only when there
/// is one; a track toast reads as a note and the title, followed by a
/// bullet and the artist only when the player names a real one.
pub proof fn lemma_pill_lines(app: Seq<char>, summary: Seq<char>, body: Seq<char>, title: Seq<char>, artist: Seq<char>)
    ensures
        body.len() == 0 ==> sys_message_spec(app, summary, body) == "🔔 "@ + app + ": "@ + summary,
        body.len() > 0 ==> sys_message_spec(app, summary, body) == "🔔 "@ + app + ": "@ + summary
            + " - "@ + body,
        (artist.len() == 0 || artist == "No media playing"@) ==> track_toast_spec(title, artist)
            == "🎵 "@ + title,
        !(artist.len() == 0 || artist == "No media playing"@) ==> track_toast_spec(title, artist)
            == "🎵 "@ + title + " • "@ + artist,
{
}

/// The spinning record follows playback: it starts when playback starts,
/// stops when it stops, and when playback did not change it stops for a
/// player without media or a paused track without a title, else keeps
/// going as it was.
pub proof fn lemma_disc_follows_playback(was_playing: bool, playing: bool, has_media: bool, title_empty: bool)
    ensures
        !was_playing && playing ==> disc_spec(was_playing, playing, has_media, title_empty)
            == DiscAction::Start,
        was_playing && !playing ==> disc_spec(was_playing, playing, has_media, title_empty)
            == DiscAction::Stop,
        was_playing == playing && !has_media ==> disc_spec(was_playing, playing, has_media, title_empty)
            == DiscAction::Stop,
        was_playing == playing && has_media && title_empty && !playing ==> disc_spec(
            was_playing,
            playing,
            has_media,
            title_empty,
        ) == DiscAction::Stop,
        was_playing == playing && has_media && (playing || !title_empty) ==> disc_spec(
            was_playing,
            playing,
            has_media,
            title_empty,
        ) == DiscAction::Keep,
{
}

} // verus!
