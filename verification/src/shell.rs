use vstd::prelude::*;
use crate::mode::CapsuleMode;
use crate::panels::PanelKind;
use crate::settings::CapsuleStyle;
use crate::orbit::OrbKind;
use crate::sizes::RecordStatus;

verus! {

/// What the views of the capsule report to it.
#[derive(Clone, Copy, Debug, PartialEq, Eq, Structural)]
pub enum ViewEvent {
    /// The status dock of the idle pill was clicked.
    StatusDockClicked,
    DashboardClose,
    SelectThemeRequested,
    TrayIconClicked(usize),
    WifiChevronClicked,
    BluetoothChevronClicked,
    CalendarClicked,
    VolumeChevronClicked,
    WallpaperRequested,
    SettingsRequested,
    LauncherClose,
    /// The authentication dialog succeeded or was cancelled.
    PolkitFinished,
    ThemeSelected,
    WallpaperClose,
    WallpaperSelected,
    ClipboardClose,
    EmojiClose,
    ShelfClose,
    RecordClose,
}

/// A scan that goes with opening a satellite panel.
#[derive(Clone, Copy, Debug, PartialEq, Eq, Structural)]
pub enum Scan {
    NoScan,
    /// Look for wireless networks again.
    Wifi,
    /// Start looking for Bluetooth devices.
    Bluetooth,
}

/// What the capsule does about a view event.
#[derive(Clone, Copy, Debug, PartialEq, Eq, Structural)]
pub enum ShellAction {
    Nothing,
    Transition(CapsuleMode),
    /// Toggle this satellite panel beside the dashboard, run the scan, and
    /// animate the panels.
    TogglePanel(PanelKind, Scan),
    /// Reload the wallpapers, then open the wallpaper picker.
    OpenWallpapers,
    /// Forget the wallpaper list, then return to the idle pill.
    CloseWallpapers,
    /// Set the chosen wallpaper, forget the list, return to the idle pill.
    ApplyWallpaper,
    /// Return to the idle pill and open the settings window.
    OpenSettings,
}

pub open spec fn view_event_spec(mode: CapsuleMode, event: ViewEvent) -> ShellAction {
    match event {
        ViewEvent::StatusDockClicked => ShellAction::Transition(CapsuleMode::Dashboard),
        ViewEvent::DashboardClose => if mode == CapsuleMode::Dashboard {
            ShellAction::Transition(CapsuleMode::Default)
        } else {
            ShellAction::Nothing
        },
        ViewEvent::SelectThemeRequested => ShellAction::Transition(CapsuleMode::SelectTheme),
        ViewEvent::TrayIconClicked(i) => ShellAction::TogglePanel(PanelKind::Tray(i), Scan::NoScan),
        ViewEvent::WifiChevronClicked => ShellAction::TogglePanel(PanelKind::Wifi, Scan::Wifi),
        ViewEvent::BluetoothChevronClicked => ShellAction::TogglePanel(
            PanelKind::Bluetooth,
            Scan::Bluetooth,
        ),
        ViewEvent::CalendarClicked => ShellAction::TogglePanel(PanelKind::Calendar, Scan::NoScan),
        ViewEvent::VolumeChevronClicked => ShellAction::TogglePanel(PanelKind::Volume, Scan::NoScan),
        ViewEvent::WallpaperRequested => ShellAction::OpenWallpapers,
        ViewEvent::SettingsRequested => ShellAction::OpenSettings,
        ViewEvent::WallpaperClose => ShellAction::CloseWallpapers,
        ViewEvent::WallpaperSelected => ShellAction::ApplyWallpaper,
        _ => ShellAction::Transition(CapsuleMode::Default),
    }
}

/// Decides what the capsule, showing `mode`, does about a view event.
pub fn view_event_action(mode: CapsuleMode, event: ViewEvent) -> (r: ShellAction)
    ensures
        r == view_event_spec(mode, event),
{
    match event {
        ViewEvent::StatusDockClicked => ShellAction::Transition(CapsuleMode::Dashboard),
        ViewEvent::DashboardClose => {
            if mode == CapsuleMode::Dashboard {
                ShellAction::Transition(CapsuleMode::Default)
            } else {
                ShellAction::Nothing
            }
        },
        ViewEvent::SelectThemeRequested => ShellAction::Transition(CapsuleMode::SelectTheme),
        ViewEvent::TrayIconClicked(i) => ShellAction::TogglePanel(PanelKind::Tray(i), Scan::NoScan),
        ViewEvent::WifiChevronClicked => ShellAction::TogglePanel(PanelKind::Wifi, Scan::Wifi),
        ViewEvent::BluetoothChevronClicked => ShellAction::TogglePanel(
            PanelKind::Bluetooth,
            Scan::Bluetooth,
        ),
        ViewEvent::CalendarClicked => ShellAction::TogglePanel(PanelKind::Calendar, Scan::NoScan),
        ViewEvent::VolumeChevronClicked => ShellAction::TogglePanel(PanelKind::Volume, Scan::NoScan),
        ViewEvent::WallpaperRequested => ShellAction::OpenWallpapers,
        ViewEvent::SettingsRequested => ShellAction::OpenSettings,
        ViewEvent::WallpaperClose => ShellAction::CloseWallpapers,
        ViewEvent::WallpaperSelected => ShellAction::ApplyWallpaper,
        _ => ShellAction::Transition(CapsuleMode::Default),
    }
}

/// What the views' events do: the status dock opens the dashboard and
/// the dashboard's close returns to the pill only from the dashboard; the
/// dashboard's tray icons and chevrons toggle their own satellite panel,
/// the Wi-Fi one with a network scan and the Bluetooth one with a device
/// scan; the theme, wallpaper and settings requests open what they name;
/// every close, finish or choice of another view returns to the pill.
pub proof fn lemma_view_events(mode: CapsuleMode, i: usize)
    ensures
        view_event_spec(mode, ViewEvent::StatusDockClicked) == ShellAction::Transition(
            CapsuleMode::Dashboard,
        ),
        view_event_spec(mode, ViewEvent::DashboardClose) == if mode == CapsuleMode::Dashboard {
            ShellAction::Transition(CapsuleMode::Default)
        } else {
            ShellAction::Nothing
        },
        view_event_spec(mode, ViewEvent::SelectThemeRequested) == ShellAction::Transition(
            CapsuleMode::SelectTheme,
        ),
        view_event_spec(mode, ViewEvent::TrayIconClicked(i)) == ShellAction::TogglePanel(
            PanelKind::Tray(i),
            Scan::NoScan,
        ),
        view_event_spec(mode, ViewEvent::WifiChevronClicked) == ShellAction::TogglePanel(
            PanelKind::Wifi,
            Scan::Wifi,
        ),
        view_event_spec(mode, ViewEvent::BluetoothChevronClicked) == ShellAction::TogglePanel(
            PanelKind::Bluetooth,
            Scan::Bluetooth,
        ),
        view_event_spec(mode, ViewEvent::CalendarClicked) == ShellAction::TogglePanel(
            PanelKind::Calendar,
            Scan::NoScan,
        ),
        view_event_spec(mode, ViewEvent::VolumeChevronClicked) == ShellAction::TogglePanel(
            PanelKind::Volume,
            Scan::NoScan,
        ),
        view_event_spec(mode, ViewEvent::WallpaperRequested) == ShellAction::OpenWallpapers,
        view_event_spec(mode, ViewEvent::SettingsRequested) == ShellAction::OpenSettings,
        view_event_spec(mode, ViewEvent::WallpaperClose) == ShellAction::CloseWallpapers,
        view_event_spec(mode, ViewEvent::WallpaperSelected) == ShellAction::ApplyWallpaper,
        view_event_spec(mode, ViewEvent::LauncherClose) == ShellAction::Transition(
            CapsuleMode::Default,
        ),
        view_event_spec(mode, ViewEvent::PolkitFinished) == ShellAction::Transition(
            CapsuleMode::Default,
        ),
        view_event_spec(mode, ViewEvent::ThemeSelected) == ShellAction::Transition(
            CapsuleMode::Default,
        ),
        view_event_spec(mode, ViewEvent::ClipboardClose) == ShellAction::Transition(
            CapsuleMode::Default,
        ),
        view_event_spec(mode, ViewEvent::EmojiClose) == ShellAction::Transition(
            CapsuleMode::Default,
        ),
        view_event_spec(mode, ViewEvent::ShelfClose) == ShellAction::Transition(
            CapsuleMode::Default,
        ),
        view_event_spec(mode, ViewEvent::RecordClose) == ShellAction::Transition(
            CapsuleMode::Default,
        ),
{
}

/// The modal views are exactly the launcher, dashboard, polkit dialog,
/// theme and wallpaper pickers, clipboard and emoji views: the idle pill,
/// notification, volume, settings, recorder and shelf views are not.
pub proof fn lemma_modal_views(mode: CapsuleMode)
    ensures
        is_modal_mode(mode) <==> (mode == CapsuleMode::Launcher || mode == CapsuleMode::Dashboard
            || mode == CapsuleMode::Polkit || mode == CapsuleMode::SelectTheme || mode
            == CapsuleMode::Wallpaper || mode == CapsuleMode::Clipboard || mode
            == CapsuleMode::Emoji),
        !is_modal_mode(CapsuleMode::Default),
        !is_modal_mode(CapsuleMode::Notification),
        !is_modal_mode(CapsuleMode::Volume),
        !is_modal_mode(CapsuleMode::Settings),
        !is_modal_mode(CapsuleMode::Record),
        !is_modal_mode(CapsuleMode::Shelf),
{
}

/// The volume pop-up: the first reading only sets the baseline and a
/// reading equal to the last one asks for nothing; a change updates the
/// volume view always, opens the pop-up only from the idle pill, and arms
/// a new, newer timer only while the pill or the pop-up shows.
pub proof fn lemma_volume_popup(o: VolumeOsd, volume: u32, muted: bool, mode: CapsuleMode)
    requires
        o.timer_gen < u64::MAX,
    ensures
        o.last is None ==> !volume_step_spec(o, volume, muted, mode).1.update_view
            && !volume_step_spec(o, volume, muted, mode).1.show && volume_step_spec(
            o,
            volume,
            muted,
            mode,
        ).0.last == Some(AudioStatus { volume, muted }),
        o.last == Some(AudioStatus { volume, muted }) ==> volume_step_spec(o, volume, muted, mode)
            == (o, VolumeStep { update_view: false, show: false, arm_timer: None }),
        (o.last is Some && o.last != Some(AudioStatus { volume, muted })) ==> ({
            let (n, step) = volume_step_spec(o, volume, muted, mode);
            &&& step.update_view
            &&& step.show == (mode == CapsuleMode::Default)
            &&& n.last == Some(AudioStatus { volume, muted })
            &&& (mode == CapsuleMode::Default || mode == CapsuleMode::Volume) ==> (step.arm_timer
                == Some(n.timer_gen) && n.timer_gen == o.timer_gen + 1)
            &&& !(mode == CapsuleMode::Default || mode == CapsuleMode::Volume) ==> (step.arm_timer
                is None && n.timer_gen == o.timer_gen)
        }),
{
}

/// The orbit buttons show only around the idle pill, and not while a drag
/// hovers over it.
pub fn orbit_visible(mode: CapsuleMode, dragging: bool) -> (r: bool)
    ensures
        r == (mode == CapsuleMode::Default && !dragging),
{
    mode == CapsuleMode::Default && !dragging
}

/// The views whose measured size the capsule follows.
#[derive(Clone, Copy, Debug, PartialEq, Eq, Structural)]
pub enum SizedView {
    Idle,
    Notification,
    Record,
}

/// Whether a size change of `view` resizes the capsule: the idle view
/// while idle and no drag hovers, the other two in their own mode.
pub fn follows_view_size(mode: CapsuleMode, view: SizedView, dragging: bool) -> (r: bool)
    ensures
        r == match view {
            SizedView::Idle => mode == CapsuleMode::Default && !dragging,
            SizedView::Notification => mode == CapsuleMode::Notification,
            SizedView::Record => mode == CapsuleMode::Record,
        },
{
    match view {
        SizedView::Idle => mode == CapsuleMode::Default && !dragging,
        SizedView::Notification => mode == CapsuleMode::Notification,
        SizedView::Record => mode == CapsuleMode::Record,
    }
}

/// Whether a cancellation from the authority concerns the request the
/// dialog shows.
pub fn cancels_request(active_cookie: &Option<String>, cancelled: &String) -> (r: bool)
    ensures
        r == (active_cookie matches Some(c) && c@ == cancelled@),
{
    match active_cookie {
        Some(c) => *c == *cancelled,
        None => false,
    }
}

/// The views that take the whole input of the screen while they show.
pub open spec fn is_modal_mode(mode: CapsuleMode) -> bool {
    mode == CapsuleMode::Launcher || mode == CapsuleMode::Dashboard || mode == CapsuleMode::Polkit
        || mode == CapsuleMode::SelectTheme || mode == CapsuleMode::Wallpaper || mode
        == CapsuleMode::Clipboard || mode == CapsuleMode::Emoji
}

fn modal_mode(mode: CapsuleMode) -> (r: bool)
    ensures
        r == is_modal_mode(mode),
{
    mode == CapsuleMode::Launcher || mode == CapsuleMode::Dashboard || mode == CapsuleMode::Polkit
        || mode == CapsuleMode::SelectTheme || mode == CapsuleMode::Wallpaper || mode
        == CapsuleMode::Clipboard || mode == CapsuleMode::Emoji
}

/// Whether the whole window takes input (otherwise only the pill and the
/// orbit buttons do): in a modal view, around the idle pill while a
/// satellite panel is open, and during a drag.
pub fn is_modal(mode: CapsuleMode, panels_open: bool, dragging: bool) -> (r: bool)
    ensures
        r == (is_modal_mode(mode) || (mode == CapsuleMode::Default && panels_open) || dragging),
{
    modal_mode(mode) || (mode == CapsuleMode::Default && panels_open) || dragging
}

/// Whether the window takes the keyboard for itself: in a modal view, and
/// while a notification reply is written.
pub fn needs_exclusive_focus(mode: CapsuleMode, replying: bool) -> (r: bool)
    ensures
        r == (is_modal_mode(mode) || (mode == CapsuleMode::Notification && replying)),
{
    modal_mode(mode) || (mode == CapsuleMode::Notification && replying)
}

/// What the capsule does the first time it draws a mode.
#[derive(Clone, Copy, Debug, PartialEq, Eq, Structural)]
pub struct ModeEntry {
    /// Activate the window and ask the compositor for focus.
    pub activate: bool,
    /// Reload the view's items.
    pub reload: bool,
    /// Give the view the keyboard focus.
    pub focus: bool,
}

/// A modal view and the shelf activate the window; the launcher takes
/// focus; the clipboard, emoji, wallpaper and shelf views reload their
/// items and take focus.
pub fn on_mode_shown(mode: CapsuleMode) -> (r: ModeEntry)
    ensures
        r == (ModeEntry {
            activate: is_modal_mode(mode) || mode == CapsuleMode::Shelf,
            reload: mode == CapsuleMode::Clipboard || mode == CapsuleMode::Emoji || mode
                == CapsuleMode::Wallpaper || mode == CapsuleMode::Shelf,
            focus: mode == CapsuleMode::Launcher || mode == CapsuleMode::Clipboard || mode
                == CapsuleMode::Emoji || mode == CapsuleMode::Wallpaper || mode == CapsuleMode::Shelf,
        }),
{
    let reload = mode == CapsuleMode::Clipboard || mode == CapsuleMode::Emoji || mode
        == CapsuleMode::Wallpaper || mode == CapsuleMode::Shelf;
    ModeEntry {
        activate: modal_mode(mode) || mode == CapsuleMode::Shelf,
        reload,
        focus: reload || mode == CapsuleMode::Launcher,
    }
}

/// Whether the capsule follows the size its content measured: not for the
/// idle pill, the volume pop-up, the recorder, the shelf and the
/// notification, which size themselves otherwise.
pub fn tracks_measured_size(mode: CapsuleMode) -> (r: bool)
    ensures
        r == !(mode == CapsuleMode::Default || mode == CapsuleMode::Volume || mode
            == CapsuleMode::Record || mode == CapsuleMode::Shelf || mode
            == CapsuleMode::Notification),
{
    !(mode == CapsuleMode::Default || mode == CapsuleMode::Volume || mode == CapsuleMode::Record
        || mode == CapsuleMode::Shelf || mode == CapsuleMode::Notification)
}

/// A click on an orbit button: around the idle pill, with no drag, the
/// shelf button opens the shelf when it holds items and the recording
/// button opens the recorder while a recording runs or is paused.
pub fn orb_target(
    kind: OrbKind,
    mode: CapsuleMode,
    dragging: bool,
    shelf_count: usize,
    record: RecordStatus,
) -> (r: Option<CapsuleMode>)
    ensures
        r == if mode != CapsuleMode::Default || dragging {
            None
        } else {
            match kind {
                OrbKind::Shelf => if shelf_count > 0 {
                    Some(CapsuleMode::Shelf)
                } else {
                    None
                },
                OrbKind::Recording => if record != RecordStatus::Stopped {
                    Some(CapsuleMode::Record)
                } else {
                    None
                },
            }
        },
{
    if mode != CapsuleMode::Default || dragging {
        return None;
    }
    match kind {
        OrbKind::Shelf => {
            if shelf_count > 0 {
                Some(CapsuleMode::Shelf)
            } else {
                None
            }
        },
        OrbKind::Recording => {
            if record != RecordStatus::Stopped {
                Some(CapsuleMode::Record)
            } else {
                None
            }
        },
    }
}

/// The pill is drawn concave only in the concave style and never during a
/// drag.
pub fn draws_concave(style: CapsuleStyle, dragging: bool) -> (r: bool)
    ensures
        r == (style == CapsuleStyle::Concave && !dragging),
{
    !dragging && style == CapsuleStyle::Concave
}

// ---------------------------------------------------------------------
// The volume pop-up

/// What one reading of the audio status asks of the capsule.
#[derive(Clone, Copy, Debug, PartialEq, Eq, Structural)]
pub struct VolumeStep {
    /// Hand the new status to the volume view.
    pub update_view: bool,
    /// Open the volume pop-up.
    pub show: bool,
    /// Start a two-second timer under this generation; when it fires,
    /// `expired` says whether to close the pop-up.
    pub arm_timer: Option<u64>,
}

/// A reading of the audio status.
#[derive(Clone, Copy, Debug, PartialEq, Eq, Structural)]
pub struct AudioStatus {
    pub volume: u32,
    pub muted: bool,
}

/// The watcher of the audio status: the last status seen and the
/// generation of the newest pop-up timer.
#[derive(Clone, Copy, Debug, PartialEq, Eq, Structural)]
pub struct VolumeOsd {
    pub last: Option<AudioStatus>,
    pub timer_gen: u64,
}

pub open spec fn volume_step_spec(o: VolumeOsd, volume: u32, muted: bool, mode: CapsuleMode) -> (
    VolumeOsd,
    VolumeStep,
) {
    let quiet = VolumeStep { update_view: false, show: false, arm_timer: None };
    if o.last is None {
        (VolumeOsd { last: Some(AudioStatus { volume, muted }), ..o }, quiet)
    } else if o.last == Some(AudioStatus { volume, muted }) {
        (o, quiet)
    } else if mode == CapsuleMode::Default || mode == CapsuleMode::Volume {
        let g = (o.timer_gen + 1) as u64;
        (
            VolumeOsd { last: Some(AudioStatus { volume, muted }), timer_gen: g },
            VolumeStep { update_view: true, show: mode == CapsuleMode::Default, arm_timer: Some(g) },
        )
    } else {
        (
            VolumeOsd { last: Some(AudioStatus { volume, muted }), ..o },
            VolumeStep { update_view: true, show: false, arm_timer: None },
        )
    }
}

impl VolumeOsd {
    pub fn new() -> (r: Self)
        ensures
            r.last is None,
            r.timer_gen == 0,
    {
        VolumeOsd { last: None, timer_gen: 0 }
    }

    /// Takes a reading of the audio status while the capsule shows `mode`.
    /// The first reading only sets the baseline; a change updates the
    /// volume view, opens the pop-up from the idle pill, and (re)starts its
    /// timer while the pill or the pop-up shows.
    pub fn observe(&mut self, volume: u32, muted: bool, mode: CapsuleMode) -> (r: VolumeStep)
        requires
            old(self).timer_gen < u64::MAX,
        ensures
            (*final(self), r) == volume_step_spec(*old(self), volume, muted, mode),
    {
        let quiet = VolumeStep { update_view: false, show: false, arm_timer: None };
        match self.last {
            None => {
                self.last = Some(AudioStatus { volume, muted });
                quiet
            },
            Some(a) => {
                if a.volume == volume && a.muted == muted {
                    quiet
                } else {
                    self.last = Some(AudioStatus { volume, muted });
                    if mode == CapsuleMode::Default || mode == CapsuleMode::Volume {
                        self.timer_gen = self.timer_gen + 1;
                        VolumeStep {
                            update_view: true,
                            show: mode == CapsuleMode::Default,
                            arm_timer: Some(self.timer_gen),
                        }
                    } else {
                        VolumeStep { update_view: true, show: false, arm_timer: None }
                    }
                }
            },
        }
    }

    /// A timer armed under `armed` fired: the pop-up closes when no newer
    /// timer was armed since and it still shows.
    pub fn expired(&self, armed: u64, mode: CapsuleMode) -> (r: bool)
        ensures
            r == (armed == self.timer_gen && mode == CapsuleMode::Volume),
    {
        armed == self.timer_gen && mode == CapsuleMode::Volume
    }
}

/// A change of the volume while the pill or the pop-up shows arms a timer
/// that closes the pop-up when it fires, unless a newer change came in
/// between: only the newest timer counts.
pub proof fn lemma_newest_timer_wins(
    o: VolumeOsd,
    v1: u32,
    m1: bool,
    v2: u32,
    m2: bool,
    mode: CapsuleMode,
)
    requires
        o.last is Some,
        o.last != Some(AudioStatus { volume: v1, muted: m1 }),
        v1 != v2 || m1 != m2,
        mode == CapsuleMode::Default || mode == CapsuleMode::Volume,
        o.timer_gen + 2 <= u64::MAX,
    ensures
        ({
            let (o1, s1) = volume_step_spec(o, v1, m1, mode);
            let (o2, s2) = volume_step_spec(o1, v2, m2, CapsuleMode::Volume);
            &&& s1.arm_timer matches Some(g1) && o1.timer_gen == g1
            &&& s2.arm_timer matches Some(g2) && g2 != s1.arm_timer->0 && o2.timer_gen == g2
        }),
{
}

// ---------------------------------------------------------------------
// The notification watcher

/// What one look at the newest notification asks of the capsule.
#[derive(Clone, Copy, Debug, PartialEq, Eq, Structural)]
pub struct NotificationStep {
    /// Hand the newest notification to the notification view.
    pub show_item: bool,
    pub transition: Option<CapsuleMode>,
}

/// The watcher of the notification store: the id of the newest active
/// notification it has seen.
#[derive(Clone, Copy, Debug, PartialEq, Eq, Structural)]
pub struct NotificationWatch {
    pub last_seen: Option<u32>,
}

pub open spec fn notification_step_spec(
    w: NotificationWatch,
    latest: Option<u32>,
    mode: CapsuleMode,
    replying: bool,
) -> (NotificationWatch, NotificationStep) {
    let quiet = NotificationStep { show_item: false, transition: None };
    if mode == CapsuleMode::Notification && replying {
        (w, quiet)
    } else if latest != w.last_seen {
        let w2 = NotificationWatch { last_seen: latest };
        if latest is Some {
            (
                w2,
                NotificationStep {
                    show_item: true,
                    transition: if mode == CapsuleMode::Default || mode
                        == CapsuleMode::Notification {
                        Some(CapsuleMode::Notification)
                    } else {
                        None
                    },
                },
            )
        } else if mode == CapsuleMode::Notification {
            (w2, NotificationStep { show_item: false, transition: Some(CapsuleMode::Default) })
        } else {
            (w2, quiet)
        }
    } else if latest is None && mode == CapsuleMode::Notification {
        (w, NotificationStep { show_item: false, transition: Some(CapsuleMode::Default) })
    } else {
        (w, quiet)
    }
}

impl NotificationWatch {
    pub fn new() -> (r: Self)
        ensures
            r.last_seen is None,
    {
        NotificationWatch { last_seen: None }
    }

    /// Takes the id of the newest active notification. A new one is shown,
    /// and opens the notification view from the idle pill; when none is
    /// left the view closes. Nothing changes while a reply is written.
    pub fn observe(&mut self, latest: Option<u32>, mode: CapsuleMode, replying: bool) -> (r:
        NotificationStep)
        ensures
            (*final(self), r) == notification_step_spec(*old(self), latest, mode, replying),
    {
        let quiet = NotificationStep { show_item: false, transition: None };
        if mode == CapsuleMode::Notification && replying {
            return quiet;
        }
        if latest != self.last_seen {
            self.last_seen = latest;
            match latest {
                Some(_) => {
                    let transition = if mode == CapsuleMode::Default || mode
                        == CapsuleMode::Notification {
                        Some(CapsuleMode::Notification)
                    } else {
                        None
                    };
                    NotificationStep { show_item: true, transition }
                },
                None => {
                    if mode == CapsuleMode::Notification {
                        NotificationStep { show_item: false, transition: Some(CapsuleMode::Default) }
                    } else {
                        quiet
                    }
                },
            }
        } else if latest.is_none() && mode == CapsuleMode::Notification {
            NotificationStep { show_item: false, transition: Some(CapsuleMode::Default) }
        } else {
            quiet
        }
    }
}

/// A reply being written is never interrupted: while it is open the
/// watcher neither changes nor asks for anything.
pub proof fn lemma_reply_is_never_interrupted(w: NotificationWatch, latest: Option<u32>)
    ensures
        notification_step_spec(w, latest, CapsuleMode::Notification, true) == (
            w,
            NotificationStep { show_item: false, transition: None },
        ),
{
}

/// The notification view never stays open without a notification: once
/// the store is empty it closes, whatever was seen before.
pub proof fn lemma_empty_store_closes_view(w: NotificationWatch)
    ensures
        notification_step_spec(w, None, CapsuleMode::Notification, false).1.transition == Some(
            CapsuleMode::Default,
        ),
{
}

/// A notification is announced once: seeing the same newest notification
/// again asks for nothing more.
pub proof fn lemma_notification_announced_once(
    w: NotificationWatch,
    id: u32,
    mode: CapsuleMode,
    replying: bool,
)
    ensures
        ({
            let (w1, s1) = notification_step_spec(w, Some(id), mode, replying);
            let (w2, s2) = notification_step_spec(w1, Some(id), mode, replying);
            !s2.show_item && s2.transition is None && w2 == w1
        }),
{
}

} // verus!
