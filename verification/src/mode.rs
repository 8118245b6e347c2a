use vstd::prelude::*;

verus! {

/// The views the capsule can morph into.
#[derive(Clone, Copy, Debug, PartialEq, Eq, Structural)]
pub enum CapsuleMode {
    Default,
    Dashboard,
    Notification,
    Launcher,
    Volume,
    Polkit,
    SelectTheme,
    Wallpaper,
    Clipboard,
    Emoji,
    Settings,
    Record,
    /// The shelf of staged files.
    Shelf,
}

/// Width and height, in logical pixels, that each mode asks for. The shelf
/// is as large as the drop target the idle pill grows into during a drag.
pub open spec fn mode_dimensions(mode: CapsuleMode) -> (u32, u32) {
    match mode {
        CapsuleMode::Default => (138, 42),
        CapsuleMode::Dashboard => (490, 480),
        CapsuleMode::Notification => (348, 68),
        CapsuleMode::Launcher => (380, 360),
        CapsuleMode::Volume => (280, 42),
        CapsuleMode::Polkit => (380, 190),
        CapsuleMode::SelectTheme => (680, 180),
        CapsuleMode::Wallpaper => (700, 240),
        CapsuleMode::Clipboard => (380, 360),
        CapsuleMode::Emoji => (430, 390),
        CapsuleMode::Settings => (840, 560),
        CapsuleMode::Record => (220, 42),
        CapsuleMode::Shelf => (560, 104),
    }
}

/// Corner radius of each mode: the settings sheet is squarer than the rest.
pub open spec fn mode_radius(mode: CapsuleMode) -> u32 {
    match mode {
        CapsuleMode::Settings => 24,
        _ => 42,
    }
}

impl CapsuleMode {
    pub fn dimensions(&self) -> (r: (u32, u32))
        ensures
            r == mode_dimensions(*self),
    {
        match self {
            CapsuleMode::Default => (138, 42),
            CapsuleMode::Dashboard => (490, 480),
            CapsuleMode::Notification => (348, 68),
            CapsuleMode::Launcher => (380, 360),
            CapsuleMode::Volume => (280, 42),
            CapsuleMode::Polkit => (380, 190),
            CapsuleMode::SelectTheme => (680, 180),
            CapsuleMode::Wallpaper => (700, 240),
            CapsuleMode::Clipboard => (380, 360),
            CapsuleMode::Emoji => (430, 390),
            CapsuleMode::Settings => (840, 560),
            CapsuleMode::Record => (220, 42),
            CapsuleMode::Shelf => (560, 104),
        }
    }

    pub fn radius(&self) -> (r: u32)
        ensures
            r == mode_radius(*self),
    {
        match self {
            CapsuleMode::Settings => 24,
            _ => 42,
        }
    }
}


/// Commands that arrive over the control socket.
#[derive(Clone, Copy, Debug, PartialEq, Eq, Structural)]
pub enum IpcCommand {
    ToggleLauncher,
    ToggleDashboard,
    ToggleNotification,
    ToggleSelectTheme,
    ToggleClipboard,
    ToggleEmoji,
    ShowLauncher,
    ShowDashboard,
    ShowNotification,
    ShowClipboard,
    ShowEmoji,
    Hide,
    Default,
    Lock,
    Quit,
    Terminal,
    Browser,
    Editor,
    FileManager,
    ToggleSettings,
    ShowSettings,
    ToggleRecord,
    ShowRecord,
    ToggleShelf,
    ShowShelf,
}

/// The configured applications a command can start.
#[derive(Clone, Copy, Debug, PartialEq, Eq, Structural)]
pub enum LaunchApp {
    Terminal,
    Browser,
    Editor,
    FileManager,
}

/// What the shell does in answer to a command.
#[derive(Clone, Copy, Debug, PartialEq, Eq, Structural)]
pub enum IpcAction {
    Transition(CapsuleMode),
    LockScreen,
    Quit,
    Launch(LaunchApp),
    ToggleSettingsPanel,
    ShowSettingsPanel,
}

/// A toggle opens `wanted`, or closes it back to the idle pill when it is
/// already the current mode.
pub open spec fn toggle_target(current: CapsuleMode, wanted: CapsuleMode) -> CapsuleMode {
    if current == wanted {
        CapsuleMode::Default
    } else {
        wanted
    }
}

pub open spec fn ipc_action_spec(current: CapsuleMode, cmd: IpcCommand) -> IpcAction {
    match cmd {
        IpcCommand::ToggleLauncher => IpcAction::Transition(
            toggle_target(current, CapsuleMode::Launcher),
        ),
        IpcCommand::ToggleDashboard => IpcAction::Transition(
            toggle_target(current, CapsuleMode::Dashboard),
        ),
        IpcCommand::ToggleNotification => IpcAction::Transition(
            toggle_target(current, CapsuleMode::Notification),
        ),
        IpcCommand::ToggleSelectTheme => IpcAction::Transition(
            toggle_target(current, CapsuleMode::SelectTheme),
        ),
        IpcCommand::ToggleClipboard => IpcAction::Transition(
            toggle_target(current, CapsuleMode::Clipboard),
        ),
        IpcCommand::ToggleEmoji => IpcAction::Transition(
            toggle_target(current, CapsuleMode::Emoji),
        ),
        IpcCommand::ToggleRecord => IpcAction::Transition(
            toggle_target(current, CapsuleMode::Record),
        ),
        IpcCommand::ToggleShelf => IpcAction::Transition(
            toggle_target(current, CapsuleMode::Shelf),
        ),
        IpcCommand::ShowLauncher => IpcAction::Transition(CapsuleMode::Launcher),
        IpcCommand::ShowDashboard => IpcAction::Transition(CapsuleMode::Dashboard),
        IpcCommand::ShowNotification => IpcAction::Transition(CapsuleMode::Notification),
        IpcCommand::ShowClipboard => IpcAction::Transition(CapsuleMode::Clipboard),
        IpcCommand::ShowEmoji => IpcAction::Transition(CapsuleMode::Emoji),
        IpcCommand::ShowRecord => IpcAction::Transition(CapsuleMode::Record),
        IpcCommand::ShowShelf => IpcAction::Transition(CapsuleMode::Shelf),
        IpcCommand::Hide => IpcAction::Transition(CapsuleMode::Default),
        IpcCommand::Default => IpcAction::Transition(CapsuleMode::Default),
        IpcCommand::Lock => IpcAction::LockScreen,
        IpcCommand::Quit => IpcAction::Quit,
        IpcCommand::Terminal => IpcAction::Launch(LaunchApp::Terminal),
        IpcCommand::Browser => IpcAction::Launch(LaunchApp::Browser),
        IpcCommand::Editor => IpcAction::Launch(LaunchApp::Editor),
        IpcCommand::FileManager => IpcAction::Launch(LaunchApp::FileManager),
        IpcCommand::ToggleSettings => IpcAction::ToggleSettingsPanel,
        IpcCommand::ShowSettings => IpcAction::ShowSettingsPanel,
    }
}

fn toggle_mode(current: CapsuleMode, wanted: CapsuleMode) -> (r: CapsuleMode)
    ensures
        r == toggle_target(current, wanted),
{
    if current == wanted {
        CapsuleMode::Default
    } else {
        wanted
    }
}

/// Decides what a control command does while the capsule shows `current`.
pub fn ipc_action(current: CapsuleMode, cmd: IpcCommand) -> (r: IpcAction)
    ensures
        r == ipc_action_spec(current, cmd),
{
    match cmd {
        IpcCommand::ToggleLauncher => IpcAction::Transition(
            toggle_mode(current, CapsuleMode::Launcher),
        ),
        IpcCommand::ToggleDashboard => IpcAction::Transition(
            toggle_mode(current, CapsuleMode::Dashboard),
        ),
        IpcCommand::ToggleNotification => IpcAction::Transition(
            toggle_mode(current, CapsuleMode::Notification),
        ),
        IpcCommand::ToggleSelectTheme => IpcAction::Transition(
            toggle_mode(current, CapsuleMode::SelectTheme),
        ),
        IpcCommand::ToggleClipboard => IpcAction::Transition(
            toggle_mode(current, CapsuleMode::Clipboard),
        ),
        IpcCommand::ToggleEmoji => IpcAction::Transition(
            toggle_mode(current, CapsuleMode::Emoji),
        ),
        IpcCommand::ToggleRecord => IpcAction::Transition(
            toggle_mode(current, CapsuleMode::Record),
        ),
        IpcCommand::ToggleShelf => IpcAction::Transition(
            toggle_mode(current, CapsuleMode::Shelf),
        ),
        IpcCommand::ShowLauncher => IpcAction::Transition(CapsuleMode::Launcher),
        IpcCommand::ShowDashboard => IpcAction::Transition(CapsuleMode::Dashboard),
        IpcCommand::ShowNotification => IpcAction::Transition(CapsuleMode::Notification),
        IpcCommand::ShowClipboard => IpcAction::Transition(CapsuleMode::Clipboard),
        IpcCommand::ShowEmoji => IpcAction::Transition(CapsuleMode::Emoji),
        IpcCommand::ShowRecord => IpcAction::Transition(CapsuleMode::Record),
        IpcCommand::ShowShelf => IpcAction::Transition(CapsuleMode::Shelf),
        IpcCommand::Hide => IpcAction::Transition(CapsuleMode::Default),
        IpcCommand::Default => IpcAction::Transition(CapsuleMode::Default),
        IpcCommand::Lock => IpcAction::LockScreen,
        IpcCommand::Quit => IpcAction::Quit,
        IpcCommand::Terminal => IpcAction::Launch(LaunchApp::Terminal),
        IpcCommand::Browser => IpcAction::Launch(LaunchApp::Browser),
        IpcCommand::Editor => IpcAction::Launch(LaunchApp::Editor),
        IpcCommand::FileManager => IpcAction::Launch(LaunchApp::FileManager),
        IpcCommand::ToggleSettings => IpcAction::ToggleSettingsPanel,
        IpcCommand::ShowSettings => IpcAction::ShowSettingsPanel,
    }
}

/// Modes that stay open until the user closes them; every other expanded
/// mode falls back to the idle pill after a quiet spell.
pub open spec fn is_sticky(mode: CapsuleMode) -> bool {
    mode == CapsuleMode::Default || mode == CapsuleMode::Dashboard || mode
        == CapsuleMode::Launcher || mode == CapsuleMode::Polkit || mode == CapsuleMode::Record
        || mode == CapsuleMode::Shelf
}

fn sticky(mode: CapsuleMode) -> (r: bool)
    ensures
        r == is_sticky(mode),
{
    mode == CapsuleMode::Default || mode == CapsuleMode::Dashboard || mode
        == CapsuleMode::Launcher || mode == CapsuleMode::Polkit || mode == CapsuleMode::Record
        || mode == CapsuleMode::Shelf
}

/// Where the target size of a transition comes from.
#[derive(Clone, Copy, Debug, PartialEq, Eq, Structural)]
pub enum SizeSource {
    /// The idle view's own width, at the mode's fixed height.
    IdleWidth,
    /// The size the notification content measured.
    Measured,
    /// The dashboard's own width, at the mode's fixed height.
    DashboardWidth,
    /// The recorder bar's own width, at the mode's fixed height.
    RecordWidth,
    /// The fixed table of `CapsuleMode::dimensions`.
    Fixed,
}

/// The side effects of switching from one mode to another.
#[derive(Clone, Copy, Debug, PartialEq, Eq, Structural)]
pub struct TransitionPlan {
    pub deactivate_notification: bool,
    pub clear_panels: bool,
    pub request_focus: bool,
    pub clear_wallpaper_cache: bool,
    pub reset_launcher: bool,
    pub refresh_themes: bool,
    /// Reload the shelf's items.
    pub reload_shelf: bool,
    pub watch_inactivity: bool,
    pub size: SizeSource,
}

pub open spec fn size_source_spec(target: CapsuleMode) -> SizeSource {
    match target {
        CapsuleMode::Default => SizeSource::IdleWidth,
        CapsuleMode::Notification => SizeSource::Measured,
        CapsuleMode::Dashboard => SizeSource::DashboardWidth,
        CapsuleMode::Record => SizeSource::RecordWidth,
        _ => SizeSource::Fixed,
    }
}

pub open spec fn plan_spec(current: CapsuleMode, target: CapsuleMode) -> TransitionPlan {
    TransitionPlan {
        deactivate_notification: current == CapsuleMode::Notification && target
            != CapsuleMode::Notification,
        clear_panels: current == CapsuleMode::Dashboard && target != CapsuleMode::Dashboard,
        request_focus: target != CapsuleMode::Default,
        clear_wallpaper_cache: current == CapsuleMode::Wallpaper && target
            != CapsuleMode::Wallpaper,
        reset_launcher: target == CapsuleMode::Launcher,
        refresh_themes: target == CapsuleMode::SelectTheme,
        reload_shelf: target == CapsuleMode::Shelf,
        watch_inactivity: !is_sticky(target) && target != CapsuleMode::Notification,
        size: size_source_spec(target),
    }
}

/// Plans a switch to `target`; nothing happens when the capsule already
/// rests in that mode.
pub fn plan_transition(current: CapsuleMode, animating: bool, target: CapsuleMode) -> (r: Option<
    TransitionPlan,
>)
    ensures
        current == target && !animating ==> r is None,
        !(current == target && !animating) ==> r == Some(plan_spec(current, target)),
{
    if current == target && !animating {
        return None;
    }
    let size = match target {
        CapsuleMode::Default => SizeSource::IdleWidth,
        CapsuleMode::Notification => SizeSource::Measured,
        CapsuleMode::Dashboard => SizeSource::DashboardWidth,
        CapsuleMode::Record => SizeSource::RecordWidth,
        _ => SizeSource::Fixed,
    };
    Some(
        TransitionPlan {
            deactivate_notification: current == CapsuleMode::Notification && target
                != CapsuleMode::Notification,
            clear_panels: current == CapsuleMode::Dashboard && target != CapsuleMode::Dashboard,
            request_focus: target != CapsuleMode::Default,
            clear_wallpaper_cache: current == CapsuleMode::Wallpaper && target
                != CapsuleMode::Wallpaper,
            reset_launcher: target == CapsuleMode::Launcher,
            refresh_themes: target == CapsuleMode::SelectTheme,
            reload_shelf: target == CapsuleMode::Shelf,
            watch_inactivity: !sticky(target) && target != CapsuleMode::Notification,
            size,
        },
    )
}

/// How long, in milliseconds, an expanded mode may sit untouched.
pub const INACTIVITY_TIMEOUT_MS: u64 = 5000;

/// One tick of the inactivity watcher.
#[derive(Clone, Copy, Debug, PartialEq, Eq, Structural)]
pub enum InactivityVerdict {
    Stop,
    ReturnToDefault,
    KeepWatching,
}

pub open spec fn inactivity_spec(mode: CapsuleMode, watch_current: bool, idle_ms: u64) -> InactivityVerdict {
    if !watch_current || is_sticky(mode) {
        InactivityVerdict::Stop
    } else if idle_ms >= INACTIVITY_TIMEOUT_MS {
        InactivityVerdict::ReturnToDefault
    } else {
        InactivityVerdict::KeepWatching
    }
}

/// Decides one tick of a watcher: it stops when a newer watcher replaced it
/// or the mode became one that stays open, and sends the capsule home once
/// the user has been idle for the timeout.
pub fn inactivity_verdict(mode: CapsuleMode, watch_current: bool, idle_ms: u64) -> (r: InactivityVerdict)
    ensures
        r == inactivity_spec(mode, watch_current, idle_ms),
{
    if !watch_current || sticky(mode) {
        InactivityVerdict::Stop
    } else if idle_ms >= INACTIVITY_TIMEOUT_MS {
        InactivityVerdict::ReturnToDefault
    } else {
        InactivityVerdict::KeepWatching
    }
}

/// A toggle command undoes itself: sending it twice from the idle pill
/// opens the mode and then returns to the pill.
pub proof fn lemma_toggle_round_trip(wanted: CapsuleMode)
    requires
        wanted != CapsuleMode::Default,
    ensures
        toggle_target(toggle_target(CapsuleMode::Default, wanted), wanted) == CapsuleMode::Default,
        toggle_target(CapsuleMode::Default, wanted) == wanted,
{
}

/// A mode whose transition starts the inactivity watcher is left for the
/// idle pill once the user has been idle for the timeout, as long as no
/// newer watcher took over.
pub proof fn lemma_watched_modes_time_out(current: CapsuleMode, target: CapsuleMode, idle_ms: u64)
    requires
        plan_spec(current, target).watch_inactivity,
        idle_ms >= INACTIVITY_TIMEOUT_MS,
    ensures
        inactivity_spec(target, true, idle_ms) == InactivityVerdict::ReturnToDefault,
{
}

/// Dashboard panels never outlive the dashboard: every transition away from
/// it clears them.
pub proof fn lemma_leaving_dashboard_clears_panels(target: CapsuleMode)
    requires
        target != CapsuleMode::Dashboard,
    ensures
        plan_spec(CapsuleMode::Dashboard, target).clear_panels,
{
}

/// A show command brings up its view whatever the capsule shows now, and
/// hide (or its alias) always returns to the idle pill.
pub proof fn lemma_show_commands_open_their_view(current: CapsuleMode)
    ensures
        ipc_action_spec(current, IpcCommand::ShowLauncher) == IpcAction::Transition(
            CapsuleMode::Launcher,
        ),
        ipc_action_spec(current, IpcCommand::ShowDashboard) == IpcAction::Transition(
            CapsuleMode::Dashboard,
        ),
        ipc_action_spec(current, IpcCommand::ShowNotification) == IpcAction::Transition(
            CapsuleMode::Notification,
        ),
        ipc_action_spec(current, IpcCommand::ShowClipboard) == IpcAction::Transition(
            CapsuleMode::Clipboard,
        ),
        ipc_action_spec(current, IpcCommand::ShowEmoji) == IpcAction::Transition(
            CapsuleMode::Emoji,
        ),
        ipc_action_spec(current, IpcCommand::ShowRecord) == IpcAction::Transition(
            CapsuleMode::Record,
        ),
        ipc_action_spec(current, IpcCommand::ShowShelf) == IpcAction::Transition(
            CapsuleMode::Shelf,
        ),
        ipc_action_spec(current, IpcCommand::Hide) == IpcAction::Transition(CapsuleMode::Default),
        ipc_action_spec(current, IpcCommand::Default) == IpcAction::Transition(
            CapsuleMode::Default,
        ),
{
}

/// A toggle command opens its view, or closes it back to the idle pill
/// when that view is the one shown; away from that view it does what the
/// matching show command does.
pub proof fn lemma_toggle_commands(current: CapsuleMode)
    ensures
        ipc_action_spec(current, IpcCommand::ToggleLauncher) == IpcAction::Transition(
            if current == CapsuleMode::Launcher {
                CapsuleMode::Default
            } else {
                CapsuleMode::Launcher
            },
        ),
        ipc_action_spec(current, IpcCommand::ToggleDashboard) == IpcAction::Transition(
            if current == CapsuleMode::Dashboard {
                CapsuleMode::Default
            } else {
                CapsuleMode::Dashboard
            },
        ),
        ipc_action_spec(current, IpcCommand::ToggleNotification) == IpcAction::Transition(
            if current == CapsuleMode::Notification {
                CapsuleMode::Default
            } else {
                CapsuleMode::Notification
            },
        ),
        ipc_action_spec(current, IpcCommand::ToggleSelectTheme) == IpcAction::Transition(
            if current == CapsuleMode::SelectTheme {
                CapsuleMode::Default
            } else {
                CapsuleMode::SelectTheme
            },
        ),
        ipc_action_spec(current, IpcCommand::ToggleClipboard) == IpcAction::Transition(
            if current == CapsuleMode::Clipboard {
                CapsuleMode::Default
            } else {
                CapsuleMode::Clipboard
            },
        ),
        ipc_action_spec(current, IpcCommand::ToggleEmoji) == IpcAction::Transition(
            if current == CapsuleMode::Emoji {
                CapsuleMode::Default
            } else {
                CapsuleMode::Emoji
            },
        ),
        ipc_action_spec(current, IpcCommand::ToggleRecord) == IpcAction::Transition(
            if current == CapsuleMode::Record {
                CapsuleMode::Default
            } else {
                CapsuleMode::Record
            },
        ),
        ipc_action_spec(current, IpcCommand::ToggleShelf) == IpcAction::Transition(
            if current == CapsuleMode::Shelf {
                CapsuleMode::Default
            } else {
                CapsuleMode::Shelf
            },
        ),
        current != CapsuleMode::Launcher ==> ipc_action_spec(current, IpcCommand::ToggleLauncher)
            == ipc_action_spec(current, IpcCommand::ShowLauncher),
        current != CapsuleMode::Dashboard ==> ipc_action_spec(current, IpcCommand::ToggleDashboard)
            == ipc_action_spec(current, IpcCommand::ShowDashboard),
        current != CapsuleMode::Notification ==> ipc_action_spec(
            current,
            IpcCommand::ToggleNotification,
        ) == ipc_action_spec(current, IpcCommand::ShowNotification),
        current != CapsuleMode::Clipboard ==> ipc_action_spec(current, IpcCommand::ToggleClipboard)
            == ipc_action_spec(current, IpcCommand::ShowClipboard),
        current != CapsuleMode::Emoji ==> ipc_action_spec(current, IpcCommand::ToggleEmoji)
            == ipc_action_spec(current, IpcCommand::ShowEmoji),
        current != CapsuleMode::Record ==> ipc_action_spec(current, IpcCommand::ToggleRecord)
            == ipc_action_spec(current, IpcCommand::ShowRecord),
        current != CapsuleMode::Shelf ==> ipc_action_spec(current, IpcCommand::ToggleShelf)
            == ipc_action_spec(current, IpcCommand::ShowShelf),
{
}

/// The commands that are not about a view never change the mode: they
/// lock, quit, start the configured applications or work the settings
/// sheet, whatever the capsule shows.
pub proof fn lemma_other_commands_keep_the_mode(current: CapsuleMode)
    ensures
        ipc_action_spec(current, IpcCommand::Lock) == IpcAction::LockScreen,
        ipc_action_spec(current, IpcCommand::Quit) == IpcAction::Quit,
        ipc_action_spec(current, IpcCommand::Terminal) == IpcAction::Launch(LaunchApp::Terminal),
        ipc_action_spec(current, IpcCommand::Browser) == IpcAction::Launch(LaunchApp::Browser),
        ipc_action_spec(current, IpcCommand::Editor) == IpcAction::Launch(LaunchApp::Editor),
        ipc_action_spec(current, IpcCommand::FileManager) == IpcAction::Launch(
            LaunchApp::FileManager,
        ),
        ipc_action_spec(current, IpcCommand::ToggleSettings) == IpcAction::ToggleSettingsPanel,
        ipc_action_spec(current, IpcCommand::ShowSettings) == IpcAction::ShowSettingsPanel,
{
}

/// The inactivity watcher stops when a newer one took over and in the
/// views that stay open (the idle pill, dashboard, launcher, polkit dialog,
/// recorder and shelf); in any other view it sends the capsule home after
/// five idle seconds and keeps watching before.
pub proof fn lemma_inactivity_timeout(mode: CapsuleMode, watch_current: bool, idle_ms: u64)
    ensures
        !watch_current ==> inactivity_spec(mode, watch_current, idle_ms) == InactivityVerdict::Stop,
        (mode == CapsuleMode::Default || mode == CapsuleMode::Dashboard || mode
            == CapsuleMode::Launcher || mode == CapsuleMode::Polkit || mode == CapsuleMode::Record
            || mode == CapsuleMode::Shelf) ==> inactivity_spec(mode, watch_current, idle_ms)
            == InactivityVerdict::Stop,
        watch_current && !(mode == CapsuleMode::Default || mode == CapsuleMode::Dashboard || mode
            == CapsuleMode::Launcher || mode == CapsuleMode::Polkit || mode == CapsuleMode::Record
            || mode == CapsuleMode::Shelf) ==> inactivity_spec(mode, watch_current, idle_ms) == (
        if idle_ms >= 5000 {
            InactivityVerdict::ReturnToDefault
        } else {
            InactivityVerdict::KeepWatching
        }),
{
}

/// What a switch does on the way: each view's own preparation runs only
/// when that view is the target, and what a view leaves behind is cleaned
/// only when it is left. A switch to the mode the capsule rests in does
/// nothing.
pub proof fn lemma_transition_side_effects(current: CapsuleMode, target: CapsuleMode)
    ensures
        plan_spec(current, target).reset_launcher <==> target == CapsuleMode::Launcher,
        plan_spec(current, target).refresh_themes <==> target == CapsuleMode::SelectTheme,
        plan_spec(current, target).reload_shelf <==> target == CapsuleMode::Shelf,
        plan_spec(current, target).request_focus <==> target != CapsuleMode::Default,
        plan_spec(current, target).clear_panels <==> (current == CapsuleMode::Dashboard && target
            != CapsuleMode::Dashboard),
        plan_spec(current, target).clear_wallpaper_cache <==> (current == CapsuleMode::Wallpaper
            && target != CapsuleMode::Wallpaper),
        plan_spec(current, target).deactivate_notification <==> (current
            == CapsuleMode::Notification && target != CapsuleMode::Notification),
        plan_spec(current, target).watch_inactivity <==> !(target == CapsuleMode::Default || target
            == CapsuleMode::Dashboard || target == CapsuleMode::Launcher || target
            == CapsuleMode::Polkit || target == CapsuleMode::Record || target == CapsuleMode::Shelf
            || target == CapsuleMode::Notification),
        target == CapsuleMode::Default ==> plan_spec(current, target).size == SizeSource::IdleWidth,
        target == CapsuleMode::Notification ==> plan_spec(current, target).size
            == SizeSource::Measured,
        target == CapsuleMode::Dashboard ==> plan_spec(current, target).size
            == SizeSource::DashboardWidth,
        target == CapsuleMode::Record ==> plan_spec(current, target).size
            == SizeSource::RecordWidth,
        !(target == CapsuleMode::Default || target == CapsuleMode::Notification || target
            == CapsuleMode::Dashboard || target == CapsuleMode::Record) ==> plan_spec(
            current,
            target,
        ).size == SizeSource::Fixed,
{
}

} // verus!
