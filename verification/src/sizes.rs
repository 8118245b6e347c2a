use vstd::prelude::*;

verus! {

/// What the recorder bar asks of the shell.
#[derive(Clone, Copy, Debug, PartialEq, Eq, Structural)]
pub enum RecordEvent {
    Close,
}

/// State of the screen recorder.
#[derive(Clone, Copy, Debug, PartialEq, Eq, Structural)]
pub enum RecordStatus {
    Stopped,
    Recording,
    Paused,
}

/// Width of the recorder bar, when it does not depend on a label: 220
/// while starting or recording, 264 while paused, 26 more once an hour has
/// passed; `None` when stopped (the label's width decides).
pub open spec fn record_width_spec(is_starting: bool, status: RecordStatus, duration_secs: u64) -> Option<u32> {
    let extra: u32 = if duration_secs >= 3600 {
        26
    } else {
        0
    };
    if is_starting || status == RecordStatus::Recording {
        Some((220 + extra) as u32)
    } else if status == RecordStatus::Paused {
        Some((264 + extra) as u32)
    } else {
        None
    }
}

pub fn record_width(is_starting: bool, status: RecordStatus, duration_secs: u64) -> (r: Option<u32>)
    ensures
        r == record_width_spec(is_starting, status, duration_secs),
{
    let extra: u32 = if duration_secs >= 3600 {
        26
    } else {
        0
    };
    if is_starting || status == RecordStatus::Recording {
        Some(220 + extra)
    } else if status == RecordStatus::Paused {
        Some(264 + extra)
    } else {
        None
    }
}

/// The status the recorder bar shows: a recording that is starting shows
/// as recording until the service reports otherwise.
pub open spec fn effective_status_spec(is_starting: bool, status: RecordStatus) -> RecordStatus {
    if is_starting && status == RecordStatus::Stopped {
        RecordStatus::Recording
    } else {
        status
    }
}

pub fn effective_status(is_starting: bool, status: RecordStatus) -> (r: RecordStatus)
    ensures
        r == effective_status_spec(is_starting, status),
{
    if is_starting && status == RecordStatus::Stopped {
        RecordStatus::Recording
    } else {
        status
    }
}

/// Whether the recorder's timer must run: the bar shows a live recording
/// and no timer runs yet.
pub fn needs_timer(is_starting: bool, status: RecordStatus, timer_running: bool) -> (r: bool)
    ensures
        r == (!timer_running && effective_status_spec(is_starting, status) != RecordStatus::Stopped),
{
    let shown = effective_status(is_starting, status);
    !timer_running && (shown == RecordStatus::Recording || shown == RecordStatus::Paused)
}

/// Width of the dashboard: its header holds the tray icons (30 each) and
/// the battery (55), and it is never narrower than 490.
pub open spec fn dashboard_width_spec(tray_count: nat, has_battery: bool) -> int {
    let header = 220 + tray_count * 30 + (if has_battery {
        55int
    } else {
        0
    }) + 16 + 32;
    if header > 490 {
        header
    } else {
        490
    }
}

pub fn dashboard_width(tray_count: usize, has_battery: bool) -> (r: u128)
    ensures
        r == dashboard_width_spec(tray_count as nat, has_battery),
{
    let battery: u128 = if has_battery {
        55
    } else {
        0
    };
    let header: u128 = 220 + tray_count as u128 * 30 + battery + 16 + 32;
    if header > 490 {
        header
    } else {
        490
    }
}

/// The line the idle pill shows: a system message first, then a track
/// toast, then the current lyric line unless it is empty, else the time.
pub open spec fn display_text_spec(
    sys_notif: Option<Seq<char>>,
    toast: Option<Seq<char>>,
    lyric: Option<Seq<char>>,
    time: Seq<char>,
) -> Seq<char> {
    match sys_notif {
        Some(s) => s,
        None => match toast {
            Some(t) => t,
            None => match lyric {
                Some(l) => if l.len() > 0 {
                    l
                } else {
                    time
                },
                None => time,
            },
        },
    }
}

pub open spec fn opt_view(o: Option<String>) -> Option<Seq<char>> {
    match o {
        Some(s) => Some(s@),
        None => None,
    }
}

pub fn active_display_text(
    sys_notif: Option<String>,
    toast: Option<String>,
    lyric: Option<String>,
    time: String,
) -> (r: String)
    ensures
        r@ == display_text_spec(opt_view(sys_notif), opt_view(toast), opt_view(lyric), time@),
{
    match sys_notif {
        Some(s) => s,
        None => match toast {
            Some(t) => t,
            None => match lyric {
                Some(l) => if l.as_str().unicode_len() > 0 {
                    l
                } else {
                    time
                },
                None => time,
            },
        },
    }
}

/// The recorder bar: a starting or running recording takes 220, a paused
/// one 44 more, and an hour on the clock adds 26 in either case; a
/// stopped recorder has no fixed width. A recording that is starting
/// shows as running, and the timer is wanted exactly while the bar shows a
/// live recording and none runs.
pub proof fn lemma_record_bar(status: RecordStatus, is_starting: bool, d: u64, timer_running: bool)
    ensures
        (record_width_spec(is_starting, status, d) is None) <==> (!is_starting && status
            == RecordStatus::Stopped),
        (is_starting || status == RecordStatus::Recording) ==> record_width_spec(
            is_starting,
            status,
            d,
        ) == Some(if d >= 3600 { 246u32 } else { 220u32 }),
        !is_starting && status == RecordStatus::Paused ==> record_width_spec(is_starting, status, d)
            == Some(if d >= 3600 { 290u32 } else { 264u32 }),
        effective_status_spec(is_starting, status) == RecordStatus::Stopped <==> (!is_starting
            && status == RecordStatus::Stopped),
        status != RecordStatus::Stopped ==> effective_status_spec(is_starting, status) == status,
{
}

/// The dashboard is never narrower than 490; each tray icon widens a
/// dashboard that is past that minimum by 30 and the battery by 55, and
/// more icons never make it narrower.
pub proof fn lemma_dashboard_width_grows(tray_count: nat, has_battery: bool)
    ensures
        dashboard_width_spec(tray_count, has_battery) >= 490,
        dashboard_width_spec(tray_count, has_battery) <= dashboard_width_spec(
            tray_count + 1,
            has_battery,
        ) <= dashboard_width_spec(tray_count, has_battery) + 30,
        dashboard_width_spec(tray_count, has_battery) > 490 ==> dashboard_width_spec(
            tray_count + 1,
            has_battery,
        ) == dashboard_width_spec(tray_count, has_battery) + 30,
        dashboard_width_spec(tray_count, false) > 490 ==> dashboard_width_spec(tray_count, true)
            == dashboard_width_spec(tray_count, false) + 55,
        dashboard_width_spec(tray_count, false) <= dashboard_width_spec(tray_count, true),
        dashboard_width_spec(0, false) == 490,
        dashboard_width_spec(tray_count, has_battery) > 490 ==> dashboard_width_spec(
            tray_count,
            has_battery,
        ) == 268 + 30 * tray_count + if has_battery { 55int } else { 0 },
{
}

/// The idle pill shows a system message over everything, then a track
/// toast, then a lyric line that is not empty, and the time otherwise.
pub proof fn lemma_idle_line_priority(
    sys_notif: Option<Seq<char>>,
    toast: Option<Seq<char>>,
    lyric: Option<Seq<char>>,
    time: Seq<char>,
)
    ensures
        sys_notif matches Some(s) ==> display_text_spec(sys_notif, toast, lyric, time) == s,
        sys_notif is None ==> (toast matches Some(t) ==> display_text_spec(
            sys_notif,
            toast,
            lyric,
            time,
        ) == t),
        sys_notif is None && toast is None ==> (lyric matches Some(l) ==> (l.len() > 0
            ==> display_text_spec(sys_notif, toast, lyric, time) == l)),
        sys_notif is None && toast is None && lyric is None ==> display_text_spec(
            sys_notif,
            toast,
            lyric,
            time,
        ) == time,
        sys_notif is None && toast is None ==> (lyric matches Some(l) ==> (l.len() == 0
            ==> display_text_spec(sys_notif, toast, lyric, time) == time)),
{
}

} // verus!
