use capsule::calendar::{days_in_month, is_leap_year, month_view, CalendarCell, MonthView};
use capsule::container::{ConcaveContainer, NormalContainer, PillClick};
use capsule::dates::{
    format_dashboard_date, format_duration, format_greeting, get_greeting_info, month_es,
    record_clock, u64_to_decimal, weekday_en, weekday_es,
};
use capsule::launch::{first_word, launch_line};
use capsule::mode::{
    inactivity_verdict, ipc_action, plan_transition, CapsuleMode, InactivityVerdict, IpcAction,
    IpcCommand, LaunchApp, SizeSource, INACTIVITY_TIMEOUT_MS,
};
use capsule::sizes::{
    active_display_text, dashboard_width, effective_status, needs_timer, record_width,
    RecordStatus,
};

#[test]
fn mode_dimensions_and_radius() {
    assert_eq!(CapsuleMode::Default.dimensions(), (138, 42));
    assert_eq!(CapsuleMode::Dashboard.dimensions(), (490, 480));
    assert_eq!(CapsuleMode::Notification.dimensions(), (348, 68));
    assert_eq!(CapsuleMode::Launcher.dimensions(), (380, 360));
    assert_eq!(CapsuleMode::Settings.radius(), 24);
    assert_eq!(CapsuleMode::Launcher.radius(), 42);
}

#[test]
fn toggle_command_opens_then_closes() {
    assert_eq!(
        ipc_action(CapsuleMode::Default, IpcCommand::ToggleLauncher),
        IpcAction::Transition(CapsuleMode::Launcher)
    );
    assert_eq!(
        ipc_action(CapsuleMode::Launcher, IpcCommand::ToggleLauncher),
        IpcAction::Transition(CapsuleMode::Default)
    );
    assert_eq!(
        ipc_action(CapsuleMode::Dashboard, IpcCommand::ToggleEmoji),
        IpcAction::Transition(CapsuleMode::Emoji)
    );
}

#[test]
fn show_and_other_commands() {
    assert_eq!(
        ipc_action(CapsuleMode::Launcher, IpcCommand::ShowLauncher),
        IpcAction::Transition(CapsuleMode::Launcher)
    );
    assert_eq!(
        ipc_action(CapsuleMode::Emoji, IpcCommand::Hide),
        IpcAction::Transition(CapsuleMode::Default)
    );
    assert_eq!(ipc_action(CapsuleMode::Default, IpcCommand::Lock), IpcAction::LockScreen);
    assert_eq!(ipc_action(CapsuleMode::Default, IpcCommand::Quit), IpcAction::Quit);
    assert_eq!(
        ipc_action(CapsuleMode::Default, IpcCommand::Editor),
        IpcAction::Launch(LaunchApp::Editor)
    );
    assert_eq!(
        ipc_action(CapsuleMode::Default, IpcCommand::ToggleSettings),
        IpcAction::ToggleSettingsPanel
    );
}

#[test]
fn transition_to_current_mode_does_nothing() {
    assert_eq!(plan_transition(CapsuleMode::Launcher, false, CapsuleMode::Launcher), None);
    assert!(plan_transition(CapsuleMode::Launcher, true, CapsuleMode::Launcher).is_some());
}

#[test]
fn transition_side_effects() {
    let p = plan_transition(CapsuleMode::Dashboard, false, CapsuleMode::Default).unwrap();
    assert!(p.clear_panels);
    assert!(!p.request_focus);
    assert!(!p.watch_inactivity);
    assert_eq!(p.size, SizeSource::IdleWidth);

    let p = plan_transition(CapsuleMode::Notification, false, CapsuleMode::Emoji).unwrap();
    assert!(p.deactivate_notification);
    assert!(p.request_focus);
    assert!(p.watch_inactivity);
    assert_eq!(p.size, SizeSource::Fixed);

    let p = plan_transition(CapsuleMode::Wallpaper, false, CapsuleMode::Launcher).unwrap();
    assert!(p.clear_wallpaper_cache);
    assert!(p.reset_launcher);
    assert!(!p.watch_inactivity);

    let p = plan_transition(CapsuleMode::Default, false, CapsuleMode::SelectTheme).unwrap();
    assert!(p.refresh_themes);
    let p = plan_transition(CapsuleMode::Default, false, CapsuleMode::Notification).unwrap();
    assert_eq!(p.size, SizeSource::Measured);
    assert!(!p.watch_inactivity);
    let p = plan_transition(CapsuleMode::Default, false, CapsuleMode::Record).unwrap();
    assert_eq!(p.size, SizeSource::RecordWidth);
    let p = plan_transition(CapsuleMode::Default, false, CapsuleMode::Dashboard).unwrap();
    assert_eq!(p.size, SizeSource::DashboardWidth);
}

#[test]
fn inactivity_watcher_decisions() {
    assert_eq!(
        inactivity_verdict(CapsuleMode::Emoji, true, INACTIVITY_TIMEOUT_MS),
        InactivityVerdict::ReturnToDefault
    );
    assert_eq!(
        inactivity_verdict(CapsuleMode::Emoji, true, INACTIVITY_TIMEOUT_MS - 1),
        InactivityVerdict::KeepWatching
    );
    assert_eq!(inactivity_verdict(CapsuleMode::Emoji, false, 99_999), InactivityVerdict::Stop);
    assert_eq!(inactivity_verdict(CapsuleMode::Launcher, true, 99_999), InactivityVerdict::Stop);
    assert_eq!(inactivity_verdict(CapsuleMode::Record, true, 99_999), InactivityVerdict::Stop);
}

#[test]
fn toggle_twice_returns_home() {
    let first = ipc_action(CapsuleMode::Default, IpcCommand::ToggleClipboard);
    assert_eq!(first, IpcAction::Transition(CapsuleMode::Clipboard));
    let second = ipc_action(CapsuleMode::Clipboard, IpcCommand::ToggleClipboard);
    assert_eq!(second, IpcAction::Transition(CapsuleMode::Default));
}

#[test]
fn pill_click_per_mode() {
    let c = ConcaveContainer::new();
    let n = NormalContainer::default();
    assert_eq!(c.click_action(CapsuleMode::Default), PillClick::OpenDashboard);
    assert_eq!(n.click_action(CapsuleMode::Settings), PillClick::Swallow);
    assert_eq!(n.click_action(CapsuleMode::Launcher), PillClick::PassThrough);
    let _ = ConcaveContainer::default();
}

#[test]
fn recorder_widths() {
    assert_eq!(record_width(true, RecordStatus::Stopped, 0), Some(220));
    assert_eq!(record_width(false, RecordStatus::Recording, 3600), Some(246));
    assert_eq!(record_width(false, RecordStatus::Paused, 10), Some(264));
    assert_eq!(record_width(false, RecordStatus::Paused, 7200), Some(290));
    assert_eq!(record_width(false, RecordStatus::Stopped, 0), None);
}

#[test]
fn recorder_status_and_timer() {
    assert_eq!(effective_status(true, RecordStatus::Stopped), RecordStatus::Recording);
    assert_eq!(effective_status(true, RecordStatus::Paused), RecordStatus::Paused);
    assert_eq!(effective_status(false, RecordStatus::Stopped), RecordStatus::Stopped);
    assert!(needs_timer(false, RecordStatus::Paused, false));
    assert!(!needs_timer(false, RecordStatus::Paused, true));
    assert!(!needs_timer(false, RecordStatus::Stopped, false));
    assert!(needs_timer(true, RecordStatus::Stopped, false));
}

#[test]
fn dashboard_width_grows_with_tray() {
    assert_eq!(dashboard_width(0, false), 490);
    assert_eq!(dashboard_width(7, true), 533);
    assert_eq!(dashboard_width(8, false), 508);
}

#[test]
fn idle_line_priority() {
    let t = String::from("12:30");
    assert_eq!(
        active_display_text(Some("Sistema".into()), Some("Toast".into()), None, t.clone()),
        "Sistema"
    );
    assert_eq!(active_display_text(None, Some("Toast".into()), None, t.clone()), "Toast");
    assert_eq!(active_display_text(None, None, Some("la la".into()), t.clone()), "la la");
    assert_eq!(active_display_text(None, None, Some(String::new()), t.clone()), "12:30");
    assert_eq!(active_display_text(None, None, None, t), "12:30");
}

#[test]
fn durations_and_clocks() {
    assert_eq!(format_duration(61), "01:01");
    assert_eq!(format_duration(0), "00:00");
    assert_eq!(format_duration(-5), "00:00");
    assert_eq!(format_duration(6000), "100:00");
    assert_eq!(record_clock(59), "00:59");
    assert_eq!(record_clock(3599), "59:59");
    assert_eq!(record_clock(3600), "01:00:00");
    assert_eq!(record_clock(3725), "01:02:05");
    assert_eq!(u64_to_decimal(0), "0");
    assert_eq!(u64_to_decimal(1234567890), "1234567890");
}

#[test]
fn names_of_days_and_months() {
    assert_eq!(weekday_es(0), "Lunes");
    assert_eq!(weekday_es(2), "Miércoles");
    assert_eq!(weekday_en(6), "Sunday");
    assert_eq!(month_es(1), "Enero");
    assert_eq!(month_es(12), "Diciembre");
}

#[test]
fn greetings_by_hour() {
    assert_eq!(get_greeting_info(3), ("¡Buenas noches, Moi!", "sparkles.svg"));
    assert_eq!(get_greeting_info(9), ("¡Buenos días, Moi!", "sun.svg"));
    assert_eq!(get_greeting_info(15), ("¡Buenas tardes, Moi!", "sun.svg"));
    assert_eq!(get_greeting_info(21), ("¡Buenas noches, Moi!", "moon.svg"));
    assert_eq!(format_greeting(5), ("sun.svg", "dashboard.greeting_morning", "Buenos días"));
    assert_eq!(format_greeting(18), ("sun.svg", "dashboard.greeting_afternoon", "Buenas tardes"));
    assert_eq!(format_greeting(19), ("moon.svg", "dashboard.greeting_evening", "Buenas noches"));
    assert_eq!(format_greeting(4), ("moon.svg", "dashboard.greeting_evening", "Buenas noches"));
}

fn names(list: &[&str]) -> Vec<String> {
    list.iter().map(|s| s.to_string()).collect()
}

#[test]
fn dashboard_date_line() {
    let days = names(&["Lunes", "Martes", "Miércoles", "Jueves", "Viernes", "Sábado", "Domingo"]);
    let months = names(&[
        "Enero", "Febrero", "Marzo", "Abril", "Mayo", "Junio", "Julio", "Agosto", "Septiembre",
        "Octubre", "Noviembre", "Diciembre",
    ]);
    assert_eq!(
        format_dashboard_date(0, 3, 4, &days, &months, "datetime.header_date_format", false),
        "Lunes, 4 de Marzo"
    );
    assert_eq!(
        format_dashboard_date(0, 3, 4, &Vec::new(), &names(&["January", "February", "March"]), "", true),
        "Monday, March 4"
    );
    assert_eq!(
        format_dashboard_date(4, 11, 21, &days, &months, "{weekday} {day}/{month}", false),
        "Viernes 21/Noviembre"
    );
    assert_eq!(format_dashboard_date(1, 13, 2, &days, &months, "", false), "Martes, 2 de ");
}

#[test]
fn leap_years_and_month_lengths() {
    assert!(is_leap_year(2024));
    assert!(!is_leap_year(1900));
    assert!(is_leap_year(2000));
    assert!(!is_leap_year(2023));
    assert!(is_leap_year(-4));
    assert_eq!(days_in_month(2024, 2), 29);
    assert_eq!(days_in_month(2023, 2), 28);
    assert_eq!(days_in_month(2023, 4), 30);
    assert_eq!(days_in_month(2023, 12), 31);
    assert_eq!(days_in_month(2023, 13), 30);
}

#[test]
fn month_grid_of_february_2024() {
    let v = month_view(2024, 2, 2024, 2, 15);
    assert_eq!(v, MonthView { start_weekday: 3, days: 29, today: Some(15) });
    assert_eq!(v.cell(0), CalendarCell::Lead);
    assert_eq!(v.cell(2), CalendarCell::Lead);
    assert_eq!(v.cell(3), CalendarCell::Day { day: 1, today: false });
    assert_eq!(v.cell(17), CalendarCell::Day { day: 15, today: true });
    assert_eq!(v.cell(31), CalendarCell::Day { day: 29, today: false });
    assert_eq!(v.cell(32), CalendarCell::Trail);
    assert_eq!(v.cell(41), CalendarCell::Trail);
}

#[test]
fn month_grid_weekdays_from_chrono() {
    // 1 January 2024 was a Monday, 1 September 2024 a Sunday.
    assert_eq!(month_view(2024, 1, 2000, 1, 1).start_weekday, 0);
    assert_eq!(month_view(2024, 9, 2000, 1, 1).start_weekday, 6);
    assert_eq!(month_view(1970, 1, 1970, 2, 1).start_weekday, 3);
    assert_eq!(month_view(1970, 1, 1970, 2, 1).today, None);
    // A month that does not exist starts on Monday.
    assert_eq!(month_view(2024, 13, 2024, 13, 1).start_weekday, 0);
}

#[test]
fn first_word_of_commands() {
    assert_eq!(first_word("  nvim --clean file"), "nvim");
    assert_eq!(first_word("code"), "code");
    assert_eq!(first_word("   "), "");
}

#[test]
fn launch_lines() {
    assert_eq!(
        launch_line(LaunchApp::Terminal, "kitty", "firefox", "nvim", "yazi"),
        "kitty >/dev/null 2>&1 &"
    );
    assert_eq!(
        launch_line(LaunchApp::Browser, "kitty", "firefox", "nvim", "yazi"),
        "firefox >/dev/null 2>&1 &"
    );
    assert_eq!(
        launch_line(LaunchApp::Editor, "kitty", "firefox", "nvim .", "yazi"),
        "kitty -e nvim . >/dev/null 2>&1 &"
    );
    assert_eq!(
        launch_line(LaunchApp::Editor, "kitty", "firefox", "code", "yazi"),
        "code >/dev/null 2>&1 &"
    );
    assert_eq!(
        launch_line(LaunchApp::FileManager, "alacritty", "firefox", "code", "ranger"),
        "alacritty -e ranger >/dev/null 2>&1 &"
    );
    assert_eq!(
        launch_line(LaunchApp::FileManager, "alacritty", "firefox", "code", "nautilus"),
        "nautilus >/dev/null 2>&1 &"
    );
}
