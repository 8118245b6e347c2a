use capsule::drag::{DragAction, DragWatch, DRAG_GONE_MS, DROP_TARGET_H, DROP_TARGET_W};
use capsule::calendar::day_headers;
use capsule::dates::{clock_text, hover_date};
use capsule::emoji::{category_is_active, page_bounds, visible_page};
use capsule::idle::{
    disc_on_track_change, special_transition, sys_message, track_key, track_toast, DiscAction,
    IdleText, TOAST_MS,
};
use capsule::mode::CapsuleMode;
use capsule::orbit::{OrbChange, OrbKind, OrbLayout, Side};
use capsule::panels::PanelKind;
use capsule::players::{
    hover_selection, keep_selection, player_counter, shown_artist, shown_title, sync_players,
    user_interacting, PlayerSource,
};
use capsule::radios::{device_label, is_target, link_state, wifi_click, wifi_icon, LinkState, WifiClick};
use capsule::settings::{parse_u64, CapsuleStyle, SettingsField, SettingsFlags, SettingsModule};
use capsule::shell::{
    draws_concave, is_modal, needs_exclusive_focus, on_mode_shown, ModeEntry, cancels_request, follows_view_size, orbit_visible, view_event_action, NotificationStep,
    NotificationWatch, Scan, ShellAction, SizedView, ViewEvent, VolumeOsd, VolumeStep,
};
use capsule::sizes::RecordStatus;
use capsule::wallpapers::{
    is_wallpaper_extension, placeholder_file_name, sort_by_name, text_le_exec, thumb_file_name,
};

#[test]
fn view_events_map_to_actions() {
    assert_eq!(
        view_event_action(CapsuleMode::Default, ViewEvent::StatusDockClicked),
        ShellAction::Transition(CapsuleMode::Dashboard)
    );
    assert_eq!(
        view_event_action(CapsuleMode::Dashboard, ViewEvent::DashboardClose),
        ShellAction::Transition(CapsuleMode::Default)
    );
    assert_eq!(view_event_action(CapsuleMode::Launcher, ViewEvent::DashboardClose), ShellAction::Nothing);
    assert_eq!(
        view_event_action(CapsuleMode::Dashboard, ViewEvent::TrayIconClicked(3)),
        ShellAction::TogglePanel(PanelKind::Tray(3), Scan::NoScan)
    );
    assert_eq!(
        view_event_action(CapsuleMode::Dashboard, ViewEvent::WifiChevronClicked),
        ShellAction::TogglePanel(PanelKind::Wifi, Scan::Wifi)
    );
    assert_eq!(
        view_event_action(CapsuleMode::Dashboard, ViewEvent::BluetoothChevronClicked),
        ShellAction::TogglePanel(PanelKind::Bluetooth, Scan::Bluetooth)
    );
    assert_eq!(
        view_event_action(CapsuleMode::Dashboard, ViewEvent::WallpaperRequested),
        ShellAction::OpenWallpapers
    );
    assert_eq!(
        view_event_action(CapsuleMode::Wallpaper, ViewEvent::WallpaperSelected),
        ShellAction::ApplyWallpaper
    );
    assert_eq!(
        view_event_action(CapsuleMode::Emoji, ViewEvent::EmojiClose),
        ShellAction::Transition(CapsuleMode::Default)
    );
    assert_eq!(
        view_event_action(CapsuleMode::Dashboard, ViewEvent::SettingsRequested),
        ShellAction::OpenSettings
    );
}

#[test]
fn orbit_and_size_following() {
    assert!(orbit_visible(CapsuleMode::Default, false));
    assert!(!orbit_visible(CapsuleMode::Default, true));
    assert!(!orbit_visible(CapsuleMode::Launcher, false));
    assert!(follows_view_size(CapsuleMode::Default, SizedView::Idle, false));
    assert!(!follows_view_size(CapsuleMode::Default, SizedView::Idle, true));
    assert!(follows_view_size(CapsuleMode::Record, SizedView::Record, true));
    assert!(!follows_view_size(CapsuleMode::Default, SizedView::Notification, false));
}

#[test]
fn polkit_cancellation_matches_cookie() {
    assert!(cancels_request(&Some("abc".to_string()), &"abc".to_string()));
    assert!(!cancels_request(&Some("abc".to_string()), &"abd".to_string()));
    assert!(!cancels_request(&None, &"abc".to_string()));
}

#[test]
fn volume_popup_timers() {
    let mut osd = VolumeOsd::new();
    let quiet = VolumeStep { update_view: false, show: false, arm_timer: None };
    assert_eq!(osd.observe(40, false, CapsuleMode::Default), quiet);
    assert_eq!(osd.observe(40, false, CapsuleMode::Default), quiet);
    let s1 = osd.observe(45, false, CapsuleMode::Default);
    assert_eq!(s1, VolumeStep { update_view: true, show: true, arm_timer: Some(1) });
    assert!(osd.expired(1, CapsuleMode::Volume));
    let s2 = osd.observe(45, true, CapsuleMode::Volume);
    assert_eq!(s2, VolumeStep { update_view: true, show: false, arm_timer: Some(2) });
    assert!(!osd.expired(1, CapsuleMode::Volume));
    assert!(osd.expired(2, CapsuleMode::Volume));
    assert!(!osd.expired(2, CapsuleMode::Launcher));
    let s3 = osd.observe(50, true, CapsuleMode::Launcher);
    assert_eq!(s3, VolumeStep { update_view: true, show: false, arm_timer: None });
}

#[test]
fn notification_watch_steps() {
    let mut w = NotificationWatch::new();
    assert_eq!(
        w.observe(Some(4), CapsuleMode::Default, false),
        NotificationStep { show_item: true, transition: Some(CapsuleMode::Notification) }
    );
    assert_eq!(
        w.observe(Some(4), CapsuleMode::Notification, false),
        NotificationStep { show_item: false, transition: None }
    );
    assert_eq!(
        w.observe(Some(5), CapsuleMode::Launcher, false),
        NotificationStep { show_item: true, transition: None }
    );
    assert_eq!(
        w.observe(None, CapsuleMode::Notification, true),
        NotificationStep { show_item: false, transition: None }
    );
    assert_eq!(w.last_seen, Some(5));
    assert_eq!(
        w.observe(None, CapsuleMode::Notification, false),
        NotificationStep { show_item: false, transition: Some(CapsuleMode::Default) }
    );
    assert_eq!(
        w.observe(None, CapsuleMode::Notification, false),
        NotificationStep { show_item: false, transition: Some(CapsuleMode::Default) }
    );
}

#[test]
fn idle_line_follows_messages_tracks_and_lyrics() {
    let mut t = IdleText::new("12:00".to_string());
    assert_eq!(t.display_text(), "12:00");
    let tick = t.poll(None, None, None, false, 0);
    assert!(!tick.redraw && !tick.restart_fade);

    let song = Some((track_key("Song", "Band"), track_toast("Song", "Band")));
    let tick = t.poll(None, song.clone(), None, true, 1000);
    assert_eq!(tick.visualizer, Some(true));
    assert!(tick.restart_fade && tick.redraw);
    assert_eq!(t.display_text(), "🎵 Song • Band");
    assert_eq!(t.prev_line, Some("🎵 Song • Band".to_string()));

    let tick = t.poll(None, song.clone(), Some("la la".to_string()), true, 2000);
    assert!(tick.redraw && !tick.restart_fade);
    assert_eq!(t.display_text(), "🎵 Song • Band");

    let tick = t.poll(None, song.clone(), Some("la la".to_string()), true, 1000 + TOAST_MS);
    assert!(tick.restart_fade);
    assert_eq!(t.prev_line, Some("🎵 Song • Band".to_string()));
    assert_eq!(t.display_text(), "la la");

    let msg = sys_message("Mail", "New mail", "");
    let tick = t.poll(Some((9, msg)), song.clone(), Some("la la".to_string()), true, 6000);
    assert!(tick.restart_fade);
    assert_eq!(t.prev_line, Some("la la".to_string()));
    assert_eq!(t.display_text(), "🔔 Mail: New mail");

    let tick = t.poll(None, None, None, false, 7000);
    assert_eq!(tick.visualizer, Some(false));
    assert_eq!(t.display_text(), "12:00");
    t.fade_done();
    assert_eq!(t.prev_line, None);
    assert!(t.set_time("12:01".to_string()));
    assert!(!t.set_time("12:01".to_string()));
}

#[test]
fn idle_texts() {
    assert_eq!(sys_message("App", "Sum", "Body"), "🔔 App: Sum - Body");
    assert_eq!(sys_message("App", "Sum", ""), "🔔 App: Sum");
    assert_eq!(track_key("T", "A"), "T - A");
    assert_eq!(track_toast("T", ""), "🎵 T");
    assert_eq!(track_toast("T", "No media playing"), "🎵 T");
    assert_eq!(track_toast("T", "A"), "🎵 T • A");
    assert_eq!(clock_text(9, 5), "09:05");
    assert_eq!(clock_text(23, 59), "23:59");
    assert_eq!(hover_date(0, 4, 3), "Lunes, 4 de Marzo");
    assert_eq!(hover_date(6, 31, 12), "Domingo, 31 de Diciembre");
}

#[test]
fn disc_and_special_workspace() {
    assert_eq!(disc_on_track_change(false, true, true, false), DiscAction::Start);
    assert_eq!(disc_on_track_change(true, false, true, false), DiscAction::Stop);
    assert_eq!(disc_on_track_change(true, true, false, false), DiscAction::Stop);
    assert_eq!(disc_on_track_change(false, false, true, true), DiscAction::Stop);
    assert_eq!(disc_on_track_change(true, true, true, true), DiscAction::Keep);
    assert_eq!(special_transition(false, true), Some(true));
    assert_eq!(special_transition(true, false), Some(false));
    assert_eq!(special_transition(true, true), None);
}

#[test]
fn media_players() {
    assert!(user_interacting(Some(1000), 2499));
    assert!(!user_interacting(Some(1000), 2500));
    assert!(!user_interacting(None, 0));
    assert_eq!(hover_selection(&vec![false, true, true]), 1);
    assert_eq!(hover_selection(&vec![false, false]), 0);
    assert_eq!(hover_selection(&vec![]), 0);
    let old = vec!["a".to_string(), "b".to_string(), "c".to_string()];
    let live = vec!["a".to_string(), "x".to_string()];
    assert_eq!(
        sync_players(&old, &live, true),
        vec![PlayerSource::LiveKeepPlaying(0), PlayerSource::Kept(1), PlayerSource::Kept(2)]
    );
    assert_eq!(sync_players(&old, &live, false), vec![PlayerSource::Live(0), PlayerSource::Live(1)]);
    assert_eq!(sync_players(&vec![], &live, true), vec![PlayerSource::Live(0), PlayerSource::Live(1)]);
    assert_eq!(keep_selection(3, 3), 0);
    assert_eq!(keep_selection(3, 0), 3);
    assert_eq!(keep_selection(1, 3), 1);
    assert_eq!(shown_title(&String::new()), "Desconocido");
    assert_eq!(shown_artist(&String::new()), "Artista desconocido");
    assert_eq!(shown_title(&"X".to_string()), "X");
    assert_eq!(player_counter(1, 3), "2/3");
}

#[test]
fn radios() {
    assert_eq!(wifi_icon(61), "wifi-high.svg");
    assert_eq!(wifi_icon(60), "wifi-low.svg");
    assert_eq!(wifi_icon(20), "wifi-zero.svg");
    assert_eq!(wifi_click(true, false, true), WifiClick::Disconnect);
    assert_eq!(wifi_click(false, true, true), WifiClick::Connect);
    assert_eq!(wifi_click(false, false, false), WifiClick::Connect);
    assert_eq!(wifi_click(false, false, true), WifiClick::AskPassword);
    assert_eq!(link_state(true, true, true), LinkState::Connecting);
    assert_eq!(link_state(false, true, true), LinkState::Connected);
    assert_eq!(link_state(false, false, true), LinkState::Paired);
    assert_eq!(link_state(false, false, false), LinkState::Unpaired);
    assert!(is_target(&Some("home".to_string()), &"home".to_string()));
    assert!(!is_target(&None, &"home".to_string()));
    assert_eq!(device_label(&String::new(), &"AA:BB".to_string()), "AA:BB");
    assert_eq!(device_label(&"Buds".to_string(), &"AA:BB".to_string()), "Buds");
}

#[test]
fn wallpaper_files_and_order() {
    assert!(is_wallpaper_extension("JPG"));
    assert!(is_wallpaper_extension("webp"));
    assert!(!is_wallpaper_extension("gif"));
    assert!(text_le_exec("abc", "abd"));
    assert!(text_le_exec("ab", "abc"));
    assert!(!text_le_exec("b", "abc"));
    let names = vec![
        "beach.png".to_string(),
        "Alps.jpg".to_string(),
        "city.webp".to_string(),
        "ALPS.jpg".to_string(),
        "aurora.png".to_string(),
    ];
    assert_eq!(sort_by_name(&names), vec![1, 3, 4, 0, 2]);
    assert_eq!(sort_by_name(&vec![]), Vec::<usize>::new());
}

#[test]
fn emoji_pages_and_categories() {
    assert_eq!(page_bounds(0, 40), (0, 35));
    assert_eq!(page_bounds(1, 40), (35, 40));
    assert_eq!(page_bounds(2, 40).0, page_bounds(2, 40).1);
    assert_eq!(page_bounds(usize::MAX, 40).0, page_bounds(usize::MAX, 40).1);
    assert_eq!(visible_page(1, 40), 1);
    assert_eq!(visible_page(2, 40), 0);
    assert_eq!(visible_page(0, 0), 0);
    assert_eq!(visible_page(1, 35), 0);
    assert!(category_is_active("all", &None));
    assert!(!category_is_active("smileys", &None));
    assert!(category_is_active("Smileys", &Some("smileys".to_string())));
    assert!(!category_is_active("all", &Some("smileys".to_string())));
}

#[test]
fn whole_numbers_in_settings() {
    assert_eq!(parse_u64("900"), Some(900));
    assert_eq!(parse_u64("+15"), Some(15));
    assert_eq!(parse_u64(""), None);
    assert_eq!(parse_u64("+"), None);
    assert_eq!(parse_u64("-1"), None);
    assert_eq!(parse_u64("12a"), None);
    assert_eq!(parse_u64("18446744073709551615"), Some(u64::MAX));
    assert_eq!(parse_u64("18446744073709551616"), None);
    assert_eq!(parse_u64("99999999999999999999999"), None);
    let mut s = SettingsModule::new(SettingsFlags {
        capsule_style: CapsuleStyle::Normal,
        show_lyrics: false,
        show_clock: false,
        show_media_player: false,
        show_output_devices: false,
        show_input_devices: false,
    });
    assert_eq!(s.idle_timeout(), 900);
    s.set_field_int(SettingsField::IdleTimeout, 300);
    assert_eq!(s.inputs.get(SettingsField::IdleTimeout), "300");
    assert_eq!(s.idle_timeout(), 300);
    s.set_field_int(SettingsField::Gap, 5);
    assert_eq!(s.inputs.get(SettingsField::Gap), "");
}

#[test]
fn calendar_headers() {
    assert_eq!(day_headers(vec![]), vec!["L", "M", "M", "J", "V", "S", "D"]);
    let en: Vec<String> = ["Mo", "Tu", "We", "Th", "Fr", "Sa", "Su"].iter().map(|s| s.to_string()).collect();
    assert_eq!(day_headers(en.clone()), en);
}

#[test]
fn orbit_follows_services() {
    let mut layout = OrbLayout::new();
    let shelf = OrbKind::Shelf.id();
    let rec = OrbKind::Recording.id();
    assert_eq!(layout.sync_services(2, RecordStatus::Stopped), (OrbChange::Placed, OrbChange::Unchanged));
    assert_eq!(layout.sync_services(2, RecordStatus::Recording), (OrbChange::Unchanged, OrbChange::Placed));
    let pos = layout.positions();
    assert!(pos.contains(&(shelf, Side::Left, 0)));
    assert!(pos.contains(&(rec, Side::Right, 0)));
    assert_eq!(layout.sync_services(0, RecordStatus::Paused), (OrbChange::Retired, OrbChange::Unchanged));
    assert_eq!(layout.sync_services(0, RecordStatus::Stopped), (OrbChange::Unchanged, OrbChange::Retired));
}

#[test]
fn input_and_focus_rules() {
    assert!(is_modal(CapsuleMode::Launcher, false, false));
    assert!(!is_modal(CapsuleMode::Default, false, false));
    assert!(is_modal(CapsuleMode::Default, true, false));
    assert!(!is_modal(CapsuleMode::Notification, true, false));
    assert!(is_modal(CapsuleMode::Volume, false, true));
    assert!(needs_exclusive_focus(CapsuleMode::Emoji, false));
    assert!(needs_exclusive_focus(CapsuleMode::Notification, true));
    assert!(!needs_exclusive_focus(CapsuleMode::Notification, false));
    assert!(!needs_exclusive_focus(CapsuleMode::Record, true));
    assert_eq!(
        on_mode_shown(CapsuleMode::Launcher),
        ModeEntry { activate: true, reload: false, focus: true }
    );
    assert_eq!(
        on_mode_shown(CapsuleMode::Emoji),
        ModeEntry { activate: true, reload: true, focus: true }
    );
    assert_eq!(
        on_mode_shown(CapsuleMode::Dashboard),
        ModeEntry { activate: true, reload: false, focus: false }
    );
    assert_eq!(
        on_mode_shown(CapsuleMode::Volume),
        ModeEntry { activate: false, reload: false, focus: false }
    );
    assert!(draws_concave(CapsuleStyle::Concave, false));
    assert!(!draws_concave(CapsuleStyle::Concave, true));
    assert!(!draws_concave(CapsuleStyle::Normal, false));
}

#[test]
fn drag_over_the_pill() {
    assert_eq!((DROP_TARGET_W, DROP_TARGET_H), (560, 104));
    let mut d = DragWatch::new();
    assert_eq!(d.monitor_tick(0, CapsuleMode::Default), DragAction::StopMonitor);
    assert_eq!(d.drag_over(1000, CapsuleMode::Default), DragAction::Enter { grow: true });
    assert_eq!(d.drag_over(1040, CapsuleMode::Default), DragAction::Nothing);
    assert_eq!(d.monitor_tick(1040 + DRAG_GONE_MS, CapsuleMode::Default), DragAction::Nothing);
    assert_eq!(
        d.monitor_tick(1041 + DRAG_GONE_MS, CapsuleMode::Default),
        DragAction::Leave { shrink: true }
    );
    assert!(!d.active);
    assert_eq!(d.drag_over(5000, CapsuleMode::Launcher), DragAction::Enter { grow: false });
    assert!(!d.dropped(CapsuleMode::Launcher));
    assert!(!d.active && d.last_over.is_none());
    assert_eq!(d.drag_over(6000, CapsuleMode::Default), DragAction::Enter { grow: true });
    assert!(d.dropped(CapsuleMode::Default));
}

#[test]
fn thumbnail_names() {
    assert_eq!(thumb_file_name("beach.png"), "thumb_beach.png");
    assert_eq!(placeholder_file_name("beach.png"), "placeholder_beach.png");
}
