use capsule::container::{ConcaveContainer, NormalContainer, PillClick};
use capsule::mode::{
    inactivity_verdict, ipc_action, plan_transition, CapsuleMode, InactivityVerdict, IpcAction,
    IpcCommand,
};
use capsule::nav::{carousel_counter, ring_index};
use capsule::notification::{NotificationItem, NotificationModule};
use capsule::orbit::{OrbKind, OrbLayout, Side};
use capsule::panels::{PanelKind, PanelManager};
use capsule::players::{shows_track, track_progress};
use capsule::shell::{on_mode_shown, orb_target, tracks_measured_size, ModeEntry};
use capsule::sizes::RecordStatus;

fn next(current: CapsuleMode, cmd: IpcCommand) -> CapsuleMode {
    match ipc_action(current, cmd) {
        IpcAction::Transition(m) => m,
        other => panic!("expected a transition, got {:?}", other),
    }
}

#[test]
fn shelf_commands_toggle_and_show() {
    let opened = next(CapsuleMode::Default, IpcCommand::ToggleShelf);
    assert_eq!(opened, CapsuleMode::Shelf);
    assert_eq!(next(opened, IpcCommand::ToggleShelf), CapsuleMode::Default);
    assert_eq!(next(CapsuleMode::Launcher, IpcCommand::ToggleShelf), CapsuleMode::Shelf);
    assert_eq!(next(CapsuleMode::Default, IpcCommand::ShowShelf), CapsuleMode::Shelf);
    assert_eq!(next(CapsuleMode::Shelf, IpcCommand::ShowShelf), CapsuleMode::Shelf);
    assert_eq!(next(CapsuleMode::Shelf, IpcCommand::Hide), CapsuleMode::Default);
}

#[test]
fn shelf_mode_size_plan_and_inactivity() {
    assert_eq!(CapsuleMode::Shelf.dimensions(), (560, 104));
    let p = plan_transition(CapsuleMode::Default, false, CapsuleMode::Shelf).unwrap();
    assert!(p.reload_shelf);
    assert!(!p.watch_inactivity);
    assert!(p.request_focus);
    let back = plan_transition(CapsuleMode::Shelf, false, CapsuleMode::Default).unwrap();
    assert!(!back.reload_shelf);
    assert!(plan_transition(CapsuleMode::Shelf, false, CapsuleMode::Shelf).is_none());
    assert_eq!(inactivity_verdict(CapsuleMode::Shelf, true, u64::MAX), InactivityVerdict::Stop);
}

#[test]
fn shelf_entry_and_measured_size() {
    assert_eq!(
        on_mode_shown(CapsuleMode::Shelf),
        ModeEntry { activate: true, reload: true, focus: true }
    );
    assert!(!tracks_measured_size(CapsuleMode::Shelf));
    assert!(!tracks_measured_size(CapsuleMode::Default));
    assert!(!tracks_measured_size(CapsuleMode::Volume));
    assert!(!tracks_measured_size(CapsuleMode::Record));
    assert!(!tracks_measured_size(CapsuleMode::Notification));
    assert!(tracks_measured_size(CapsuleMode::Launcher));
    assert!(tracks_measured_size(CapsuleMode::Dashboard));
}

#[test]
fn orb_clicks_open_their_views_from_the_idle_pill() {
    let rec = RecordStatus::Recording;
    let off = RecordStatus::Stopped;
    assert_eq!(orb_target(OrbKind::Shelf, CapsuleMode::Default, false, 2, off), Some(CapsuleMode::Shelf));
    assert_eq!(orb_target(OrbKind::Shelf, CapsuleMode::Default, false, 0, off), None);
    assert_eq!(orb_target(OrbKind::Shelf, CapsuleMode::Default, true, 2, off), None);
    assert_eq!(orb_target(OrbKind::Shelf, CapsuleMode::Launcher, false, 2, off), None);
    assert_eq!(orb_target(OrbKind::Recording, CapsuleMode::Default, false, 0, rec), Some(CapsuleMode::Record));
    assert_eq!(
        orb_target(OrbKind::Recording, CapsuleMode::Default, false, 0, RecordStatus::Paused),
        Some(CapsuleMode::Record)
    );
    assert_eq!(orb_target(OrbKind::Recording, CapsuleMode::Default, false, 3, off), None);
}

#[test]
fn floating_pill_keeps_shelf_clicks_concave_lets_them_through() {
    let normal = NormalContainer::new();
    let concave = ConcaveContainer::new();
    assert_eq!(normal.click_action(CapsuleMode::Shelf), PillClick::Swallow);
    assert_eq!(concave.click_action(CapsuleMode::Shelf), PillClick::PassThrough);
    assert_eq!(normal.click_action(CapsuleMode::Settings), PillClick::Swallow);
    assert_eq!(concave.click_action(CapsuleMode::Settings), PillClick::Swallow);
    assert_eq!(normal.click_action(CapsuleMode::Default), PillClick::OpenDashboard);
    assert_eq!(normal.click_action(CapsuleMode::Launcher), PillClick::PassThrough);
}

#[test]
fn ring_index_wraps_both_ways() {
    assert_eq!(ring_index(0, -1, 5), 4);
    assert_eq!(ring_index(1, -2, 5), 4);
    assert_eq!(ring_index(4, 2, 5), 1);
    assert_eq!(ring_index(2, 0, 5), 2);
    assert_eq!(ring_index(0, -2, 1), 0);
    assert_eq!(ring_index(0, -11, 5), 4);
    assert_eq!(ring_index(3, 12, 5), 0);
}

#[test]
fn carousel_counter_is_one_based() {
    assert_eq!(carousel_counter(0, 0), 0);
    assert_eq!(carousel_counter(0, 4), 1);
    assert_eq!(carousel_counter(3, 4), 4);
    assert_eq!(carousel_counter(5, 4), 2);
}

#[test]
fn media_panel_shows_a_track_only_with_a_title() {
    assert!(shows_track(true, false));
    assert!(!shows_track(true, true));
    assert!(!shows_track(false, false));
    assert!(!shows_track(false, true));
}

#[test]
fn track_progress_in_whole_seconds() {
    assert_eq!(track_progress(Some(90_000_000), Some(3_500_000)), Some((3, 90)));
    assert_eq!(track_progress(Some(90_000_000), None), Some((0, 90)));
    assert_eq!(track_progress(Some(90_000_000), Some(-5)), Some((0, 90)));
    assert_eq!(track_progress(Some(90_000_000), Some(200_000_000)), Some((90, 90)));
    assert_eq!(track_progress(Some(500_000), Some(400_000)), Some((0, 0)));
    assert_eq!(track_progress(Some(0), Some(3_000_000)), None);
    assert_eq!(track_progress(Some(-1), Some(3_000_000)), None);
    assert_eq!(track_progress(None, Some(3_000_000)), None);
}

#[test]
fn reply_keeps_the_pointer_state() {
    let mut n = NotificationModule::new();
    n.set_item(Some(NotificationItem { id: 1, actions: vec!["inline-reply".to_string()] }), false);
    n.hovered = true;
    n.activate_action(1, "inline-reply");
    assert!(n.hovered);
    n.paste_into_reply("ok");
    assert!(n.hovered);
    assert!(n.send_reply().is_some());
    assert!(n.hovered);
    n.finish_reply(false);
    assert!(n.hovered);
    assert!(n.cancel_reply());
    assert!(n.hovered);
    assert!(n.expanded);
}

#[test]
fn set_active_keeps_ranks_and_other_sides() {
    let mut layout = OrbLayout::new();
    for kind in 0..5u8 {
        layout.set_active(kind, true);
    }
    layout.set_active(2, false);
    layout.set_active(5, true);
    let p = layout.positions();
    assert_eq!(
        p,
        vec![
            (0, Side::Left, 0),
            (1, Side::Right, 0),
            (3, Side::Right, 1),
            (4, Side::Left, 1),
            (5, Side::Left, 2),
        ]
    );
}

#[test]
fn tick_drops_exactly_the_finished_closing_panels() {
    let mut manager = PanelManager::new();
    manager.toggle(PanelKind::Media, 100, 1000);
    manager.toggle(PanelKind::Calendar, 100, 1000);
    manager.toggle(PanelKind::Wifi, 100, 1000);
    manager.toggle(PanelKind::Bluetooth, 100, 1000);
    manager.close(PanelKind::Media);
    manager.close(PanelKind::Calendar);
    let left_before: Vec<PanelKind> = manager.left.iter().map(|p| p.kind).collect();
    let right_before: Vec<PanelKind> = manager.right.iter().map(|p| p.kind).collect();
    // every panel reports a finished animation; only closing ones may go
    let fl = vec![true; manager.left.len()];
    let fr = vec![true; manager.right.len()];
    manager.drop_finished(&fl, &fr);
    let left_after: Vec<PanelKind> = manager.left.iter().map(|p| p.kind).collect();
    let right_after: Vec<PanelKind> = manager.right.iter().map(|p| p.kind).collect();
    let expect = |before: &Vec<PanelKind>| -> Vec<PanelKind> {
        before
            .iter()
            .copied()
            .filter(|k| *k != PanelKind::Media && *k != PanelKind::Calendar)
            .collect()
    };
    assert_eq!(left_after, expect(&left_before));
    assert_eq!(right_after, expect(&right_before));
    assert!(manager.is_open(PanelKind::Wifi));
    assert!(manager.is_open(PanelKind::Bluetooth));
}
