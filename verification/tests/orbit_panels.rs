use capsule::orbit::{OrbChange, OrbKind, OrbLayout, Side};
use capsule::panels::{
    compute_bluetooth_panel_height, compute_calendar_panel_height, compute_media_panel_height,
    compute_volume_panel_height, compute_wifi_panel_height, Lane, PanelKind, PanelManager,
    PanelToggle,
};

fn settle(layout: &mut OrbLayout) {
    let still = vec![false; layout.len()];
    layout.retain_live(&still);
}

#[test]
fn alternates_and_closes_gaps_without_switching_sides() {
    let mut layout = OrbLayout::new();
    for kind in 0..4u8 {
        layout.set_active(kind, true);
    }
    assert_eq!(
        layout.positions(),
        vec![
            (0, Side::Left, 0),
            (1, Side::Right, 0),
            (2, Side::Left, 1),
            (3, Side::Right, 1),
        ]
    );
    layout.set_active(0, false);
    assert_eq!(
        layout.positions(),
        vec![(1, Side::Right, 0), (2, Side::Left, 0), (3, Side::Right, 1)]
    );
    settle(&mut layout);
    assert_eq!(layout.len(), 3);
    layout.set_active(4, true);
    assert_eq!(layout.positions().last(), Some(&(4, Side::Left, 1)));
}

#[test]
fn hiding_preserves_assignments_and_tracks_changes() {
    let mut layout = OrbLayout::new();
    layout.set_active(0, true);
    layout.set_active(1, true);
    layout.set_visible(false);
    settle(&mut layout);
    assert_eq!(
        layout.positions(),
        vec![(0, Side::Left, 0), (1, Side::Right, 0)]
    );
    layout.set_active(0, false);
    layout.set_active(2, true);
    layout.set_visible(true);
    assert_eq!(
        layout.positions(),
        vec![(1, Side::Right, 0), (2, Side::Left, 0)]
    );
}

#[test]
fn reactivation_uses_the_least_populated_side() {
    let mut layout = OrbLayout::new();
    layout.set_active(0, true);
    layout.set_active(1, true);
    layout.set_active(0, false);
    // the tick a second later finds the fade of slot 0 over and drops it
    settle(&mut layout);
    assert_eq!(layout.positions(), vec![(1, Side::Right, 0)]);
    layout.set_active(2, true);
    layout.set_active(3, true);
    layout.set_active(0, true);
    assert_eq!(layout.positions().last(), Some(&(0, Side::Right, 1)));
}

#[test]
fn recording_pause_does_not_reassign_and_stop_releases_slot() {
    let recording = OrbKind::Recording.id();
    let shelf = OrbKind::Shelf.id();
    let mut layout = OrbLayout::new();
    layout.set_active(recording, true);
    layout.set_active(shelf, true);
    for still_running in [true, true] {
        assert_eq!(layout.set_active(recording, still_running), OrbChange::Unchanged);
        assert_eq!(layout.len(), 2);
        assert_eq!(layout.slot(0).side, Side::Left);
        assert_eq!(layout.slot(0).kind, recording);
    }
    assert_eq!(layout.set_active(recording, false), OrbChange::Retired);
    settle(&mut layout);
    assert_eq!(layout.len(), 1);
    assert_eq!(layout.slot(0).kind, shelf);
    assert_eq!(layout.slot(0).side, Side::Right);
}

#[test]
fn reactivated_button_reports_how_it_came_back() {
    let mut layout = OrbLayout::new();
    assert_eq!(layout.set_active(0, true), OrbChange::Placed);
    assert_eq!(layout.set_active(1, true), OrbChange::Placed);
    assert_eq!(layout.set_active(0, false), OrbChange::Retired);
    // left is now empty, so 0 returns to the left, where it was
    assert_eq!(layout.set_active(0, true), OrbChange::Returned);
    assert_eq!(layout.set_active(1, false), OrbChange::Retired);
    assert_eq!(layout.set_active(2, true), OrbChange::Placed);
    // 2 went right (left has 0); now left 1, right 1: 1 comes back left
    assert_eq!(layout.set_active(1, true), OrbChange::Moved);
    assert_eq!(layout.positions().last(), Some(&(1, Side::Left, 1)));
}

#[test]
fn setting_the_same_state_twice_is_a_no_op() {
    let mut layout = OrbLayout::new();
    layout.set_active(7, true);
    let before = layout.positions();
    assert_eq!(layout.set_active(7, true), OrbChange::Unchanged);
    assert_eq!(layout.positions(), before);
    assert_eq!(layout.set_active(9, false), OrbChange::Unchanged);
    assert_eq!(layout.positions(), before);
}

#[test]
fn tick_keeps_wanted_buttons() {
    let mut layout = OrbLayout::new();
    for kind in 0..3u8 {
        layout.set_active(kind, true);
    }
    layout.set_active(1, false);
    let before = layout.positions();
    let animating = vec![true; layout.len()];
    layout.retain_live(&animating);
    assert_eq!(layout.len(), 3);
    settle(&mut layout);
    assert_eq!(layout.len(), 2);
    assert_eq!(layout.positions(), before);
}

#[test]
fn media_panel_toggle_and_height() {
    let mut manager = PanelManager::new();
    let height = compute_media_panel_height();
    assert_eq!(height, 195);
    manager.toggle(PanelKind::Media, height, 300);
    assert_eq!(manager.left.len(), 1);
    assert_eq!(manager.left[0].kind, PanelKind::Media);
    assert_eq!(manager.left[0].height, 195);
    manager.toggle(PanelKind::Media, height, 300);
    assert!(manager.left[0].is_closing());
}

#[test]
fn clear_removes_all_panels_immediately() {
    let mut manager = PanelManager::new();
    manager.toggle(PanelKind::Wifi, 120, 200);
    assert_eq!(manager.left.len(), 1);
    manager.clear();
    assert!(manager.left.is_empty() && manager.right.is_empty());
    assert!(!manager.has_open());
}

#[test]
fn zero_duration_is_instant_for_every_close_path() {
    let mut manager = PanelManager::new();
    assert_eq!(manager.toggle(PanelKind::Wifi, 120, 200), PanelToggle::Opened(Lane::Left));
    assert!(!manager.left[0].is_closing());
    assert_eq!(manager.toggle(PanelKind::Wifi, 120, 200), PanelToggle::Closing);
    assert!(manager.left[0].is_closing());
    assert_eq!(manager.toggle(PanelKind::Wifi, 120, 200), PanelToggle::Reopened);
    assert!(!manager.left[0].is_closing());
    manager.close(PanelKind::Wifi);
    manager.drop_finished(&vec![true], &vec![]);
    assert!(manager.left.is_empty());
    manager.toggle(PanelKind::Tray(0), 120, 200);
    manager.prune_invalid(0);
    manager.drop_finished(&vec![true], &vec![]);
    assert!(manager.left.is_empty());
    manager.toggle(PanelKind::Wifi, 120, 200);
    manager.toggle(PanelKind::Bluetooth, 120, 200);
    assert_eq!(manager.right.len(), 1);
    manager.toggle(PanelKind::Calendar, 120, 200);
    assert!(manager.left[0].is_closing());
    assert_eq!(manager.left[1].kind, PanelKind::Calendar);
    let finished_left: Vec<bool> = manager.left.iter().map(|p| p.is_closing()).collect();
    manager.drop_finished(&finished_left, &vec![false]);
    manager.close_all();
    let l = vec![true; manager.left.len()];
    let r = vec![true; manager.right.len()];
    manager.drop_finished(&l, &r);
    assert!(manager.left.is_empty() && manager.right.is_empty());
    assert!(!manager.has_open());
}

#[test]
fn lane_space_counts_open_panels_and_gaps() {
    let mut manager = PanelManager::new();
    manager.toggle_in_lane(PanelKind::Wifi, 100, 400, Some(Lane::Right));
    manager.toggle_in_lane(PanelKind::Volume, 50, 400, Some(Lane::Right));
    assert_eq!(PanelManager::lane_used(&manager.right), 158);
    assert_eq!(PanelManager::lane_free(&manager.right, 400), 234);
    assert_eq!(PanelManager::lane_free(&manager.left, 400), 400);
    assert_eq!(PanelManager::lane_free(&manager.right, 100), 0);
    manager.close(PanelKind::Wifi);
    assert_eq!(PanelManager::lane_used(&manager.right), 50);
    assert!(manager.is_open(PanelKind::Volume));
    assert!(!manager.is_open(PanelKind::Wifi));
}

#[test]
fn tray_indices_and_media_flag() {
    let mut manager = PanelManager::new();
    manager.toggle_in_lane(PanelKind::Tray(3), 100, 800, Some(Lane::Left));
    manager.toggle_in_lane(PanelKind::Media, 100, 800, Some(Lane::Right));
    manager.toggle_in_lane(PanelKind::Tray(1), 100, 800, Some(Lane::Right));
    assert_eq!(manager.open_tray_indices(), vec![3, 1]);
    assert!(manager.has_media_panel());
    manager.prune_invalid(2);
    assert!(manager.left[0].is_closing());
    assert!(!manager.right[1].is_closing());
}

#[test]
fn panel_heights() {
    assert_eq!(compute_wifi_panel_height(0, false), 167);
    assert_eq!(compute_wifi_panel_height(0, true), 192);
    assert_eq!(compute_wifi_panel_height(3, false), 243);
    assert_eq!(compute_wifi_panel_height(20, true), 420);
    assert_eq!(compute_bluetooth_panel_height(0), 150);
    assert_eq!(compute_bluetooth_panel_height(4), 224);
    assert_eq!(compute_bluetooth_panel_height(100), 420);
    assert_eq!(compute_volume_panel_height(0), 100);
    assert_eq!(compute_volume_panel_height(2), 129);
    assert_eq!(compute_volume_panel_height(9), 320);
    assert_eq!(compute_calendar_panel_height(), 274);
}
