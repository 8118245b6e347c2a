use capsule::keys::{KeyName, KeyPress};
use capsule::notification::{
    ActionOutcome, NotificationItem, NotificationModule, ReplyKeyOutcome,
};
use capsule::settings::{
    next_tab, CapsuleStyle, SettingsField, SettingsFlags, SettingsInputs, SettingsModule,
    SettingsOutcome, SettingsSubSection, SettingsTab,
};

fn press(key: KeyName, text: &str) -> KeyPress {
    KeyPress {
        key,
        text: text.to_string(),
        key_char: if text.chars().count() == 1 { Some(text.to_string()) } else { None },
        control: false,
        platform: false,
        alt: false,
        shift: false,
    }
}

fn ctrl_key(key: KeyName, text: &str) -> KeyPress {
    KeyPress {
        key,
        text: text.to_string(),
        key_char: None,
        control: true,
        platform: false,
        alt: false,
        shift: false,
    }
}

fn flags() -> SettingsFlags {
    SettingsFlags {
        capsule_style: CapsuleStyle::Normal,
        show_lyrics: true,
        show_clock: true,
        show_media_player: false,
        show_output_devices: false,
        show_input_devices: false,
    }
}

#[test]
fn settings_tabs_cycle() {
    assert_eq!(next_tab(SettingsTab::Capsule), SettingsTab::Apps);
    assert_eq!(next_tab(SettingsTab::System), SettingsTab::Capsule);
    let mut s = SettingsModule::new(flags());
    assert_eq!(s.handle_key_down(&press(KeyName::Tab, "tab")), SettingsOutcome::Transition);
    assert_eq!(s.nav.active_tab, SettingsTab::Apps);
    assert!(!s.set_tab(SettingsTab::Apps));
    assert!(s.set_tab(SettingsTab::Media));
}

#[test]
fn settings_escape_backs_out_one_level_at_a_time() {
    let mut s = SettingsModule::new(flags());
    s.open_subsection(SettingsSubSection::MusicPlayers);
    assert!(s.can_navigate_back());
    assert!(!s.can_navigate_forward());
    s.set_active_field(Some(SettingsField::Search));
    s.paste("spot");
    assert!(s.toggle_dropdown(SettingsField::Language));
    assert_eq!(s.handle_key_down(&press(KeyName::Escape, "escape")), SettingsOutcome::Redraw);
    assert_eq!(s.nav.open_dropdown, None);
    s.set_active_field(Some(SettingsField::Search));
    assert_eq!(s.handle_key_down(&press(KeyName::Escape, "escape")), SettingsOutcome::Transition);
    assert_eq!(s.inputs.get(SettingsField::Search), "");
    assert_eq!(s.handle_key_down(&press(KeyName::Escape, "escape")), SettingsOutcome::Transition);
    assert_eq!(s.nav.active_subsection, None);
    assert_eq!(s.handle_key_down(&press(KeyName::Escape, "escape")), SettingsOutcome::Close);
    assert_eq!(s.nav.active_tab, SettingsTab::Capsule);
}

#[test]
fn settings_text_fields() {
    let mut s = SettingsModule::new(flags());
    assert_eq!(s.handle_key_down(&press(KeyName::Letter('a'), "a")), SettingsOutcome::Nothing);
    s.set_active_field(Some(SettingsField::Terminal));
    assert_eq!(s.handle_key_down(&press(KeyName::Letter('f'), "f")), SettingsOutcome::Save);
    assert_eq!(s.handle_key_down(&press(KeyName::Letter('o'), "o")), SettingsOutcome::Save);
    assert_eq!(s.handle_key_down(&press(KeyName::Letter('o'), "o")), SettingsOutcome::Save);
    assert_eq!(s.inputs.get(SettingsField::Terminal), "foo");
    assert_eq!(s.handle_key_down(&press(KeyName::Backspace, "backspace")), SettingsOutcome::Save);
    assert_eq!(s.inputs.get(SettingsField::Terminal), "fo");
    assert_eq!(
        s.handle_key_down(&ctrl_key(KeyName::Letter('v'), "v")),
        SettingsOutcome::Paste
    );
    assert_eq!(s.paste("ot\n"), SettingsOutcome::Save);
    assert_eq!(s.inputs.get(SettingsField::Terminal), "foot");
    assert_eq!(s.handle_key_down(&press(KeyName::Enter, "enter")), SettingsOutcome::Save);
    assert_eq!(s.nav.active_field, None);
    s.set_active_field(Some(SettingsField::Search));
    assert_eq!(s.handle_key_down(&press(KeyName::Letter('x'), "x")), SettingsOutcome::Redraw);
    assert_eq!(s.inputs.get(SettingsField::Search), "x");
    s.select_app_command(SettingsField::Editor, "nvim".into());
    assert_eq!(s.inputs.get(SettingsField::Editor), "nvim");
    s.apply_preset(SettingsField::TimeFormat, "%H:%M".into());
    assert_eq!(s.inputs.get(SettingsField::TimeFormat), "%H:%M");
}

#[test]
fn settings_inputs_set_and_get() {
    let mut i = SettingsInputs::new();
    i.set(SettingsField::Gap, "8".into());
    assert_eq!(i.get(SettingsField::Gap), "8");
    i.set(SettingsField::Language, "es".into());
    assert_eq!(i.get(SettingsField::Language), "");
    assert_eq!(i.get(SettingsField::Browser), "");
}

#[test]
fn settings_music_players() {
    let mut s = SettingsModule::new(flags());
    assert!(s.add_music_player("  spotify "));
    assert!(!s.add_music_player("SPOTIFY"));
    assert!(!s.add_music_player("   "));
    assert!(s.add_music_player("mpv"));
    assert_eq!(s.music_players, vec!["spotify".to_string(), "mpv".to_string()]);
    s.set_active_field(Some(SettingsField::MusicPlayer));
    s.paste("vlc");
    assert_eq!(s.handle_key_down(&press(KeyName::Enter, "enter")), SettingsOutcome::Save);
    assert_eq!(s.music_players.len(), 3);
    assert_eq!(s.music_players[2], "vlc");
    assert_eq!(s.inputs.get(SettingsField::MusicPlayer), "");
    assert!(s.remove_music_player(0));
    assert!(!s.remove_music_player(5));
    assert_eq!(s.music_players, vec!["mpv".to_string(), "vlc".to_string()]);
}

#[test]
fn settings_switches() {
    let mut s = SettingsModule::new(flags());
    s.toggle_show_clock();
    assert!(!s.flags.show_clock);
    s.toggle_show_lyrics();
    assert!(!s.flags.show_lyrics);
    s.toggle_show_media_player();
    assert!(s.flags.show_media_player);
    s.toggle_output_devices();
    s.toggle_input_devices();
    assert!(s.flags.show_output_devices && s.flags.show_input_devices);
    s.set_capsule_style(CapsuleStyle::Concave);
    assert_eq!(s.flags.capsule_style, CapsuleStyle::Concave);
    assert_eq!(s.close(), SettingsOutcome::Close);
}

fn card(id: u32, actions: &[&str]) -> NotificationItem {
    NotificationItem { id, actions: actions.iter().map(|s| s.to_string()).collect() }
}

#[test]
fn notification_actions_and_reply() {
    let mut n = NotificationModule::new();
    assert!(n.set_item(Some(card(7, &["default", "inline-reply"])), false));
    assert!(matches!(n.activate_action(8, "default"), ActionOutcome::Nothing));
    assert!(matches!(n.activate_action(7, "missing"), ActionOutcome::Nothing));
    match n.activate_action(7, "default") {
        ActionOutcome::Invoke(k) => assert_eq!(k, "default"),
        _ => panic!("expected an invocation"),
    }
    assert!(matches!(n.activate_action(7, "inline-reply"), ActionOutcome::ReplyOpened));
    assert!(n.is_replying());
    assert!(n.expanded);
    // The card stays open while a reply is being written.
    assert!(!n.set_expanded(false));
    assert!(n.expanded);

    assert_eq!(n.handle_reply_key(&press(KeyName::Letter('h'), "h")), ReplyKeyOutcome::Redraw);
    assert_eq!(n.handle_reply_key(&press(KeyName::Letter('i'), "i")), ReplyKeyOutcome::Redraw);
    // A key that types no character adds nothing.
    assert_eq!(n.handle_reply_key(&press(KeyName::Left, "left")), ReplyKeyOutcome::Redraw);
    assert_eq!(n.reply.as_ref().unwrap().text, "hi");
    assert_eq!(n.handle_reply_key(&press(KeyName::Backspace, "backspace")), ReplyKeyOutcome::Redraw);
    assert_eq!(n.reply.as_ref().unwrap().text, "h");
    n.paste_into_reply("ey\n");
    assert_eq!(n.reply.as_ref().unwrap().text, "hey");
    assert_eq!(n.handle_reply_key(&press(KeyName::Enter, "enter")), ReplyKeyOutcome::Send);
    assert_eq!(n.send_reply(), Some((7, "hey".to_string())));
    assert!(n.reply.as_ref().unwrap().pending);
    assert_eq!(n.send_reply(), None);
    assert_eq!(n.handle_reply_key(&press(KeyName::Letter('x'), "x")), ReplyKeyOutcome::Nothing);
    assert_eq!(n.handle_reply_key(&press(KeyName::Escape, "escape")), ReplyKeyOutcome::Nothing);
    n.finish_reply(false);
    assert!(n.reply.as_ref().unwrap().failed);
    assert!(!n.reply.as_ref().unwrap().pending);
    assert_eq!(
        n.handle_reply_key(&ctrl_key(KeyName::Backspace, "backspace")),
        ReplyKeyOutcome::Redraw
    );
    assert_eq!(n.reply.as_ref().unwrap().text, "");
    assert!(!n.reply.as_ref().unwrap().failed);
    assert_eq!(n.handle_reply_key(&ctrl_key(KeyName::Letter('v'), "v")), ReplyKeyOutcome::Paste);
    assert_eq!(n.handle_reply_key(&press(KeyName::Escape, "escape")), ReplyKeyOutcome::Cancelled);
    assert!(!n.is_replying());
    assert!(!n.expanded);
    assert_eq!(n.handle_reply_key(&press(KeyName::Letter('x'), "x")), ReplyKeyOutcome::NotReplying);
}

#[test]
fn notification_blank_reply_is_not_sent() {
    let mut n = NotificationModule::new();
    n.set_item(Some(card(1, &["inline-reply"])), false);
    n.activate_action(1, "inline-reply");
    n.paste_into_reply("   ");
    assert_eq!(n.send_reply(), None);
    assert!(n.cancel_reply());
    n.activate_action(1, "inline-reply");
    n.paste_into_reply("ok");
    assert_eq!(n.send_reply(), Some((1, "ok".to_string())));
    assert!(!n.cancel_reply());
    n.finish_reply(true);
    assert!(!n.is_replying());
}

#[test]
fn notification_card_changes() {
    let mut n = NotificationModule::new();
    n.set_item(Some(card(1, &["inline-reply"])), false);
    n.activate_action(1, "inline-reply");
    assert!(!n.set_item(Some(card(1, &["inline-reply"])), true));
    assert!(n.is_replying());
    assert!(n.set_item(Some(card(1, &["inline-reply", "open"])), false));
    assert!(n.is_replying());
    assert!(n.set_item(Some(card(2, &[])), false));
    assert!(!n.is_replying());
    assert!(n.expanded);
    assert!(!n.set_expanded(true));
    assert!(n.deactivate());
    assert!(n.set_expanded(true));
    assert!(n.expanded);
    assert!(n.set_item(None, false));
    assert!(!n.expanded);
}

#[test]
fn inline_reply_keeps_focus_and_draft_until_cancelled() {
    let mut module = NotificationModule::new();
    let id = 42;
    module.set_item(Some(card(id, &["reply", "inline-reply"])), false);
    match module.activate_action(id, "reply") {
        ActionOutcome::Invoke(k) => assert_eq!(k, "reply"),
        _ => panic!("expected an invocation"),
    }
    assert!(!module.is_replying());
    assert!(matches!(module.activate_action(id, "inline-reply"), ActionOutcome::ReplyOpened));
    assert!(module.is_replying());
    module.set_expanded(false);
    assert!(module.expanded);
    assert_eq!(module.send_reply(), None);
    assert!(!module.reply.as_ref().unwrap().pending);
    module.paste_into_reply("Hello 🌍");
    assert_eq!(module.send_reply(), Some((id, "Hello 🌍".to_string())));
    assert!(!module.cancel_reply());
    assert!(module.is_replying());
    module.finish_reply(false);
    let reply = module.reply.as_ref().unwrap();
    assert!(reply.failed);
    assert_eq!(reply.text, "Hello 🌍");
    assert!(module.cancel_reply());
    assert!(!module.is_replying());
    assert!(!module.expanded);
}
