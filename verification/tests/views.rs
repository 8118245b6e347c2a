use capsule::clipboard::{
    ClipboardItem, ClipboardModule, ClipboardOutcome, ClipboardPick, ClipboardTab, Snippet,
};
use capsule::create_theme::{default_fields, CreateThemeModule, CreateThemeOutcome, ThemeMode};
use capsule::emoji::{EmojiItem, EmojiModule, EmojiOutcome};
use capsule::keys::{all_indices, KeyName, KeyPress};
use capsule::launcher::{LaunchChoice, LauncherModule, LauncherOutcome};
use capsule::nav::{carousel_next, carousel_prev, clamp_to_last, select_next, select_prev, GridCursor};
use capsule::picker::{Picker, PickerOutcome, SelectThemeModule, Slide, WallpaperModule};
use capsule::polkit::{PolkitModule, PolkitOutcome};
use capsule::shelf::{ShelfModule, ShelfOutcome};

fn press(key: KeyName, text: &str) -> KeyPress {
    KeyPress {
        key,
        text: text.to_string(),
        key_char: if text.chars().count() == 1 { Some(text.to_string()) } else { None },
        control: false,
        platform: false,
        alt: false,
        shift: false,
    }
}

fn ctrl(c: char) -> KeyPress {
    KeyPress {
        key: KeyName::Letter(c),
        text: c.to_string(),
        key_char: None,
        control: true,
        platform: false,
        alt: false,
        shift: false,
    }
}

fn letter(c: char) -> KeyPress {
    press(KeyName::Letter(c), &c.to_string())
}

#[test]
fn list_wrapping() {
    assert_eq!(select_next(0, 3), 1);
    assert_eq!(select_next(2, 3), 0);
    assert_eq!(select_prev(0, 3), 2);
    assert_eq!(select_prev(2, 3), 1);
    assert_eq!(carousel_next(4, 5), Some(0));
    assert_eq!(carousel_prev(0, 5), Some(4));
    assert_eq!(carousel_next(0, 1), None);
    assert_eq!(clamp_to_last(9, 4), 3);
    assert_eq!(clamp_to_last(1, 4), 1);
    assert_eq!(all_indices(3), vec![0, 1, 2]);
}

#[test]
fn grid_cursor_moves() {
    let mut c = GridCursor::new();
    c.select_prev(40);
    assert_eq!((c.selected_index, c.page), (39, 1));
    c.select_next(40);
    assert_eq!((c.selected_index, c.page), (0, 0));
    c.select_row_down(40);
    assert_eq!((c.selected_index, c.page), (7, 0));
    c.select_row_up(40);
    assert_eq!((c.selected_index, c.page), (0, 0));
    // From the first row, up goes to the same column of the last row.
    c.select_row_up(40);
    assert_eq!((c.selected_index, c.page), (35, 1));
    c.next_page(40);
    assert_eq!((c.selected_index, c.page), (0, 0));
    c.prev_page(40);
    assert_eq!((c.selected_index, c.page), (35, 1));
    c.select_row_down(40);
    assert_eq!((c.selected_index, c.page), (2, 0));
}

fn clip_items() -> Vec<ClipboardItem> {
    vec![
        ClipboardItem { preview: "Hello World".into(), is_image: false },
        ClipboardItem { preview: "[image 640x480]".into(), is_image: true },
        ClipboardItem { preview: "rust code".into(), is_image: false },
    ]
}

fn clip_snippets() -> Vec<Snippet> {
    vec![
        Snippet { id: "a".into(), title: "Email".into(), content: "me@example.com".into() },
        Snippet { id: "b".into(), title: "Address".into(), content: "Calle Mayor 1".into() },
    ]
}

#[test]
fn clipboard_filters_history_and_snippets() {
    let mut m = ClipboardModule::new(clip_items(), clip_snippets());
    assert_eq!(m.filtered_items, vec![0, 1, 2]);
    m.update_search("WORLD".into());
    assert_eq!(m.filtered_items, vec![0]);
    m.update_search("imag".into());
    assert_eq!(m.filtered_items, vec![1]);
    m.update_search("   ".into());
    assert_eq!(m.filtered_items, vec![0, 1, 2]);
    m.update_search("mayor".into());
    assert_eq!(m.filtered_snippets, vec![1]);
    assert_eq!(m.filtered_items, Vec::<usize>::new());
}

#[test]
fn clipboard_keys() {
    let mut m = ClipboardModule::new(clip_items(), clip_snippets());
    assert_eq!(m.handle_key_down(&press(KeyName::Down, "down")), ClipboardOutcome::Redraw);
    assert_eq!(m.selected_index, 1);
    assert_eq!(m.handle_key_down(&press(KeyName::Up, "up")), ClipboardOutcome::Redraw);
    assert_eq!(m.handle_key_down(&press(KeyName::Up, "up")), ClipboardOutcome::Redraw);
    assert_eq!(m.selected_index, 2);
    assert_eq!(
        m.handle_key_down(&press(KeyName::Enter, "enter")),
        ClipboardOutcome::Copy(ClipboardPick::History(2))
    );
    assert_eq!(m.handle_key_down(&letter('c')), ClipboardOutcome::Redraw);
    assert_eq!(m.query, "c");
    assert_eq!(m.filtered_items, vec![2]);
    assert_eq!(m.handle_key_down(&press(KeyName::Backspace, "backspace")), ClipboardOutcome::Redraw);
    assert_eq!(m.query, "");
    assert_eq!(m.handle_key_down(&press(KeyName::Backspace, "backspace")), ClipboardOutcome::Nothing);
    assert_eq!(m.handle_key_down(&press(KeyName::Tab, "tab")), ClipboardOutcome::Redraw);
    assert_eq!(m.current_tab, ClipboardTab::Snippets);
    assert_eq!(m.current_count(), 2);
    assert_eq!(
        m.handle_key_down(&press(KeyName::Enter, "enter")),
        ClipboardOutcome::Copy(ClipboardPick::Snippet(0))
    );
    assert_eq!(m.handle_key_down(&press(KeyName::Escape, "escape")), ClipboardOutcome::Close);
}

#[test]
fn clipboard_word_and_line_deletion() {
    let mut m = ClipboardModule::new(clip_items(), clip_snippets());
    m.update_search("rust code  ".into());
    assert_eq!(m.handle_key_down(&ctrl('w')), ClipboardOutcome::Redraw);
    assert_eq!(m.query, "rust");
    assert_eq!(m.handle_key_down(&ctrl('u')), ClipboardOutcome::Redraw);
    assert_eq!(m.query, "");
}

#[test]
fn clipboard_snippet_of_a_pinned_preview() {
    let m = ClipboardModule::new(clip_items(), clip_snippets());
    assert_eq!(m.snippet_for_preview(&"Calle Mayor 1".to_string()), Some(1));
    assert_eq!(m.snippet_for_preview(&"nothing".to_string()), None);
}

fn emoji(e: &str, name: &str, cat: &str, kw: &[&str]) -> EmojiItem {
    EmojiItem {
        emoji: e.into(),
        name: name.into(),
        category: cat.into(),
        keywords: kw.iter().map(|s| s.to_string()).collect(),
    }
}

fn emojis() -> Vec<EmojiItem> {
    vec![
        emoji("😀", "grinning face", "Smileys", &["happy", "smile"]),
        emoji("🐶", "dog face", "Animals", &["pet", "puppy"]),
        emoji("🍕", "pizza", "Food", &["cheese"]),
        emoji("😺", "grinning cat", "Animals", &["happy"]),
    ]
}

#[test]
fn emoji_search_and_category() {
    let mut m = EmojiModule::new(emojis());
    assert_eq!(m.filtered_items, vec![0, 1, 2, 3]);
    m.update_search("  HAPPY ".into());
    assert_eq!(m.filtered_items, vec![0, 3]);
    m.set_category(Some("animals".into()));
    assert_eq!(m.filtered_items, vec![3]);
    m.update_search(String::new());
    assert_eq!(m.filtered_items, vec![1, 3]);
    m.set_category(None);
    m.update_search("food".into());
    assert_eq!(m.filtered_items, vec![2]);
}

#[test]
fn emoji_keys() {
    let mut m = EmojiModule::new(emojis());
    assert_eq!(m.handle_key_down(&press(KeyName::Right, "right")), EmojiOutcome::Redraw);
    assert_eq!(m.cursor.selected_index, 1);
    assert_eq!(m.handle_key_down(&press(KeyName::Left, "left")), EmojiOutcome::Redraw);
    assert_eq!(m.handle_key_down(&press(KeyName::Left, "left")), EmojiOutcome::Redraw);
    assert_eq!(m.cursor.selected_index, 3);
    assert_eq!(m.handle_key_down(&press(KeyName::Enter, "enter")), EmojiOutcome::Copy(3));
    assert_eq!(m.query, "");
    assert!(m.filtered_items.is_empty());
    assert_eq!(m.handle_key_down(&press(KeyName::Enter, "enter")), EmojiOutcome::Nothing);
    m.reload_items(emojis());
    assert_eq!(m.handle_key_down(&letter('p')), EmojiOutcome::Redraw);
    assert_eq!(m.filtered_items, vec![0, 1, 2, 3]);
    assert_eq!(m.handle_key_down(&letter('i')), EmojiOutcome::Redraw);
    assert_eq!(m.query, "pi");
    assert_eq!(m.filtered_items, vec![2]);
    assert_eq!(m.handle_key_down(&press(KeyName::Escape, "escape")), EmojiOutcome::Close);
}

#[test]
fn launcher_selection_and_enter() {
    let mut l = LauncherModule::new(3);
    assert_eq!(l.total_items(), 3);
    l.set_results("2+2".into(), 2, true);
    assert_eq!(l.total_items(), 3);
    assert_eq!(l.launch_selected(), Some(LaunchChoice::CopyResult));
    l.select_next();
    assert_eq!(l.launch_selected(), Some(LaunchChoice::App(0)));
    l.select_prev();
    l.select_prev();
    assert_eq!(l.selected_index, 2);
    assert_eq!(l.launch_selected(), Some(LaunchChoice::App(1)));
    assert!(matches!(
        l.handle_key_down(&press(KeyName::Enter, "enter")),
        LauncherOutcome::Launch(LaunchChoice::App(1))
    ));
    l.set_results("zzz".into(), 0, false);
    assert_eq!(l.launch_selected(), None);
    assert!(matches!(l.handle_key_down(&press(KeyName::Enter, "enter")), LauncherOutcome::Nothing));
}

#[test]
fn launcher_query_editing() {
    let mut l = LauncherModule::new(5);
    l.set_results("fire fox".into(), 1, false);
    match l.handle_key_down(&letter('x')) {
        LauncherOutcome::Search(q) => assert_eq!(q, "fire foxx"),
        _ => panic!("expected a search"),
    }
    match l.handle_key_down(&press(KeyName::Backspace, "backspace")) {
        LauncherOutcome::Search(q) => assert_eq!(q, "fire fo"),
        _ => panic!("expected a search"),
    }
    match l.handle_key_down(&ctrl('w')) {
        LauncherOutcome::Search(q) => assert_eq!(q, "fire"),
        _ => panic!("expected a search"),
    }
    match l.handle_key_down(&ctrl('c')) {
        LauncherOutcome::Copy(t) => assert_eq!(t, "fire fox"),
        _ => panic!("expected a copy"),
    }
    match l.handle_key_down(&ctrl('x')) {
        LauncherOutcome::Cut(t) => assert_eq!(t, "fire fox"),
        _ => panic!("expected a cut"),
    }
    assert!(matches!(l.handle_key_down(&ctrl('v')), LauncherOutcome::Paste));
    assert!(matches!(l.handle_key_down(&press(KeyName::Escape, "escape")), LauncherOutcome::Close));
    assert_eq!(l.paste("a\nb\t"), Some("fire foxab".to_string()));
    assert_eq!(l.paste("\n"), None);
    l.reset_search(7);
    assert_eq!(l.query, "");
    assert_eq!(l.app_count, 7);
    assert!(matches!(l.handle_key_down(&ctrl('c')), LauncherOutcome::Nothing));
}

#[test]
fn shelf_keys_and_removal() {
    let mut s = ShelfModule::new(3);
    assert_eq!(s.on_key_down(&press(KeyName::Left, "left")), ShelfOutcome::Redraw);
    assert_eq!(s.selected_index, 2);
    assert_eq!(s.on_key_down(&press(KeyName::Delete, "delete")), ShelfOutcome::Remove(2));
    assert!(!s.after_removal(2));
    assert_eq!(s.selected_index, 1);
    assert_eq!(s.on_key_down(&press(KeyName::Enter, "enter")), ShelfOutcome::Copy(1));
    assert_eq!(s.on_key_down(&ctrl('a')), ShelfOutcome::CopyAll);
    assert_eq!(s.on_key_down(&letter('d')), ShelfOutcome::Copy(1));
    assert_eq!(s.on_key_down(&press(KeyName::Escape, "escape")), ShelfOutcome::Close);
    assert!(s.after_removal(0));
    assert_eq!(s.selected_index, 0);
    assert_eq!(s.on_key_down(&press(KeyName::Enter, "enter")), ShelfOutcome::Nothing);
}

fn theme_names() -> Vec<String> {
    vec!["Nord".into(), "Dracula".into(), "Gruvbox Dark".into(), "Gruvbox Light".into()]
}

#[test]
fn picker_carousel() {
    let mut p = Picker::new(theme_names(), 0);
    assert_eq!(p.select_prev(), Some(Slide::Back));
    assert_eq!(p.selected_idx, 3);
    assert_eq!(p.select_next(), Some(Slide::Forward));
    assert_eq!(p.selected_idx, 0);
    assert_eq!(p.apply_selected(), Some(0));
    assert!(p.paste("gruv\n"));
    assert_eq!(p.query, "gruv");
    assert_eq!(p.filtered_items(), vec![2, 3]);
    assert_eq!(p.select_next(), Some(Slide::Forward));
    assert_eq!(p.apply_selected(), Some(3));
    assert_eq!(p.navigate(Slide::Forward, 5), Some(Slide::Forward));
    assert_eq!(p.selected_idx, 1);
    p.selected_idx = 9;
    assert_eq!(p.apply_selected(), Some(3));
    p.normalize_selection();
    assert_eq!(p.selected_idx, 0);
}

#[test]
fn theme_picker_keys() {
    let mut t = SelectThemeModule::new(theme_names(), Some(1));
    assert_eq!(t.picker.selected_idx, 1);
    assert_eq!(t.handle_key_down(&press(KeyName::Right, "right")), PickerOutcome::Slid(Slide::Forward));
    assert_eq!(t.picker.selected_idx, 2);
    assert_eq!(t.handle_key_down(&press(KeyName::Enter, "enter")), PickerOutcome::Apply(2));
    // "l" is no movement key in the theme picker: it types.
    assert_eq!(t.handle_key_down(&letter('l')), PickerOutcome::QueryChanged);
    assert_eq!(t.picker.query, "l");
    assert_eq!(t.handle_key_down(&ctrl('u')), PickerOutcome::QueryChanged);
    assert_eq!(t.picker.query, "");
    assert_eq!(t.handle_key_down(&press(KeyName::Escape, "escape")), PickerOutcome::Close);
    t.refresh_themes(theme_names(), None);
    assert_eq!(t.picker.selected_idx, 0);
}

#[test]
fn wallpaper_picker_keys() {
    let mut w = WallpaperModule::new();
    assert!(w.reload_items(vec!["a.png".into(), "b.jpg".into(), "c.png".into()], true, false, Some(1)));
    assert_eq!(w.picker.selected_idx, 1);
    assert_eq!(w.handle_key_down(&letter('l')), PickerOutcome::Slid(Slide::Forward));
    assert_eq!(w.picker.selected_idx, 2);
    assert_eq!(w.handle_key_down(&letter('h')), PickerOutcome::Slid(Slide::Back));
    assert_eq!(w.handle_key_down(&press(KeyName::Space, " ")), PickerOutcome::Apply(1));
    assert_eq!(w.handle_key_down(&ctrl('v')), PickerOutcome::Paste);
    assert!(w.reload_items(vec!["a.png".into()], true, true, None));
    assert_eq!(w.picker.selected_idx, 0);
    assert_eq!(w.handle_key_down(&press(KeyName::Left, "left")), PickerOutcome::Nothing);
    w.clear_cache();
    assert!(w.picker.names.is_empty());
}

#[test]
fn polkit_password_flow() {
    let mut p = PolkitModule::new();
    assert!(matches!(p.handle_key_down(&press(KeyName::Enter, "enter")), PolkitOutcome::Nothing));
    assert!(matches!(p.handle_key_down(&letter('a')), PolkitOutcome::Redraw));
    assert!(matches!(p.handle_key_down(&press(KeyName::Space, " ")), PolkitOutcome::Redraw));
    assert!(matches!(p.handle_key_down(&letter('b')), PolkitOutcome::Redraw));
    assert_eq!(p.password, "a b");
    match p.handle_key_down(&ctrl('c')) {
        PolkitOutcome::Copy(t) => assert_eq!(t, "a b"),
        _ => panic!("expected a copy"),
    }
    match p.handle_key_down(&press(KeyName::Enter, "enter")) {
        PolkitOutcome::Submit(pw) => assert_eq!(pw, "a b"),
        _ => panic!("expected a submit"),
    }
    assert!(p.is_authenticating);
    assert!(matches!(p.handle_key_down(&letter('z')), PolkitOutcome::Nothing));
    assert!(!p.poll_result(None));
    assert!(!p.poll_result(Some(Err("Contraseña incorrecta".into()))));
    assert!(p.is_error);
    assert_eq!(p.error_msg, Some("Contraseña incorrecta".to_string()));
    assert_eq!(p.password, "");
    assert!(p.paste("x\ny"));
    assert_eq!(p.password, "xy");
    assert!(!p.is_error);
    assert_eq!(p.submit_auth(), Some("xy".to_string()));
    assert_eq!(p.submit_auth(), None);
    assert!(p.poll_result(Some(Ok(()))));
    assert!(!p.is_authenticating);
    assert_eq!(p.password, "");
    assert!(matches!(p.handle_key_down(&press(KeyName::Escape, "escape")), PolkitOutcome::Cancel));
}

#[test]
fn polkit_cut_and_clear() {
    let mut p = PolkitModule::new();
    assert!(p.paste("secret"));
    match p.handle_key_down(&ctrl('x')) {
        PolkitOutcome::Copy(t) => assert_eq!(t, "secret"),
        _ => panic!("expected a copy"),
    }
    assert_eq!(p.password, "");
    p.paste("abc");
    assert!(matches!(p.handle_key_down(&press(KeyName::Backspace, "backspace")), PolkitOutcome::Redraw));
    assert_eq!(p.password, "ab");
    assert!(matches!(p.handle_key_down(&ctrl('u')), PolkitOutcome::Redraw));
    assert_eq!(p.password, "");
}

fn theme_fields() -> Vec<String> {
    default_fields("#1E1E1E".into(), "#2A2A2A".into(), "#333333".into(), "#FFFFFF".into(), "#AAAAAA".into())
}

#[test]
fn create_theme_form() {
    let f = theme_fields();
    assert_eq!(f[0], "Nuevo Tema");
    assert_eq!(f[1], "#1E1E1E");
    assert_eq!(f[6], "#007BFF");
    assert_eq!(f[8], "#34C759");
    let mut m = CreateThemeModule::new(f);
    assert_eq!(m.mode, ThemeMode::Dark);
    m.cycle_field(true);
    assert_eq!(m.active_field, 8);
    m.cycle_field(false);
    assert_eq!(m.active_field, 0);
    assert!(m.validate());
    assert_eq!(m.handle_key_down(&press(KeyName::Tab, "tab")), CreateThemeOutcome::Redraw);
    assert_eq!(m.active_field, 1);
    m.save_failed();
    assert!(m.is_error);
    assert_eq!(m.error_msg, "Error al guardar el tema");
    let mut blank = theme_fields();
    blank[0] = "   ".into();
    m.reset_form(blank);
    assert_eq!(m.active_field, 0);
    assert!(!m.is_error);
    assert!(!m.validate());
    assert_eq!(m.error_msg, "El nombre no puede estar vacío");
    assert_eq!(m.handle_key_down(&press(KeyName::Escape, "escape")), CreateThemeOutcome::Cancel);
}
