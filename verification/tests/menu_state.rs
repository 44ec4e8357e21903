use mdview::menu::{check_item, set_font_checked, CheckItem, MenuState};
use mdview::state::{initial_file_argument, AppState};

fn checked_ids(menu: &MenuState) -> Vec<String> {
    menu.fonts.iter().filter(|f| f.checked).map(|f| f.id.clone()).collect()
}

#[test]
fn standard_menu_has_the_items_of_the_menu_bar() {
    let menu = MenuState::new(true);
    let fonts: Vec<(&str, &str, bool)> =
        menu.fonts.iter().map(|f| (f.id.as_str(), f.label.as_str(), f.checked)).collect();
    assert_eq!(
        fonts,
        vec![
            ("font_system", "System Default", true),
            ("font_inter", "Inter", false),
            ("font_serif", "Serif", false),
            ("font_sans", "Sans-serif", false),
            ("font_mono", "Monospace", false),
            ("font_readable", "Readable", false),
        ]
    );
    let actions: Vec<(&str, &str, Option<&str>, bool)> = menu
        .file_actions
        .iter()
        .map(|a| (a.id.as_str(), a.label.as_str(), a.accelerator.as_deref(), a.enabled))
        .collect();
    assert_eq!(
        actions,
        vec![
            ("copy_file_path", "Copy File Path", Some("Cmd+Shift+C"), false),
            ("copy_dir_path", "Copy Containing Folder Path", None, false),
            ("copy_project_path", "Copy Project Path", None, false),
            ("reveal_finder", "Reveal in Finder", Some("Cmd+Shift+R"), false),
            ("export_pdf", "Export as PDF\u{2026}", Some("Cmd+P"), false),
        ]
    );
    assert!(menu.associate_checked);
    assert!(!MenuState::new(false).associate_checked);
}

#[test]
fn sync_font_menu_checks_exactly_the_given_font() {
    for id in ["font_system", "font_inter", "font_serif", "font_sans", "font_mono", "font_readable"] {
        let mut menu = MenuState::new(false);
        menu.sync_font_menu(id);
        assert_eq!(checked_ids(&menu), vec![id.to_string()]);
        assert_eq!(menu.active_font_id(), Some(id.to_string()));
        assert_eq!(menu.font_checked(id), Some(true));
    }
}

#[test]
fn sync_font_menu_is_idempotent() {
    let mut menu = MenuState::new(false);
    menu.sync_font_menu("font_serif");
    menu.sync_font_menu("font_serif");
    assert_eq!(checked_ids(&menu), vec!["font_serif".to_string()]);
    menu.sync_font_menu("font_mono");
    assert_eq!(checked_ids(&menu), vec!["font_mono".to_string()]);
    assert_eq!(menu.font_checked("font_serif"), Some(false));
}

#[test]
fn sync_font_menu_with_a_foreign_id_unchecks_all() {
    let mut menu = MenuState::new(false);
    menu.sync_font_menu("font_comic");
    assert!(checked_ids(&menu).is_empty());
    assert_eq!(menu.active_font_id(), None);
    assert_eq!(menu.font_checked("font_comic"), None);
}

#[test]
fn sync_font_menu_leaves_the_rest_alone() {
    let mut menu = MenuState::new(true);
    menu.set_file_menu_enabled(true);
    menu.sync_font_menu("font_inter");
    assert!(menu.associate_checked);
    assert!(menu.file_actions.iter().all(|a| a.enabled));
    assert_eq!(menu.fonts[1].label, "Inter");
}

#[test]
fn set_font_checked_marks_by_identifier() {
    let mut items: Vec<CheckItem> =
        vec![check_item("a", "A", true), check_item("b", "B", false), check_item("c", "C", true)];
    set_font_checked(&mut items, "b");
    let marks: Vec<bool> = items.iter().map(|i| i.checked).collect();
    assert_eq!(marks, vec![false, true, false]);
    assert_eq!(items[1].id, "b");
    assert_eq!(items[1].label, "B");
}

#[test]
fn file_menu_disabled_then_enabled_ends_enabled() {
    let mut menu = MenuState::new(false);
    menu.set_file_menu_enabled(false);
    menu.set_file_menu_enabled(true);
    for id in ["copy_file_path", "copy_dir_path", "copy_project_path", "reveal_finder"] {
        assert_eq!(menu.action_enabled(id), Some(true));
    }
    assert!(menu.file_actions.iter().all(|a| a.enabled));
}

#[test]
fn file_menu_follows_the_last_signal() {
    let mut menu = MenuState::new(false);
    assert_eq!(menu.action_enabled("reveal_finder"), Some(false));
    menu.set_file_menu_enabled(true);
    menu.set_file_menu_enabled(false);
    assert!(menu.file_actions.iter().all(|a| !a.enabled));
    assert_eq!(menu.action_enabled("export_pdf"), Some(false));
    assert_eq!(menu.action_enabled("install_cli"), None);
    assert_eq!(menu.file_actions[0].accelerator.as_deref(), Some("Cmd+Shift+C"));
    assert_eq!(checked_ids(&menu), vec!["font_system".to_string()]);
}

#[test]
fn association_mark_is_confirmed_or_rolled_back() {
    let mut menu = MenuState::new(false);
    menu.settle_association(true, true);
    assert!(menu.associate_checked);
    menu.settle_association(false, false);
    assert!(menu.associate_checked);
    menu.settle_association(false, true);
    assert!(!menu.associate_checked);
    menu.settle_association(true, false);
    assert!(!menu.associate_checked);
}

#[test]
fn initial_file_is_delivered_once() {
    let mut state = AppState::new(Some("notes.md".to_string()), false);
    assert_eq!(state.get_initial_file(), Some("notes.md".to_string()));
    assert_eq!(state.get_initial_file(), None);
    assert_eq!(state.get_initial_file(), None);
}

#[test]
fn initial_file_is_delivered_once_under_a_lock() {
    let shared = std::sync::Mutex::new(AppState::new(Some("notes.md".to_string()), false));
    let first = shared.lock().unwrap().get_initial_file();
    let second = shared.lock().unwrap().get_initial_file();
    assert_eq!(first, Some("notes.md".to_string()));
    assert_eq!(second, None);
}

#[test]
fn an_option_is_no_initial_file() {
    assert_eq!(initial_file_argument(Some("--help".to_string())), None);
    assert_eq!(initial_file_argument(Some("-".to_string())), None);
    assert_eq!(initial_file_argument(None), None);
    assert_eq!(initial_file_argument(Some(String::new())), Some(String::new()));
    assert_eq!(initial_file_argument(Some("a-b.md".to_string())), Some("a-b.md".to_string()));
    let mut state = AppState::new(Some("-v".to_string()), true);
    assert_eq!(state.get_initial_file(), None);
    assert!(state.menu.associate_checked);
}

#[test]
fn app_state_forwards_to_the_menu() {
    let mut state = AppState::new(Some("a.md".to_string()), false);
    state.sync_font_menu("font_sans");
    state.set_file_menu_enabled(true);
    assert_eq!(state.menu.active_font_id(), Some("font_sans".to_string()));
    assert_eq!(state.menu.action_enabled("copy_dir_path"), Some(true));
    assert_eq!(state.initial_file, Some("a.md".to_string()));
}
