use stave::app::{ActiveView, App, InstalledFilter, Key};
use stave::bindings::{BrewList, Cask, Formula, InfoEntry};
use stave::items::{InstalledItem, ItemKind};
use stave::theme::{Palette, Theme};
use stave::worker::{Command, ListOption, Response};

fn theme() -> Theme {
    Theme { palette: Palette::default(), colors_enabled: false }
}

fn item(name: &str, version: &str, kind: ItemKind) -> InstalledItem {
    InstalledItem { name: String::from(name), version: String::from(version), kind }
}

fn app_with(names: &[&str]) -> App {
    let mut app = App::new(theme());
    app.report_sent(true);
    app.items = names.iter().map(|n| item(n, "1.0", ItemKind::Formula)).collect();
    app.selected = Some(0);
    app
}

fn press(app: &mut App, keys: &str) {
    for c in keys.chars() {
        app.handle_key_event(Key::Char(c));
    }
}

fn list(formulas: &[&str], casks: &[&str]) -> BrewList {
    BrewList {
        formulas: formulas
            .iter()
            .map(|n| Formula {
                name: String::from(*n),
                versions: vec![String::from("1.0")],
                linked_version: None,
                optlinked_version: None,
                pinned_version: None,
            })
            .collect(),
        casks: casks
            .iter()
            .map(|n| Cask { token: String::from(*n), versions: vec![], pinned_version: None })
            .collect(),
    }
}

#[test]
fn start_up_asks_for_all_packages() {
    let app = App::new(theme());
    assert!(matches!(app.pending, Some(Command::List(ListOption::All))));
    assert_eq!(app.status_line, "Loading installed packages...");
    assert_eq!(app.selected, Some(0));
    assert!(app.items.is_empty());
    assert_eq!(app.active_view, ActiveView::Installed);
}

#[test]
fn send_outcome_sets_the_status() {
    let mut app = App::new(theme());
    app.report_sent(false);
    assert_eq!(app.status_line, "Failed to send list command to worker");
    assert!(app.pending.is_none());
    app.report_sent(true);
    assert_eq!(app.status_line, "Failed to send list command to worker");

    let mut app = app_with(&["wget"]);
    app.handle_key_event(Key::Char('i'));
    assert!(matches!(&app.pending, Some(Command::Info(n)) if n == "wget"));
    app.report_sent(true);
    assert_eq!(app.status_line, "Loading info for wget...");
    app.handle_key_event(Key::Char('G'));
    app.report_sent(true);
    assert_eq!(app.status_line, "Upgrading wget...");
    app.handle_key_event(Key::Char('u'));
    app.report_sent(false);
    assert_eq!(app.status_line, "Failed to send update command to worker");
    app.handle_key_event(Key::Char('g'));
    app.report_sent(true);
    assert_eq!(app.status_line, "Running brew upgrade...");
    app.handle_key_event(Key::Char('o'));
    app.report_sent(true);
    assert_eq!(app.status_line, "Loading outdated packages...");
    assert_eq!(app.active_view, ActiveView::Outdated);
}

#[test]
fn filters_ask_for_their_listing() {
    let mut app = app_with(&[]);
    app.handle_key_event(Key::Char('2'));
    assert!(matches!(app.pending, Some(Command::List(ListOption::Formula))));
    assert_eq!(app.filter, InstalledFilter::Formula);
    app.report_sent(true);
    app.handle_key_event(Key::Char('3'));
    assert!(matches!(app.pending, Some(Command::List(ListOption::Cask))));
    app.report_sent(true);
    app.handle_key_event(Key::Char('r'));
    assert!(matches!(app.pending, Some(Command::List(ListOption::Cask))));
    app.report_sent(true);
    app.handle_key_event(Key::Char('1'));
    assert!(matches!(app.pending, Some(Command::List(ListOption::All))));
}

#[test]
fn selection_wraps_around() {
    let mut app = app_with(&["a", "b", "c"]);
    app.handle_key_event(Key::Up);
    assert_eq!(app.selected, Some(2));
    app.handle_key_event(Key::Char('j'));
    assert_eq!(app.selected, Some(0));
    app.handle_key_event(Key::Down);
    app.handle_key_event(Key::Char('j'));
    assert_eq!(app.selected, Some(2));
    app.handle_key_event(Key::Char('k'));
    assert_eq!(app.selected, Some(1));
}

#[test]
fn down_then_up_comes_back() {
    for start in 0..3 {
        let mut app = app_with(&["a", "b", "c"]);
        app.selected = Some(start);
        app.handle_key_event(Key::Down);
        app.handle_key_event(Key::Up);
        assert_eq!(app.selected, Some(start));
        app.handle_key_event(Key::Up);
        app.handle_key_event(Key::Down);
        assert_eq!(app.selected, Some(start));
    }
}

#[test]
fn nothing_to_select_in_an_empty_list() {
    let mut app = app_with(&[]);
    app.handle_key_event(Key::Down);
    assert_eq!(app.selected, None);
    app.handle_key_event(Key::Char('G'));
    assert_eq!(app.status_line, "No package selected");
    assert!(app.pending.is_none());
    app.handle_key_event(Key::Char('i'));
    assert_eq!(app.status_line, "No package selected");
}

#[test]
fn search_filters_and_counts() {
    let mut app = app_with(&["bat", "wget", "batik"]);
    app.selected = Some(2);
    app.handle_key_event(Key::Char('/'));
    assert!(app.search_mode);
    assert_eq!(app.status_line, "Search mode: type to filter, Enter/Esc to finish");
    press(&mut app, "BA");
    assert_eq!(app.search_query, "BA");
    assert_eq!(app.status_line, "Search: 'BA' (2 results)");
    assert_eq!(app.selected, Some(1));
    press(&mut app, "ti");
    assert_eq!(app.status_line, "Search: 'BAti' (1 results)");
    assert_eq!(app.selected, Some(0));
    press(&mut app, "x");
    assert_eq!(app.status_line, "Search: 'BAtix' (0 results)");
    assert_eq!(app.selected, None);
    app.handle_key_event(Key::Backspace);
    assert_eq!(app.search_query, "BAti");
    assert_eq!(app.selected, Some(0));
    app.handle_key_event(Key::Enter);
    assert!(!app.search_mode);
    assert_eq!(app.search_query, "BAti");
}

#[test]
fn typing_then_backspace_restores_the_query() {
    let mut app = app_with(&["a"]);
    app.handle_key_event(Key::Char('/'));
    press(&mut app, "ab");
    app.handle_key_event(Key::Char('z'));
    app.handle_key_event(Key::Backspace);
    assert_eq!(app.search_query, "ab");
    app.handle_key_event(Key::Backspace);
    app.handle_key_event(Key::Backspace);
    app.handle_key_event(Key::Backspace);
    assert_eq!(app.search_query, "");
}

#[test]
fn j_and_k_move_while_searching() {
    let mut app = app_with(&["a", "b"]);
    app.handle_key_event(Key::Char('/'));
    app.handle_key_event(Key::Char('j'));
    assert_eq!(app.search_query, "");
    assert_eq!(app.selected, Some(1));
    assert_eq!(app.status_line, "Search: '' (2 results)");
    app.handle_key_event(Key::Char('k'));
    assert_eq!(app.selected, Some(0));
    app.handle_key_event(Key::Esc);
    assert!(!app.search_mode);
}

#[test]
fn popup_swallows_keys() {
    let mut app = app_with(&["a", "b"]);
    app.apply_response(Response::UpdateResult(String::from("done")));
    assert!(app.show_info_popup);
    assert_eq!(app.info_popup_text, "done");
    assert_eq!(app.status_line, "brew update finished");
    app.handle_key_event(Key::Down);
    app.handle_key_event(Key::Char('/'));
    assert_eq!(app.selected, Some(0));
    assert!(!app.search_mode);
    app.handle_key_event(Key::Esc);
    assert!(!app.show_info_popup);
    app.apply_response(Response::UpdateResult(String::from("done")));
    app.handle_key_event(Key::Char('q'));
    assert!(app.should_quit);
    assert!(app.show_info_popup);
}

#[test]
fn q_quits_and_stays_quit() {
    let mut app = app_with(&["a"]);
    app.handle_key_event(Key::Char('q'));
    assert!(app.should_quit);
    app.handle_key_event(Key::Down);
    app.apply_response(Response::Outdated(String::new()));
    assert!(app.should_quit);
}

#[test]
fn listing_replaces_the_rows() {
    let mut app = app_with(&["old"]);
    app.active_view = ActiveView::Outdated;
    app.selected = Some(5);
    app.apply_response(Response::List(list(&["wget", "Bat"], &["alacritty"])));
    assert_eq!(app.active_view, ActiveView::Installed);
    let names: Vec<&str> = app.items.iter().map(|i| i.name.as_str()).collect();
    assert_eq!(names, vec!["alacritty", "Bat", "wget"]);
    assert_eq!(app.items[0].kind, ItemKind::Cask);
    assert_eq!(app.items[0].version, "-");
    assert_eq!(app.selected, Some(2));
    assert_eq!(app.status_line, "3 installed packages (3 visible)");
}

#[test]
fn listing_counts_visible_rows() {
    let mut app = app_with(&[]);
    app.search_query = String::from("w");
    app.apply_list(list(&["wget", "bat"], &[]));
    assert_eq!(app.status_line, "2 installed packages (1 visible)");
    assert_eq!(app.selected, Some(0));
}

#[test]
fn empty_listing_says_so() {
    let mut app = app_with(&["x"]);
    app.apply_list(list(&[], &[]));
    assert_eq!(app.status_line, "No installed packages found");
    assert_eq!(app.selected, None);
}

#[test]
fn outdated_output_replaces_the_rows() {
    let mut app = app_with(&[]);
    app.apply_outdated_output(String::from("wget 1 < 2\ncurl 7 < 8\n"));
    assert_eq!(app.status_line, "2 outdated packages");
    assert_eq!(app.items[0].name, "curl");
    assert_eq!(app.items[0].kind, ItemKind::Outdated);
    app.apply_outdated_output(String::from("\n"));
    assert_eq!(app.status_line, "No outdated packages");
    assert_eq!(app.selected, None);
}

#[test]
fn upgrade_results_refresh_the_view() {
    let mut app = app_with(&["a"]);
    app.apply_response(Response::UpgradeResult(String::from("upgraded")));
    assert_eq!(app.status_line, "brew upgrade finished");
    assert!(matches!(app.pending, Some(Command::List(ListOption::All))));
    app.report_sent(true);
    assert_eq!(app.status_line, "Loading installed packages...");
    app.active_view = ActiveView::Outdated;
    app.apply_response(Response::UpgradePackageResult { name: String::from("wget"), output: String::from("ok") });
    assert_eq!(app.status_line, "brew upgrade finished for wget");
    assert_eq!(app.info_popup_text, "ok");
    assert!(matches!(app.pending, Some(Command::Outdated)));
}

#[test]
fn info_reply_opens_the_popup() {
    let mut app = app_with(&[]);
    app.apply_response(Response::Info(vec![InfoEntry {
        name: String::from("wget"),
        full_name: String::new(),
        token: String::new(),
        desc: Some(String::from("retriever")),
        homepage: None,
        caveats: None,
        installed: vec![],
    }]));
    assert!(app.show_info_popup);
    assert_eq!(app.info_popup_text, "Name: wget\nDescription: retriever");
}

#[test]
fn upgrade_selected_marks_casks() {
    let mut app = app_with(&[]);
    app.items = vec![item("firefox", "1", ItemKind::Cask)];
    app.selected = Some(0);
    app.handle_key_event(Key::Char('G'));
    assert!(matches!(&app.pending, Some(Command::UpgradePackage { name, is_cask: true }) if name == "firefox"));
}

#[test]
fn worker_disconnect_is_reported() {
    let mut app = app_with(&[]);
    app.worker_disconnected();
    assert_eq!(app.status_line, "Worker disconnected");
}

#[test]
fn other_keys_do_nothing() {
    let mut app = app_with(&["a"]);
    app.handle_key_event(Key::Other);
    app.handle_key_event(Key::Char('x'));
    assert_eq!(app.selected, Some(0));
    assert!(app.pending.is_none());
    assert!(!app.should_quit);
}

#[test]
fn moving_down_once_per_row_comes_back() {
    let mut app = app_with(&["a", "b", "c", "d"]);
    app.selected = Some(1);
    for _ in 0..4 {
        app.handle_key_event(Key::Down);
    }
    assert_eq!(app.selected, Some(1));
}
