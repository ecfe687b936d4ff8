use stave::bindings::{BrewList, Cask, Formula};
use stave::items::{list_items, outdated_items, visible_item_indices, InstalledItem, ItemKind};

fn s(x: &str) -> String {
    String::from(x)
}

fn formula(name: &str, versions: &[&str], linked: Option<&str>) -> Formula {
    Formula {
        name: s(name),
        versions: versions.iter().map(|v| s(v)).collect(),
        linked_version: linked.map(s),
        optlinked_version: None,
        pinned_version: None,
    }
}

fn cask(token: &str, versions: &[&str]) -> Cask {
    Cask { token: s(token), versions: versions.iter().map(|v| s(v)).collect(), pinned_version: None }
}

fn rows(items: &[InstalledItem]) -> Vec<(String, String, ItemKind)> {
    items.iter().map(|i| (i.name.clone(), i.version.clone(), i.kind)).collect()
}

#[test]
fn listing_rows_are_sorted_case_insensitively() {
    let list = BrewList {
        formulas: vec![
            formula("wget", &["1.24.5"], None),
            formula("Python", &["3.12.1", "3.11.0"], Some("3.12.1")),
            formula("bat", &[], None),
        ],
        casks: vec![cask("firefox", &["128.0"]), cask("alacritty", &[])],
    };
    let items = list_items(&list);
    assert_eq!(
        rows(&items),
        vec![
            (s("alacritty"), s("-"), ItemKind::Cask),
            (s("bat"), s("-"), ItemKind::Formula),
            (s("firefox"), s("128.0"), ItemKind::Cask),
            (s("Python"), s("3.12.1"), ItemKind::Formula),
            (s("wget"), s("1.24.5"), ItemKind::Formula),
        ]
    );
}

#[test]
fn linked_version_wins_over_first_listed() {
    let list = BrewList { formulas: vec![formula("node", &["20.1", "22.0"], Some("22.0"))], casks: vec![] };
    assert_eq!(rows(&list_items(&list)), vec![(s("node"), s("22.0"), ItemKind::Formula)]);
    let list = BrewList { formulas: vec![formula("node", &["20.1", "22.0"], None)], casks: vec![] };
    assert_eq!(rows(&list_items(&list)), vec![(s("node"), s("20.1"), ItemKind::Formula)]);
}

#[test]
fn equal_names_keep_their_order() {
    let list = BrewList {
        formulas: vec![formula("Git", &["2"], None), formula("git", &["1"], None)],
        casks: vec![cask("GIT", &["3"])],
    };
    assert_eq!(
        rows(&list_items(&list)),
        vec![
            (s("Git"), s("2"), ItemKind::Formula),
            (s("git"), s("1"), ItemKind::Formula),
            (s("GIT"), s("3"), ItemKind::Cask),
        ]
    );
}

#[test]
fn empty_listing_gives_no_rows() {
    let list = BrewList { formulas: vec![], casks: vec![] };
    assert!(list_items(&list).is_empty());
}

#[test]
fn outdated_output_is_parsed_line_by_line() {
    let out = "wget 1.21 < 1.24\n\n  curl   8.0 < 8.5  \r\nzlib\n";
    let items = outdated_items(out);
    assert_eq!(
        rows(&items),
        vec![
            (s("curl"), s("8.0 < 8.5"), ItemKind::Outdated),
            (s("wget"), s("1.21 < 1.24"), ItemKind::Outdated),
            (s("zlib"), s("outdated"), ItemKind::Outdated),
        ]
    );
    assert!(outdated_items("").is_empty());
    assert!(outdated_items(" \n\t\n").is_empty());
}

#[test]
fn outdated_names_hold_no_spaces() {
    for it in outdated_items("a b c\n  d\te f\nx\n") {
        assert!(!it.name.is_empty());
        assert!(!it.name.contains(' '));
    }
}

#[test]
fn search_is_trimmed_and_case_insensitive() {
    let items = vec![
        InstalledItem { name: s("Firefox"), version: s("128.0"), kind: ItemKind::Cask },
        InstalledItem { name: s("wget"), version: s("1.24"), kind: ItemKind::Formula },
        InstalledItem { name: s("FFmpeg"), version: s("7.0"), kind: ItemKind::Formula },
    ];
    assert_eq!(visible_item_indices(&items, "  fI "), vec![0]);
    assert_eq!(visible_item_indices(&items, "ff"), vec![2]);
    assert_eq!(visible_item_indices(&items, "f"), vec![0, 2]);
    assert_eq!(visible_item_indices(&items, "1.2"), vec![1]);
    assert_eq!(visible_item_indices(&items, ".0"), vec![0, 2]);
    assert_eq!(visible_item_indices(&items, "zzz"), Vec::<usize>::new());
}

#[test]
fn blank_search_shows_every_row() {
    let items = vec![
        InstalledItem { name: s("a"), version: s("1"), kind: ItemKind::Formula },
        InstalledItem { name: s("b"), version: s("2"), kind: ItemKind::Cask },
    ];
    assert_eq!(visible_item_indices(&items, ""), vec![0, 1]);
    assert_eq!(visible_item_indices(&items, "   "), vec![0, 1]);
}

#[test]
fn kind_labels() {
    assert_eq!(ItemKind::Formula.label(), "F");
    assert_eq!(ItemKind::Cask.label(), "C");
    assert_eq!(ItemKind::Outdated.label(), "O");
}
