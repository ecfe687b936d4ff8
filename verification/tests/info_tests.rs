use stave::bindings::{InfoEntry, InstalledInfo};
use stave::info::{format_info, format_info_entry};

fn entry() -> InfoEntry {
    InfoEntry {
        name: String::from("wget"),
        full_name: String::new(),
        token: String::new(),
        desc: None,
        homepage: None,
        caveats: None,
        installed: vec![],
    }
}

#[test]
fn entry_with_every_field() {
    let e = InfoEntry {
        name: String::from("wget"),
        full_name: String::from("homebrew/core/wget"),
        token: String::new(),
        desc: Some(String::from("Internet file retriever")),
        homepage: Some(String::from("https://www.gnu.org/software/wget/")),
        caveats: Some(String::from("Read the manual.")),
        installed: vec![
            InstalledInfo { version: Some(String::from("1.24.5")) },
            InstalledInfo { version: None },
            InstalledInfo { version: Some(String::new()) },
            InstalledInfo { version: Some(String::from("1.25.0")) },
        ],
    };
    assert_eq!(
        format_info_entry(&e),
        "Name: homebrew/core/wget\nDescription: Internet file retriever\nHomepage: https://www.gnu.org/software/wget/\nInstalled: 1.24.5, 1.25.0\n\nCaveats:\nRead the manual."
    );
}

#[test]
fn entry_falls_back_to_name_then_token() {
    assert_eq!(format_info_entry(&entry()), "Name: wget");
    let e = InfoEntry { name: String::new(), token: String::from("firefox"), ..entry() };
    assert_eq!(format_info_entry(&e), "Name: firefox");
    let e = InfoEntry { name: String::new(), ..entry() };
    assert_eq!(format_info_entry(&e), "Name: (unknown)");
}

#[test]
fn empty_fields_are_left_out() {
    let e = InfoEntry {
        desc: Some(String::new()),
        homepage: Some(String::new()),
        caveats: Some(String::new()),
        installed: vec![InstalledInfo { version: None }],
        ..entry()
    };
    assert_eq!(format_info_entry(&e), "Name: wget");
}

#[test]
fn entries_are_separated_by_a_blank_line() {
    let b = InfoEntry { name: String::from("curl"), ..entry() };
    assert_eq!(format_info(vec![entry(), b]), "Name: wget\n\nName: curl");
}

#[test]
fn no_entries_gives_a_note() {
    assert_eq!(format_info(vec![]), "No details returned from brew info");
}

#[test]
fn default_entry_is_empty() {
    let e = InfoEntry { token: String::from("firefox"), ..InfoEntry::default() };
    assert_eq!(format_info_entry(&e), "Name: firefox");
    assert!(InstalledInfo::default().version.is_none());
}
