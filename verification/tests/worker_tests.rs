use std::io;

use stave::bindings::{BrewList, Formula, Info};
use stave::run::{CommandError, CommandOutput};
use stave::worker::{reply, Command, ListOption, Response, Worker};

fn ok_output(text: &str) -> CommandOutput {
    CommandOutput { stdout: text.as_bytes().to_vec(), stderr: vec![], success: true, status: String::new() }
}

fn strings(v: &[&str]) -> Vec<String> {
    v.iter().map(|s| String::from(*s)).collect()
}

fn parse_list(_bytes: Vec<u8>) -> Result<BrewList, serde_json::Error> {
    Ok(BrewList {
        formulas: vec![Formula {
            name: String::from("wget"),
            versions: vec![],
            linked_version: None,
            optlinked_version: None,
            pinned_version: None,
        }],
        casks: vec![],
    })
}

fn parse_info(_bytes: Vec<u8>) -> Result<Info, serde_json::Error> {
    Ok(vec![])
}

fn answer(command: Command, text: &str) -> Result<Response, CommandError> {
    reply(command, Ok(ok_output(text)), parse_list, parse_info)
}

#[test]
fn each_command_asks_for_its_job() {
    let mut w = Worker::new();
    assert_eq!(w.run(&Command::Update), Some(strings(&["update"])));
    assert_eq!(w.run(&Command::Upgrade), Some(strings(&["upgrade"])));
    assert_eq!(w.run(&Command::Outdated), Some(strings(&["outdated"])));
    assert_eq!(w.run(&Command::Info(String::from("wget"))), Some(strings(&["info", "--json", "wget"])));
    assert_eq!(w.run(&Command::List(ListOption::All)), Some(strings(&["list", "--versions", "--json"])));
    assert_eq!(
        w.run(&Command::List(ListOption::Formula)),
        Some(strings(&["list", "--versions", "--json", "--formula"]))
    );
    assert_eq!(
        w.run(&Command::UpgradePackage { name: String::from("firefox"), is_cask: true }),
        Some(strings(&["upgrade", "--cask", "firefox"]))
    );
    assert_eq!(
        w.run(&Command::UpgradePackage { name: String::from("wget"), is_cask: false }),
        Some(strings(&["upgrade", "wget"]))
    );
}

#[test]
fn nothing_runs_after_shutdown() {
    let mut w = Worker::new();
    assert_eq!(w.run(&Command::Shutdown), None);
    assert_eq!(w.run(&Command::Update), None);
    assert_eq!(w.run(&Command::List(ListOption::Cask)), None);
    assert_eq!(w.run(&Command::Shutdown), None);
}

#[test]
fn commands_get_their_replies() {
    match answer(Command::Update, "updated").unwrap() {
        Response::UpdateResult(t) => assert_eq!(t, "updated"),
        other => panic!("unexpected {:?}", other),
    }
    match answer(Command::Upgrade, "").unwrap() {
        Response::UpgradeResult(t) => assert_eq!(t, "Command produced no output"),
        other => panic!("unexpected {:?}", other),
    }
    match answer(Command::Outdated, "wget 1 < 2").unwrap() {
        Response::Outdated(t) => assert_eq!(t, "wget 1 < 2"),
        other => panic!("unexpected {:?}", other),
    }
    match answer(Command::UpgradePackage { name: String::from("wget"), is_cask: false }, "ok").unwrap() {
        Response::UpgradePackageResult { name, output } => {
            assert_eq!(name, "wget");
            assert_eq!(output, "ok");
        },
        other => panic!("unexpected {:?}", other),
    }
    match answer(Command::List(ListOption::All), "{}").unwrap() {
        Response::List(l) => assert_eq!(l.formulas[0].name, "wget"),
        other => panic!("unexpected {:?}", other),
    }
    match answer(Command::Info(String::from("wget")), "[]").unwrap() {
        Response::Info(i) => assert!(i.is_empty()),
        other => panic!("unexpected {:?}", other),
    }
}

#[test]
fn run_errors_are_passed_on() {
    let r = reply(
        Command::Update,
        Err(io::Error::new(io::ErrorKind::Other, "boom")),
        |_b: Vec<u8>| -> Result<BrewList, serde_json::Error> { unreachable!() },
        |_b: Vec<u8>| -> Result<Info, serde_json::Error> { unreachable!() },
    );
    assert!(matches!(r, Err(CommandError::Io(_))));
    let r = reply(
        Command::List(ListOption::All),
        Ok(ok_output("not json")),
        |b: Vec<u8>| serde_json::from_slice::<Vec<i32>>(&b).map(|_| BrewList { formulas: vec![], casks: vec![] }),
        |_b: Vec<u8>| -> Result<Info, serde_json::Error> { unreachable!() },
    );
    assert!(matches!(r, Err(CommandError::Serde(_))));
}

#[test]
fn commands_clone_field_for_field() {
    match (Command::UpgradePackage { name: String::from("wget"), is_cask: true }).clone() {
        Command::UpgradePackage { name, is_cask } => {
            assert_eq!(name, "wget");
            assert!(is_cask);
        },
        other => panic!("unexpected {:?}", other),
    }
    assert!(matches!(Command::List(ListOption::Cask).clone(), Command::List(ListOption::Cask)));
    assert!(matches!(Command::Info(String::from("x")).clone(), Command::Info(n) if n == "x"));
}
