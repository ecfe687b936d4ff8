use std::cell::RefCell;
use std::io;

use stave::bindings::{BrewList, Info, InfoEntry};
use stave::run::{
    format_command_output, run_info, run_install, run_list, run_outdated, run_search,
    run_uninstall, run_update, run_upgrade, run_upgrade_package, CommandError, CommandOutput,
};
use stave::worker::{ListOption, PackageKind};

fn output(stdout: &[u8], stderr: &[u8], success: bool) -> CommandOutput {
    CommandOutput {
        stdout: stdout.to_vec(),
        stderr: stderr.to_vec(),
        success,
        status: String::from("exit status: 1"),
    }
}

#[test]
fn output_text_joins_streams() {
    assert_eq!(format_command_output(&output(b"out", b"err", true)), "out\nerr");
    assert_eq!(format_command_output(&output(b"out", b"", true)), "out");
    assert_eq!(format_command_output(&output(b"", b"err", true)), "err");
}

#[test]
fn blank_output_gets_a_note() {
    assert_eq!(format_command_output(&output(b"", b"", true)), "Command produced no output");
    assert_eq!(format_command_output(&output(b"  \n", b"\t", true)), "Command produced no output");
}

#[test]
fn failure_adds_the_exit_status() {
    assert_eq!(
        format_command_output(&output(b"", b"Error: no such formula", false)),
        "Error: no such formula\n\nExit status: exit status: 1"
    );
    assert_eq!(
        format_command_output(&output(b"", b"", false)),
        "Command produced no output\n\nExit status: exit status: 1"
    );
}

#[test]
fn invalid_utf8_is_replaced() {
    assert_eq!(format_command_output(&output(&[b'a', 0xff, b'b'], b"", true)), "a\u{fffd}b");
}

#[test]
fn output_text_is_never_empty() {
    for (o, e, ok) in [(&b""[..], &b""[..], true), (b" ", b"", false), (b"x", b"y", true)] {
        assert!(!format_command_output(&output(o, e, ok)).is_empty());
    }
}

fn recording(
    seen: &RefCell<Vec<Vec<String>>>,
    reply: CommandOutput,
) -> impl FnOnce(Vec<String>) -> Result<CommandOutput, io::Error> + '_ {
    move |args| {
        seen.borrow_mut().push(args);
        Ok(reply)
    }
}

fn strings(v: &[&str]) -> Vec<String> {
    v.iter().map(|s| String::from(*s)).collect()
}

#[test]
fn text_commands_pass_their_arguments() {
    let seen = RefCell::new(Vec::new());
    assert_eq!(run_update(recording(&seen, output(b"Already up-to-date.", b"", true))).unwrap(), "Already up-to-date.");
    assert_eq!(run_upgrade(recording(&seen, output(b"done", b"", true))).unwrap(), "done");
    assert_eq!(run_install("wget", recording(&seen, output(b"ok", b"", true))).unwrap(), "ok");
    assert_eq!(run_uninstall("wget", recording(&seen, output(b"", b"", true))).unwrap(), "Command produced no output");
    assert_eq!(
        run_upgrade_package("firefox", PackageKind::Cask, recording(&seen, output(b"x", b"", true))).unwrap(),
        "x"
    );
    assert_eq!(
        run_upgrade_package("wget", PackageKind::Formula, recording(&seen, output(b"y", b"", true))).unwrap(),
        "y"
    );
    assert_eq!(
        seen.into_inner(),
        vec![
            strings(&["update"]),
            strings(&["upgrade"]),
            strings(&["install", "wget"]),
            strings(&["uninstall", "wget"]),
            strings(&["upgrade", "--cask", "firefox"]),
            strings(&["upgrade", "wget"]),
        ]
    );
}

#[test]
fn stdout_commands_keep_stdout_only() {
    let seen = RefCell::new(Vec::new());
    assert_eq!(run_outdated(recording(&seen, output(b"wget 1 < 2\n", b"warn", false))).unwrap(), "wget 1 < 2\n");
    assert_eq!(run_search("fire", recording(&seen, output(b"firefox\n", b"", true))).unwrap(), "firefox\n");
    assert_eq!(seen.into_inner(), vec![strings(&["outdated"]), strings(&["search", "fire"])]);
}

#[test]
fn spawn_failure_is_an_io_error() {
    let r = run_update(|_args: Vec<String>| -> Result<CommandOutput, io::Error> {
        Err(io::Error::new(io::ErrorKind::NotFound, "brew not found"))
    });
    match r {
        Err(CommandError::Io(e)) => assert_eq!(e.kind(), io::ErrorKind::NotFound),
        other => panic!("unexpected {:?}", other),
    }
}

#[test]
fn list_arguments_follow_the_option() {
    for (option, extra) in [
        (ListOption::All, None),
        (ListOption::Formula, Some("--formula")),
        (ListOption::Cask, Some("--cask")),
    ] {
        let seen = RefCell::new(Vec::new());
        let r = run_list(option, recording(&seen, output(b"{}", b"", true)), |bytes: Vec<u8>| {
            assert_eq!(bytes, b"{}".to_vec());
            Ok(BrewList { formulas: vec![], casks: vec![] })
        });
        assert!(r.is_ok());
        let mut expected = strings(&["list", "--versions", "--json"]);
        if let Some(e) = extra {
            expected.push(String::from(e));
        }
        assert_eq!(seen.into_inner(), vec![expected]);
    }
}

#[test]
fn bad_json_is_a_serde_error() {
    let seen = RefCell::new(Vec::new());
    let r = run_info("wget", recording(&seen, output(b"not json", b"", true)), |bytes: Vec<u8>| {
        serde_json::from_slice::<Vec<i32>>(&bytes).map(|_| Info::new())
    });
    assert!(matches!(r, Err(CommandError::Serde(_))));
    assert_eq!(seen.into_inner(), vec![strings(&["info", "--json", "wget"])]);
}

#[test]
fn info_parse_result_is_returned() {
    let seen = RefCell::new(Vec::new());
    let r = run_info("wget", recording(&seen, output(b"[]", b"", true)), |_bytes: Vec<u8>| {
        Ok(vec![InfoEntry {
            name: String::from("wget"),
            full_name: String::new(),
            token: String::new(),
            desc: None,
            homepage: None,
            caveats: None,
            installed: vec![],
        }])
    });
    let info = r.unwrap();
    assert_eq!(info.len(), 1);
    assert_eq!(info[0].name, "wget");
}

#[test]
fn errors_convert_from_their_sources() {
    let e: CommandError = io::Error::new(io::ErrorKind::Other, "x").into();
    assert!(matches!(e, CommandError::Io(_)));
    let j = serde_json::from_slice::<i32>(b"x").unwrap_err();
    let e: CommandError = j.into();
    assert!(matches!(e, CommandError::Serde(_)));
}
