//! The commands that the interface sends to the worker, and its replies.

use vstd::prelude::*;

use crate::bindings::{BrewList, Info};
use crate::run::{
    command_output_text,
    info_args, info_argv, json_outcome, json_reply, list_args, list_argv, outdated_args,
    outdated_argv, parses_anything, stdout_outcome, stdout_reply, text_outcome, text_reply,
    update_args, update_argv, upgrade_args, upgrade_argv, upgrade_package_args,
    upgrade_package_argv, CommandError, CommandOutput,
};
use crate::text::{lossy_utf8, views};

verus! {

/// Which installed packages to list.
#[derive(Debug, Clone, Copy, PartialEq, Eq, Structural)]
pub enum ListOption {
    All,
    Formula,
    Cask,
}

/// Whether a package is a formula or a cask.
#[derive(Debug, Clone, Copy, PartialEq, Eq, Structural)]
pub enum PackageKind {
    Formula,
    Cask,
}

/// The kind of package that `is_cask` tells.
pub open spec fn package_kind(is_cask: bool) -> PackageKind {
    if is_cask {
        PackageKind::Cask
    } else {
        PackageKind::Formula
    }
}

/// What the interface asks of the worker.
#[derive(Debug)]
pub enum Command {
    List(ListOption),
    Info(String),
    Outdated,
    Update,
    Upgrade,
    UpgradePackage { name: String, is_cask: bool },
    Shutdown,
}

/// A command as characters.
pub enum CommandView {
    List(ListOption),
    Info(Seq<char>),
    Outdated,
    Update,
    Upgrade,
    UpgradePackage { name: Seq<char>, is_cask: bool },
    Shutdown,
}

impl View for Command {
    type V = CommandView;

    open spec fn view(&self) -> CommandView {
        match self {
            Command::List(o) => CommandView::List(*o),
            Command::Info(n) => CommandView::Info(n@),
            Command::Outdated => CommandView::Outdated,
            Command::Update => CommandView::Update,
            Command::Upgrade => CommandView::Upgrade,
            Command::UpgradePackage { name, is_cask } => CommandView::UpgradePackage { name: name@, is_cask: *is_cask },
            Command::Shutdown => CommandView::Shutdown,
        }
    }
}

impl Clone for Command {
    fn clone(&self) -> (r: Command)
        ensures
            r@ == self@,
    {
        match self {
            Command::List(o) => Command::List(*o),
            Command::Info(n) => Command::Info(n.clone()),
            Command::Outdated => Command::Outdated,
            Command::Update => Command::Update,
            Command::Upgrade => Command::Upgrade,
            Command::UpgradePackage { name, is_cask } => Command::UpgradePackage { name: name.clone(), is_cask: *is_cask },
            Command::Shutdown => Command::Shutdown,
        }
    }
}

/// What the worker sends back.
#[derive(Debug)]
pub enum Response {
    List(BrewList),
    Info(Info),
    Outdated(String),
    UpdateResult(String),
    UpgradeResult(String),
    UpgradePackageResult { name: String, output: String },
}

/// The worker's side of the conversation: it carries out commands one at a
/// time until it is told to shut down.
pub struct Worker {
    shut_down: bool,
}

/// The arguments of the `brew` job that a command asks for (`Shutdown` asks
/// for none).
pub open spec fn command_args(c: CommandView) -> Seq<Seq<char>> {
    match c {
        CommandView::List(o) => list_args(o),
        CommandView::Info(name) => info_args(name),
        CommandView::Outdated => outdated_args(),
        CommandView::Update => update_args(),
        CommandView::Upgrade => upgrade_args(),
        CommandView::UpgradePackage { name, is_cask } => upgrade_package_args(name, package_kind(is_cask)),
        CommandView::Shutdown => Seq::empty(),
    }
}

/// `r` is the text `t` put in the reply that `make` builds, or its error.
pub open spec fn replied(
    t: Result<String, CommandError>,
    r: Result<Response, CommandError>,
    make: spec_fn(String) -> Response,
) -> bool {
    match t {
        Ok(s) => r == Ok::<Response, CommandError>(make(s)),
        Err(e) => r == Err::<Response, CommandError>(e),
    }
}

/// The reply to `command`, given the outcome `out` of its `brew` job and the
/// parsers of the two JSON listings.
pub open spec fn reply_outcome<L, I>(
    command: Command,
    out: Result<CommandOutput, std::io::Error>,
    parse_list: L,
    parse_info: I,
    r: Result<Response, CommandError>,
) -> bool
    where
        L: FnOnce(Vec<u8>) -> Result<BrewList, serde_json::Error>,
        I: FnOnce(Vec<u8>) -> Result<Info, serde_json::Error>,
{
    match command {
        Command::List(_) => exists|t: Result<BrewList, CommandError>|
            #[trigger] json_outcome(out, parse_list, t) && match t {
                Ok(l) => r == Ok::<Response, CommandError>(Response::List(l)),
                Err(e) => r == Err::<Response, CommandError>(e),
            },
        Command::Info(_) => exists|t: Result<Info, CommandError>|
            #[trigger] json_outcome(out, parse_info, t) && match t {
                Ok(i) => r == Ok::<Response, CommandError>(Response::Info(i)),
                Err(e) => r == Err::<Response, CommandError>(e),
            },
        Command::Outdated => exists|t: Result<String, CommandError>|
            #[trigger] stdout_outcome(out, t) && replied(t, r, |s: String| Response::Outdated(s)),
        Command::Update => exists|t: Result<String, CommandError>|
            #[trigger] text_outcome(out, t) && replied(t, r, |s: String| Response::UpdateResult(s)),
        Command::Upgrade => exists|t: Result<String, CommandError>|
            #[trigger] text_outcome(out, t) && replied(t, r, |s: String| Response::UpgradeResult(s)),
        Command::UpgradePackage { name, is_cask } => exists|t: Result<String, CommandError>|
            #[trigger] text_outcome(out, t) && replied(
                t,
                r,
                |s: String| Response::UpgradePackageResult { name: name, output: s },
            ),
        Command::Shutdown => false,
    }
}

impl Worker {
    /// Whether the worker has been told to shut down.
    pub closed spec fn is_shut_down(&self) -> bool {
        self.shut_down
    }

    /// A worker that waits for commands.
    pub fn new() -> (w: Worker)
        ensures
            !w.is_shut_down(),
    {
        Worker { shut_down: false }
    }

    /// Decides what the worker does with a command: the arguments of the one
    /// `brew` job to run for it, or `None`, when nothing is to run, for
    /// `Shutdown` and for every command after it.
    pub fn run(&mut self, command: &Command) -> (job: Option<Vec<String>>)
        ensures
            final(self).is_shut_down() == (old(self).is_shut_down() || command is Shutdown),
            final(self).is_shut_down() ==> job is None,
            !final(self).is_shut_down() ==> job is Some && views(job->0@) == command_args(command@),
    {
        if self.shut_down {
            return None;
        }
        match command {
            Command::Shutdown => {
                self.shut_down = true;
                None
            },
            Command::List(option) => Some(list_argv(*option)),
            Command::Info(name) => Some(info_argv(name.as_str())),
            Command::Outdated => Some(outdated_argv()),
            Command::Update => Some(update_argv()),
            Command::Upgrade => Some(upgrade_argv()),
            Command::UpgradePackage { name, is_cask } => {
                let kind = if *is_cask {
                    PackageKind::Cask
                } else {
                    PackageKind::Formula
                };
                Some(upgrade_package_argv(name.as_str(), kind))
            },
        }
    }
}

/// The reply to a command whose `brew` job ended with `out`: the listings are
/// parsed by `parse_list` and `parse_info`, the outdated list and search are
/// the standard output as it is, and the others are the text of the output.
pub fn reply<L, I>(command: Command, out: Result<CommandOutput, std::io::Error>, parse_list: L, parse_info: I) -> (r: Result<Response, CommandError>)
    where
        L: FnOnce(Vec<u8>) -> Result<BrewList, serde_json::Error>,
        I: FnOnce(Vec<u8>) -> Result<Info, serde_json::Error>,
    requires
        !(command is Shutdown),
        parses_anything(parse_list),
        parses_anything(parse_info),
    ensures
        reply_outcome(command, out, parse_list, parse_info, r),
{
    match command {
        Command::List(_) => {
            let t = json_reply(out, parse_list);
            match t {
                Ok(l) => Ok(Response::List(l)),
                Err(e) => Err(e),
            }
        },
        Command::Info(_) => {
            let t = json_reply(out, parse_info);
            match t {
                Ok(i) => Ok(Response::Info(i)),
                Err(e) => Err(e),
            }
        },
        Command::Outdated => {
            let t = stdout_reply(out);
            let ghost g = t;
            let r = match t {
                Ok(s) => Ok(Response::Outdated(s)),
                Err(e) => Err(e),
            };
            assert(replied(g, r, |s: String| Response::Outdated(s)));
            r
        },
        Command::Update => {
            let t = text_reply(out);
            let ghost g = t;
            let r = match t {
                Ok(s) => Ok(Response::UpdateResult(s)),
                Err(e) => Err(e),
            };
            assert(replied(g, r, |s: String| Response::UpdateResult(s)));
            r
        },
        Command::Upgrade => {
            let t = text_reply(out);
            let ghost g = t;
            let r = match t {
                Ok(s) => Ok(Response::UpgradeResult(s)),
                Err(e) => Err(e),
            };
            assert(replied(g, r, |s: String| Response::UpgradeResult(s)));
            r
        },
        Command::UpgradePackage { name, is_cask } => {
            let t = text_reply(out);
            let ghost g = t;
            let ghost n = name;
            let r = match t {
                Ok(s) => Ok(Response::UpgradePackageResult { name, output: s }),
                Err(e) => Err(e),
            };
            assert(replied(g, r, |s: String| Response::UpgradePackageResult { name: n, output: s }));
            r
        },
        Command::Shutdown => unreached(),
    }
}


/// The listing job always starts `list --versions --json`, and adds
/// `--cask` exactly for the casks and `--formula` exactly for the formulae;
/// listing everything adds nothing.
pub proof fn lemma_list_job(o: ListOption)
    ensures
        command_args(CommandView::List(o)).take(3) == seq!["list"@, "--versions"@, "--json"@],
        command_args(CommandView::List(o)).len() == (if o == ListOption::All { 3int } else { 4int }),
        command_args(CommandView::List(o)).contains("--cask"@) <==> o == ListOption::Cask,
        command_args(CommandView::List(o)).contains("--formula"@) <==> o == ListOption::Formula,
{
    reveal_strlit("list");
    reveal_strlit("--versions");
    reveal_strlit("--json");
    reveal_strlit("--cask");
    reveal_strlit("--formula");
    let a = command_args(CommandView::List(o));
    assert(a.take(3) =~= seq!["list"@, "--versions"@, "--json"@]);
    assert("list"@.len() != "--cask"@.len());
    assert("--versions"@ != "--cask"@);
    assert("--json"@[2] != "--cask"@[2]);
    assert("--json"@ != "--cask"@);
    assert("--versions"@.len() != "--formula"@.len());
    assert("--versions"@ != "--formula"@);
    assert("--json"@ != "--formula"@);
    assert("list"@.len() != "--formula"@.len());
    assert("--cask"@.len() != "--formula"@.len());
    if o == ListOption::Cask {
        assert(a[3] == "--cask"@);
    }
    if o == ListOption::Formula {
        assert(a[3] == "--formula"@);
    }
}

/// Upgrading one package runs `brew upgrade`, with `--cask` before the name
/// exactly for a cask, and the name last.
pub proof fn lemma_upgrade_package_job(name: Seq<char>, is_cask: bool)
    ensures
        command_args(CommandView::UpgradePackage { name, is_cask })[0] == "upgrade"@,
        command_args(CommandView::UpgradePackage { name, is_cask }).last() == name,
        command_args(CommandView::UpgradePackage { name, is_cask }).len() == (if is_cask { 3int } else { 2int }),
        is_cask ==> command_args(CommandView::UpgradePackage { name, is_cask })[1] == "--cask"@,
{
}

/// The information job asks `brew info --json` for the package by name.
pub proof fn lemma_info_job(name: Seq<char>)
    ensures
        command_args(CommandView::Info(name)) == seq!["info"@, "--json"@, name],
{
}

/// The reply to `brew outdated` is its standard output decoded as it is,
/// nothing when it printed nothing, whatever it wrote to standard error and
/// however it exited: two runs with the same standard output give the same
/// reply.
pub proof fn lemma_outdated_reply_is_stdout<L, I>(
    o1: CommandOutput,
    o2: CommandOutput,
    parse_list: L,
    parse_info: I,
    r1: Result<Response, CommandError>,
    r2: Result<Response, CommandError>,
)
    where
        L: FnOnce(Vec<u8>) -> Result<BrewList, serde_json::Error>,
        I: FnOnce(Vec<u8>) -> Result<Info, serde_json::Error>,
    requires
        reply_outcome(Command::Outdated, Ok(o1), parse_list, parse_info, r1),
        reply_outcome(Command::Outdated, Ok(o2), parse_list, parse_info, r2),
    ensures
        r1 is Ok && r1->Ok_0 is Outdated,
        r1->Ok_0->Outdated_0@ == lossy_utf8(o1.stdout@),
        o1.stdout@.len() == 0 ==> r1->Ok_0->Outdated_0@.len() == 0,
        o1.stdout@ == o2.stdout@ ==> r2 is Ok && r2->Ok_0 is Outdated && r2->Ok_0->Outdated_0@ == r1->Ok_0->Outdated_0@,
{
}


/// The jobs without arguments run the `brew` subcommand of their name.
pub proof fn lemma_plain_jobs()
    ensures
        command_args(CommandView::Update) == seq!["update"@],
        command_args(CommandView::Upgrade) == seq!["upgrade"@],
        command_args(CommandView::Outdated) == seq!["outdated"@],
{
}

/// The replies to `update`, `upgrade` and a package upgrade carry the text
/// that `format_command_output` makes of the run, and the package upgrade
/// names the package it was asked for.
pub proof fn lemma_text_replies<L, I>(
    o: CommandOutput,
    name: String,
    is_cask: bool,
    parse_list: L,
    parse_info: I,
    r_update: Result<Response, CommandError>,
    r_upgrade: Result<Response, CommandError>,
    r_package: Result<Response, CommandError>,
)
    where
        L: FnOnce(Vec<u8>) -> Result<BrewList, serde_json::Error>,
        I: FnOnce(Vec<u8>) -> Result<Info, serde_json::Error>,
    requires
        reply_outcome(Command::Update, Ok(o), parse_list, parse_info, r_update),
        reply_outcome(Command::Upgrade, Ok(o), parse_list, parse_info, r_upgrade),
        reply_outcome(Command::UpgradePackage { name, is_cask }, Ok(o), parse_list, parse_info, r_package),
    ensures
        r_update is Ok && r_update->Ok_0 is UpdateResult,
        r_update->Ok_0->UpdateResult_0@ == command_output_text(o),
        r_upgrade is Ok && r_upgrade->Ok_0 is UpgradeResult,
        r_upgrade->Ok_0->UpgradeResult_0@ == command_output_text(o),
        r_package is Ok && r_package->Ok_0 is UpgradePackageResult,
        r_package->Ok_0->UpgradePackageResult_output@ == command_output_text(o),
        r_package->Ok_0->UpgradePackageResult_name == name,
{
}

} // verus!
