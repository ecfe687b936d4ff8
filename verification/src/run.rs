//! Running `brew`: which arguments each job passes, and what the library
//! makes of the output. Starting the process is left to the caller, who hands
//! in a runner: a closure that runs `brew` with the given arguments.

use vstd::prelude::*;

use crate::bindings::{BrewList, Info};
use crate::text::{from_utf8_lossy, lemma_trimmed_edges, lossy_utf8, trim, trimmed, views};
use crate::worker::{ListOption, PackageKind};

verus! {

/// Declares `std::io::Error`, the error of starting a process, so that it can
/// be carried in `CommandError`; nothing is assumed of its contents.
#[verifier::external_type_specification]
#[verifier::external_body]
pub struct ExIoError(std::io::Error);

/// Declares `serde_json::Error`, the error of a JSON parse, so that it can be
/// carried in `CommandError`; nothing is assumed of its contents.
#[verifier::external_type_specification]
#[verifier::external_body]
pub struct ExJsonError(serde_json::Error);

/// What a finished `brew` process left behind.
pub struct CommandOutput {
    pub stdout: Vec<u8>,
    pub stderr: Vec<u8>,
    /// Whether the process exited with success.
    pub success: bool,
    /// How the exit status displays, e.g. `exit status: 1`.
    pub status: String,
}

/// Why a `brew` job failed.
#[derive(Debug)]
pub enum CommandError {
    /// The process could not be run.
    Io(std::io::Error),
    /// Its output was not the JSON that was expected.
    Serde(serde_json::Error),
}

impl From<std::io::Error> for CommandError {
    fn from(err: std::io::Error) -> (r: CommandError) {
        CommandError::Io(err)
    }
}

impl vstd::std_specs::convert::FromSpecImpl<std::io::Error> for CommandError {
    open spec fn obeys_from_spec() -> bool {
        true
    }

    open spec fn from_spec(err: std::io::Error) -> CommandError {
        CommandError::Io(err)
    }
}

impl From<serde_json::Error> for CommandError {
    fn from(err: serde_json::Error) -> (r: CommandError) {
        CommandError::Serde(err)
    }
}

impl vstd::std_specs::convert::FromSpecImpl<serde_json::Error> for CommandError {
    open spec fn obeys_from_spec() -> bool {
        true
    }

    open spec fn from_spec(err: serde_json::Error) -> CommandError {
        CommandError::Serde(err)
    }
}

/// `bytes` decoded, or nothing when there are none.
pub open spec fn stream_text(bytes: Seq<u8>) -> Seq<char> {
    if bytes.len() > 0 {
        lossy_utf8(bytes)
    } else {
        Seq::empty()
    }
}

/// The text shown for a finished command: standard output, then standard
/// error on a line of its own, a note when both are blank, and the exit
/// status when the command failed.
pub open spec fn command_output_text(o: CommandOutput) -> Seq<char> {
    let out = stream_text(o.stdout@);
    let both = if o.stderr@.len() > 0 {
        (if out.len() > 0 {
            out.push('\n')
        } else {
            out
        }) + lossy_utf8(o.stderr@)
    } else {
        out
    };
    let shown = if trimmed(both).len() == 0 {
        "Command produced no output"@
    } else {
        both
    };
    if o.success {
        shown
    } else {
        shown + "\n\nExit status: "@ + o.status@
    }
}

/// The text shown for a finished command is never empty.
pub proof fn lemma_command_output_text_not_empty(o: CommandOutput)
    ensures
        command_output_text(o).len() > 0,
{
    let out = stream_text(o.stdout@);
    let both = if o.stderr@.len() > 0 {
        (if out.len() > 0 {
            out.push('\n')
        } else {
            out
        }) + lossy_utf8(o.stderr@)
    } else {
        out
    };
    lemma_trimmed_edges(both);
    reveal_strlit("Command produced no output");
}

/// A failed command's text ends with its exit status; a successful one whose
/// only output is non-blank standard output shows exactly that output; and
/// both streams, when present, appear in order, standard output first.
pub proof fn lemma_command_output_text_parts(o: CommandOutput)
    ensures
        !o.success ==> command_output_text(o).len() >= o.status@.len()
            && command_output_text(o).skip(command_output_text(o).len() - o.status@.len()) == o.status@,
        o.success && o.stderr@.len() == 0 && o.stdout@.len() > 0 && trimmed(lossy_utf8(o.stdout@)).len() > 0
            ==> command_output_text(o) == lossy_utf8(o.stdout@),
        o.success && o.stdout@.len() > 0 && o.stderr@.len() > 0
            && trimmed(lossy_utf8(o.stdout@) + seq!['\n'] + lossy_utf8(o.stderr@)).len() > 0
            && lossy_utf8(o.stdout@).len() > 0
            ==> command_output_text(o) == lossy_utf8(o.stdout@) + seq!['\n'] + lossy_utf8(o.stderr@),
{
    let t = command_output_text(o);
    if !o.success {
        let shown = t.take(t.len() - o.status@.len());
        assert(t.skip(t.len() - o.status@.len()) =~= o.status@);
    }
    assert(lossy_utf8(o.stdout@).push('\n') =~= lossy_utf8(o.stdout@) + seq!['\n']);
}

/// The text shown for a finished command.
pub fn format_command_output(o: &CommandOutput) -> (r: String)
    ensures
        r@ == command_output_text(*o),
{
    let mut text = String::new();
    if !o.stdout.is_empty() {
        let s = from_utf8_lossy(o.stdout.as_slice());
        text.append(s.as_str());
    }
    if !o.stderr.is_empty() {
        if !text.as_str().is_empty() {
            text.push('\n');
        }
        let s = from_utf8_lossy(o.stderr.as_slice());
        text.append(s.as_str());
    }
    let t = trim(text.as_str());
    if t.as_str().is_empty() {
        text = String::from_str("Command produced no output");
    }
    if !o.success {
        text.append("\n\nExit status: ");
        text.append(o.status.as_str());
    }
    text
}

/// `r` is what becomes of the outcome `out` of a run whose text is shown.
pub open spec fn text_outcome(
    out: Result<CommandOutput, std::io::Error>,
    r: Result<String, CommandError>,
) -> bool {
    match out {
        Ok(o) => r is Ok && r->Ok_0@ == command_output_text(o),
        Err(e) => r == Err::<String, CommandError>(CommandError::Io(e)),
    }
}

/// `r` is what becomes of the outcome `out` of a run whose standard output is
/// shown as it is (nothing when there is none).
pub open spec fn stdout_outcome(
    out: Result<CommandOutput, std::io::Error>,
    r: Result<String, CommandError>,
) -> bool {
    match out {
        Ok(o) => r is Ok && r->Ok_0@ == lossy_utf8(o.stdout@) && (o.stdout@.len() == 0 ==> r->Ok_0@.len() == 0),
        Err(e) => r == Err::<String, CommandError>(CommandError::Io(e)),
    }
}

/// `brew` was called with arguments whose characters are `args` and gave `out`.
pub open spec fn ran_with<B>(brew: B, args: Seq<Seq<char>>, out: Result<CommandOutput, std::io::Error>) -> bool
    where B: FnOnce(Vec<String>) -> Result<CommandOutput, std::io::Error>
{
    exists|a: Vec<String>| views(a@) == args && #[trigger] call_ensures(brew, (a,), out)
}

/// `brew` ran with `args` and `r` is the text that its outcome shows.
pub open spec fn text_run<B>(brew: B, args: Seq<Seq<char>>, r: Result<String, CommandError>) -> bool
    where B: FnOnce(Vec<String>) -> Result<CommandOutput, std::io::Error>
{
    exists|out: Result<CommandOutput, std::io::Error>| #[trigger] ran_with(brew, args, out) && text_outcome(out, r)
}

/// `brew` ran with `args` and `r` is its standard output.
pub open spec fn stdout_run<B>(brew: B, args: Seq<Seq<char>>, r: Result<String, CommandError>) -> bool
    where B: FnOnce(Vec<String>) -> Result<CommandOutput, std::io::Error>
{
    exists|out: Result<CommandOutput, std::io::Error>| #[trigger] ran_with(brew, args, out) && stdout_outcome(out, r)
}

/// `r` is what becomes of the outcome `out` of a run whose standard output
/// is JSON: what `parse` made of the output, or the error of either.
pub open spec fn json_outcome<P, T>(out: Result<CommandOutput, std::io::Error>, parse: P, r: Result<T, CommandError>) -> bool
    where P: FnOnce(Vec<u8>) -> Result<T, serde_json::Error>
{
    match out {
        Err(e) => r == Err::<T, CommandError>(CommandError::Io(e)),
        Ok(o) => exists|p: Result<T, serde_json::Error>| #[trigger] call_ensures(parse, (o.stdout,), p) && match p {
            Ok(v) => r == Ok::<T, CommandError>(v),
            Err(e) => r == Err::<T, CommandError>(CommandError::Serde(e)),
        },
    }
}

/// `brew` ran with `args`, and `r` is what `parse` made of its standard
/// output, or the error of either.
pub open spec fn json_run<B, P, T>(brew: B, args: Seq<Seq<char>>, parse: P, r: Result<T, CommandError>) -> bool
    where
        B: FnOnce(Vec<String>) -> Result<CommandOutput, std::io::Error>,
        P: FnOnce(Vec<u8>) -> Result<T, serde_json::Error>,
{
    exists|out: Result<CommandOutput, std::io::Error>| #[trigger] ran_with(brew, args, out) && json_outcome(out, parse, r)
}

/// Any arguments may be handed to `brew`.
pub open spec fn runs_anything<B>(brew: B) -> bool
    where B: FnOnce(Vec<String>) -> Result<CommandOutput, std::io::Error>
{
    forall|a: Vec<String>| #[trigger] call_requires(brew, (a,))
}

/// Any bytes may be handed to `parse`.
pub open spec fn parses_anything<P, T>(parse: P) -> bool
    where P: FnOnce(Vec<u8>) -> Result<T, serde_json::Error>
{
    forall|b: Vec<u8>| #[trigger] call_requires(parse, (b,))
}

fn owned(s: &str) -> (r: String)
    ensures
        r@ == s@,
{
    String::from_str(s)
}

/// What becomes of the outcome of a run whose text is shown.
pub fn text_reply(out: Result<CommandOutput, std::io::Error>) -> (r: Result<String, CommandError>)
    ensures
        text_outcome(out, r),
{
    match out {
        Ok(o) => Ok(format_command_output(&o)),
        Err(e) => Err(CommandError::Io(e)),
    }
}

/// What becomes of the outcome of a run whose standard output is shown as it
/// is.
pub fn stdout_reply(out: Result<CommandOutput, std::io::Error>) -> (r: Result<String, CommandError>)
    ensures
        stdout_outcome(out, r),
{
    match out {
        Ok(o) => {
            let s = from_utf8_lossy(o.stdout.as_slice());
            proof {
                if o.stdout@.len() == 0 {
                    assert(o.stdout@ =~= Seq::<u8>::empty());
                    assert(vstd::utf8::valid_utf8(o.stdout@));
                    assert(vstd::utf8::decode_utf8(o.stdout@) =~= Seq::<char>::empty());
                }
            }
            Ok(s)
        },
        Err(e) => Err(CommandError::Io(e)),
    }
}

/// What becomes of the outcome of a run whose standard output is JSON: it is
/// handed to `parse`.
pub fn json_reply<P, T>(out: Result<CommandOutput, std::io::Error>, parse: P) -> (r: Result<T, CommandError>)
    where P: FnOnce(Vec<u8>) -> Result<T, serde_json::Error>
    requires
        parses_anything(parse),
    ensures
        json_outcome(out, parse, r),
{
    match out {
        Ok(o) => {
            let ghost stdout = o.stdout;
            let p = parse(o.stdout);
            let r = match p {
                Ok(v) => Ok(v),
                Err(e) => Err(CommandError::Serde(e)),
            };
            assert(call_ensures(parse, (stdout,), p));
            r
        },
        Err(e) => Err(CommandError::Io(e)),
    }
}

/// Runs `brew` with `args` and shows its output as text.
fn run_text_command<B>(args: Vec<String>, brew: B) -> (r: Result<String, CommandError>)
    where B: FnOnce(Vec<String>) -> Result<CommandOutput, std::io::Error>
    requires
        runs_anything(brew),
    ensures
        text_run(brew, views(args@), r),
{
    let ghost a = args;
    let out = brew(args);
    let ghost g = out;
    let r = text_reply(out);
    assert(ran_with(brew, views(a@), g));
    r
}

/// The arguments of `brew update`.
pub open spec fn update_args() -> Seq<Seq<char>> {
    seq!["update"@]
}

/// The arguments of `brew upgrade`.
pub open spec fn upgrade_args() -> Seq<Seq<char>> {
    seq!["upgrade"@]
}

/// The arguments of `brew outdated`.
pub open spec fn outdated_args() -> Seq<Seq<char>> {
    seq!["outdated"@]
}

/// The arguments of `brew install <name>`.
pub open spec fn install_args(name: Seq<char>) -> Seq<Seq<char>> {
    seq!["install"@, name]
}

/// The arguments of `brew uninstall <name>`.
pub open spec fn uninstall_args(name: Seq<char>) -> Seq<Seq<char>> {
    seq!["uninstall"@, name]
}

/// The arguments of `brew search <query>`.
pub open spec fn search_args(query: Seq<char>) -> Seq<Seq<char>> {
    seq!["search"@, query]
}

/// The arguments of `brew info --json <name>`.
pub open spec fn info_args(name: Seq<char>) -> Seq<Seq<char>> {
    seq!["info"@, "--json"@, name]
}

/// The arguments that upgrade one package; a cask takes `--cask`.
pub open spec fn upgrade_package_args(name: Seq<char>, kind: PackageKind) -> Seq<Seq<char>> {
    if kind == PackageKind::Cask {
        seq!["upgrade"@, "--cask"@, name]
    } else {
        seq!["upgrade"@, name]
    }
}

/// The arguments that list installed packages, narrowed by `option`.
pub open spec fn list_args(option: ListOption) -> Seq<Seq<char>> {
    let base = seq!["list"@, "--versions"@, "--json"@];
    match option {
        ListOption::All => base,
        ListOption::Formula => base.push("--formula"@),
        ListOption::Cask => base.push("--cask"@),
    }
}

/// The arguments of `brew update`.
pub fn update_argv() -> (a: Vec<String>)
    ensures
        views(a@) == update_args(),
{
    let a = vec![owned("update")];
    assert(views(a@) =~= update_args());
    a
}

/// The arguments of `brew upgrade`.
pub fn upgrade_argv() -> (a: Vec<String>)
    ensures
        views(a@) == upgrade_args(),
{
    let a = vec![owned("upgrade")];
    assert(views(a@) =~= upgrade_args());
    a
}

/// The arguments of `brew outdated`.
pub fn outdated_argv() -> (a: Vec<String>)
    ensures
        views(a@) == outdated_args(),
{
    let a = vec![owned("outdated")];
    assert(views(a@) =~= outdated_args());
    a
}

/// The arguments of `brew install <name>`.
pub fn install_argv(name: &str) -> (a: Vec<String>)
    ensures
        views(a@) == install_args(name@),
{
    let a = vec![owned("install"), owned(name)];
    assert(views(a@) =~= install_args(name@));
    a
}

/// The arguments of `brew uninstall <name>`.
pub fn uninstall_argv(name: &str) -> (a: Vec<String>)
    ensures
        views(a@) == uninstall_args(name@),
{
    let a = vec![owned("uninstall"), owned(name)];
    assert(views(a@) =~= uninstall_args(name@));
    a
}

/// The arguments of `brew search <query>`.
pub fn search_argv(query: &str) -> (a: Vec<String>)
    ensures
        views(a@) == search_args(query@),
{
    let a = vec![owned("search"), owned(query)];
    assert(views(a@) =~= search_args(query@));
    a
}

/// The arguments of `brew info --json <name>`.
pub fn info_argv(name: &str) -> (a: Vec<String>)
    ensures
        views(a@) == info_args(name@),
{
    let a = vec![owned("info"), owned("--json"), owned(name)];
    assert(views(a@) =~= info_args(name@));
    a
}

/// The arguments that upgrade one package.
pub fn upgrade_package_argv(name: &str, kind: PackageKind) -> (a: Vec<String>)
    ensures
        views(a@) == upgrade_package_args(name@, kind),
{
    let a = if kind == PackageKind::Cask {
        vec![owned("upgrade"), owned("--cask"), owned(name)]
    } else {
        vec![owned("upgrade"), owned(name)]
    };
    assert(views(a@) =~= upgrade_package_args(name@, kind));
    a
}

/// The arguments that list installed packages, narrowed by `option`.
pub fn list_argv(option: ListOption) -> (a: Vec<String>)
    ensures
        views(a@) == list_args(option),
{
    let mut a = vec![owned("list"), owned("--versions"), owned("--json")];
    match option {
        ListOption::All => {},
        ListOption::Formula => {
            a.push(owned("--formula"));
        },
        ListOption::Cask => {
            a.push(owned("--cask"));
        },
    }
    assert(views(a@) =~= list_args(option));
    a
}

/// `brew update`, with its output as text.
pub fn run_update<B>(brew: B) -> (r: Result<String, CommandError>)
    where B: FnOnce(Vec<String>) -> Result<CommandOutput, std::io::Error>
    requires
        runs_anything(brew),
    ensures
        text_run(brew, update_args(), r),
{
    run_text_command(update_argv(), brew)
}

/// `brew upgrade`, with its output as text.
pub fn run_upgrade<B>(brew: B) -> (r: Result<String, CommandError>)
    where B: FnOnce(Vec<String>) -> Result<CommandOutput, std::io::Error>
    requires
        runs_anything(brew),
    ensures
        text_run(brew, upgrade_args(), r),
{
    run_text_command(upgrade_argv(), brew)
}

/// `brew install <name>`, with its output as text.
pub fn run_install<B>(name: &str, brew: B) -> (r: Result<String, CommandError>)
    where B: FnOnce(Vec<String>) -> Result<CommandOutput, std::io::Error>
    requires
        runs_anything(brew),
    ensures
        text_run(brew, install_args(name@), r),
{
    run_text_command(install_argv(name), brew)
}

/// `brew uninstall <name>`, with its output as text.
pub fn run_uninstall<B>(name: &str, brew: B) -> (r: Result<String, CommandError>)
    where B: FnOnce(Vec<String>) -> Result<CommandOutput, std::io::Error>
    requires
        runs_anything(brew),
    ensures
        text_run(brew, uninstall_args(name@), r),
{
    run_text_command(uninstall_argv(name), brew)
}

/// Upgrades one package, with the output as text.
pub fn run_upgrade_package<B>(name: &str, kind: PackageKind, brew: B) -> (r: Result<String, CommandError>)
    where B: FnOnce(Vec<String>) -> Result<CommandOutput, std::io::Error>
    requires
        runs_anything(brew),
    ensures
        text_run(brew, upgrade_package_args(name@, kind), r),
{
    run_text_command(upgrade_package_argv(name, kind), brew)
}

/// Runs `brew` with `args` and shows its standard output as it is.
fn run_stdout_command<B>(args: Vec<String>, brew: B) -> (r: Result<String, CommandError>)
    where B: FnOnce(Vec<String>) -> Result<CommandOutput, std::io::Error>
    requires
        runs_anything(brew),
    ensures
        stdout_run(brew, views(args@), r),
{
    let ghost a = args;
    let out = brew(args);
    let ghost g = out;
    let r = stdout_reply(out);
    assert(ran_with(brew, views(a@), g));
    r
}

/// `brew outdated`, with its standard output as it is.
pub fn run_outdated<B>(brew: B) -> (r: Result<String, CommandError>)
    where B: FnOnce(Vec<String>) -> Result<CommandOutput, std::io::Error>
    requires
        runs_anything(brew),
    ensures
        stdout_run(brew, outdated_args(), r),
{
    run_stdout_command(outdated_argv(), brew)
}

/// `brew search <query>`, with its standard output as it is.
pub fn run_search<B>(query: &str, brew: B) -> (r: Result<String, CommandError>)
    where B: FnOnce(Vec<String>) -> Result<CommandOutput, std::io::Error>
    requires
        runs_anything(brew),
    ensures
        stdout_run(brew, search_args(query@), r),
{
    run_stdout_command(search_argv(query), brew)
}

/// Runs `brew` with `args` and hands its standard output to `parse`.
fn run_json_command<B, P, T>(args: Vec<String>, brew: B, parse: P) -> (r: Result<T, CommandError>)
    where
        B: FnOnce(Vec<String>) -> Result<CommandOutput, std::io::Error>,
        P: FnOnce(Vec<u8>) -> Result<T, serde_json::Error>,
    requires
        runs_anything(brew),
        parses_anything(parse),
    ensures
        json_run(brew, views(args@), parse, r),
{
    let ghost a = args;
    let out = brew(args);
    let ghost g = out;
    let r = json_reply(out, parse);
    assert(ran_with(brew, views(a@), g));
    r
}

/// `brew info --json <name>`, parsed by `parse`.
pub fn run_info<B, P>(name: &str, brew: B, parse: P) -> (r: Result<Info, CommandError>)
    where
        B: FnOnce(Vec<String>) -> Result<CommandOutput, std::io::Error>,
        P: FnOnce(Vec<u8>) -> Result<Info, serde_json::Error>,
    requires
        runs_anything(brew),
        parses_anything(parse),
    ensures
        json_run(brew, info_args(name@), parse, r),
{
    run_json_command(info_argv(name), brew, parse)
}

/// Lists the installed packages that `option` selects, parsed by `parse`.
pub fn run_list<B, P>(option: ListOption, brew: B, parse: P) -> (r: Result<BrewList, CommandError>)
    where
        B: FnOnce(Vec<String>) -> Result<CommandOutput, std::io::Error>,
        P: FnOnce(Vec<u8>) -> Result<BrewList, serde_json::Error>,
    requires
        runs_anything(brew),
        parses_anything(parse),
    ensures
        json_run(brew, list_args(option), parse, r),
{
    run_json_command(list_argv(option), brew, parse)
}

} // verus!
