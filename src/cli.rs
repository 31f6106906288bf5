//! The command line: what an invocation asks for, the arguments handed to
//! Cargo, and what follows when Cargo exits.
use vstd::prelude::*;
use vstd::string::*;

use crate::config::strs;
use crate::style::{paint, painted, Hue};

verus! {

/// The actions that are forwarded to Cargo.
#[derive(Clone, Copy, Debug, PartialEq, Eq, Structural)]
pub enum Command {
    /// Run a Fleet project
    Run,
    /// Build a Fleet project
    Build,
}

/// The parsed command line.
#[derive(Clone, Copy, Debug, PartialEq, Eq, Structural)]
pub struct CLI {
    pub subcommand: Command,
}

/// Which help text to print.
#[derive(Clone, Copy, Debug, PartialEq, Eq, Structural)]
pub enum HelpTopic {
    General,
    Run,
    Build,
}

/// What an invocation asks for.
#[derive(Clone, Debug)]
pub enum Invocation {
    /// Print help on the topic; with `fail`, then exit with status 1.
    Help { topic: HelpTopic, fail: bool },
    /// Regenerate the configuration and forward the action to Cargo.
    Dispatch { action: Command, passthrough: Vec<String> },
    /// An action that is not recognized: nothing is done.
    Nothing,
}

/// How the Cargo process ended.
#[derive(Clone, Copy, Debug, PartialEq, Eq, Structural)]
pub enum RunOutcome {
    /// The process could not be started.
    SpawnFailed,
    /// The process exited with this code.
    Exited(i32),
    /// The process was ended by a signal, without an exit code.
    Signalled,
}

/// What the tool does after Cargo ended.
#[derive(Clone, Copy, Debug, PartialEq, Eq, Structural)]
pub enum Step {
    /// Return to the caller, printing nothing more.
    Done,
    /// Print the hints of the failing checks, then exit.
    Diagnose,
    /// Report that Cargo could not be started, then exit.
    Fatal,
}

/// The exit status of every fatal path.
pub const FAILURE_EXIT_CODE: i32 = 1;

impl Command {
    pub open spec fn spec_name(self) -> Seq<char> {
        match self {
            Command::Run => "run"@,
            Command::Build => "build"@,
        }
    }

    /// The Cargo subcommand of this action.
    pub fn name(&self) -> (r: String)
        ensures
            r@ == self.spec_name(),
    {
        match self {
            Command::Run => String::from_str("run"),
            Command::Build => String::from_str("build"),
        }
    }

    /// The arguments handed to Cargo: the action, then the passthrough
    /// arguments verbatim.
    pub fn tool_args(&self, passthrough: &Vec<String>) -> (r: Vec<String>)
        ensures
            strs(r@) == seq![self.spec_name()] + strs(passthrough@),
    {
        let mut r: Vec<String> = Vec::new();
        r.push(self.name());
        let mut i: usize = 0;
        while i < passthrough.len()
            invariant
                i <= passthrough@.len(),
                strs(r@) == seq![self.spec_name()] + strs(passthrough@.take(i as int)),
            decreases passthrough@.len() - i,
        {
            let ghost before = r@;
            let a = passthrough[i].clone();
            r.push(a);
            assert(strs(r@) =~= strs(before).push(passthrough@[i as int]@));
            assert(strs(passthrough@.take(i as int + 1)) =~= strs(passthrough@.take(i as int)).push(
                passthrough@[i as int]@,
            ));
            assert(strs(r@) =~= seq![self.spec_name()] + strs(passthrough@.take(i as int + 1)));
            i = i + 1;
        }
        assert(passthrough@.take(i as int) =~= passthrough@);
        r
    }
}

/// The help topic that a command name selects.
pub open spec fn spec_help_topic(cmd: Seq<char>) -> HelpTopic {
    if cmd == "run"@ {
        HelpTopic::Run
    } else if cmd == "build"@ {
        HelpTopic::Build
    } else {
        HelpTopic::General
    }
}

/// Whether some argument asks for help.
pub open spec fn spec_asks_help(args: Seq<Seq<char>>) -> bool {
    exists|i: int| 0 <= i < args.len() && (#[trigger] args[i] == "--help"@ || args[i] == "-h"@)
}

/// What the arguments (the program name first) ask for: help when there is
/// no action or when help is asked for anywhere; else the action named `run`
/// or `build` with all later arguments; else nothing.
pub open spec fn parses_to(args: Seq<Seq<char>>, r: Invocation) -> bool {
    if args.len() <= 1 {
        r == Invocation::Help { topic: HelpTopic::General, fail: false }
    } else if spec_asks_help(args) {
        r == Invocation::Help { topic: spec_help_topic(args[1]), fail: true }
    } else if args[1] == "run"@ || args[1] == "build"@ {
        match r {
            Invocation::Dispatch { action, passthrough } => {
                &&& action.spec_name() == args[1]
                &&& strs(passthrough@) == args.skip(2)
            },
            _ => false,
        }
    } else {
        r is Nothing
    }
}

/// The help topic that a command name selects.
pub fn help_topic(cmd: &String) -> (r: HelpTopic)
    ensures
        r == spec_help_topic(cmd@),
{
    if *cmd == String::from_str("run") {
        HelpTopic::Run
    } else if *cmd == String::from_str("build") {
        HelpTopic::Build
    } else {
        HelpTopic::General
    }
}

pub open spec fn spec_general_help(version: Seq<char>) -> Seq<char> {
    painted(Hue::Green, "fleet"@) + " "@ + version
        + "\nDimension <team@dimension.dev>\nThe blazing fast build tool for Rust.\n\n"@
        + painted(Hue::Yellow, "USAGE"@) + ":\n    fleet <SUBCOMMAND>\n\n"@
        + painted(Hue::Yellow, "OPTIONS"@)
        + ":\n    -h, --help       Print help information\n    -V, --version    Print version information\n\n"@
        + painted(Hue::Yellow, "SUBCOMMANDS"@)
        + ":\n    build    Build a Fleet project\n    run      Run a Fleet project"@
}

pub open spec fn spec_action_help(action: Seq<char>) -> Seq<char> {
    painted(Hue::Yellow, "USAGE"@) + ":\n    fleet "@ + action
        + " [CARGO OPTIONS]\n\nWrites .cargo/config.toml, then runs `cargo "@ + action
        + "` with the given options."@
}

/// The help text of a topic; the general one names the program's version.
pub open spec fn spec_help_text(topic: HelpTopic, version: Seq<char>) -> Seq<char> {
    match topic {
        HelpTopic::General => spec_general_help(version),
        HelpTopic::Run => spec_action_help("run"@),
        HelpTopic::Build => spec_action_help("build"@),
    }
}

fn action_help(action: &str) -> (r: String)
    ensures
        r@ == spec_action_help(action@),
{
    paint(Hue::Yellow, "USAGE").concat(":\n    fleet ").concat(action).concat(
        " [CARGO OPTIONS]\n\nWrites .cargo/config.toml, then runs `cargo ",
    ).concat(action).concat("` with the given options.")
}

/// The help text of a topic; the general one names the program's version.
pub fn help_text(topic: HelpTopic, version: &str) -> (r: String)
    ensures
        r@ == spec_help_text(topic, version@),
{
    match topic {
        HelpTopic::General => paint(Hue::Green, "fleet").concat(" ").concat(version).concat(
            "\nDimension <team@dimension.dev>\nThe blazing fast build tool for Rust.\n\n",
        ).concat(paint(Hue::Yellow, "USAGE").as_str()).concat(":\n    fleet <SUBCOMMAND>\n\n").concat(
            paint(Hue::Yellow, "OPTIONS").as_str(),
        ).concat(
            ":\n    -h, --help       Print help information\n    -V, --version    Print version information\n\n",
        ).concat(paint(Hue::Yellow, "SUBCOMMANDS").as_str()).concat(
            ":\n    build    Build a Fleet project\n    run      Run a Fleet project",
        ),
        HelpTopic::Run => action_help("run"),
        HelpTopic::Build => action_help("build"),
    }
}

fn asks_help(args: &Vec<String>) -> (r: bool)
    ensures
        r == spec_asks_help(strs(args@)),
{
    let long = String::from_str("--help");
    let short = String::from_str("-h");
    let mut i: usize = 0;
    while i < args.len()
        invariant
            i <= args@.len(),
            long@ == "--help"@,
            short@ == "-h"@,
            forall|j: int| 0 <= j < i ==> !(args@[j]@ == "--help"@ || args@[j]@ == "-h"@),
        decreases args@.len() - i,
    {
        if args[i] == long || args[i] == short {
            assert(strs(args@)[i as int] == args@[i as int]@);
            return true;
        }
        i = i + 1;
    }
    assert forall|j: int| 0 <= j < strs(args@).len() implies !(#[trigger] strs(args@)[j] == "--help"@
        || strs(args@)[j] == "-h"@) by {
        assert(strs(args@)[j] == args@[j]@);
    }
    false
}

fn tail(args: &Vec<String>, from: usize) -> (r: Vec<String>)
    requires
        from <= args@.len(),
    ensures
        strs(r@) == strs(args@).skip(from as int),
{
    let mut r: Vec<String> = Vec::new();
    let mut i: usize = from;
    while i < args.len()
        invariant
            from <= i <= args@.len(),
            strs(r@) == strs(args@).subrange(from as int, i as int),
        decreases args@.len() - i,
    {
        let ghost before = r@;
        r.push(args[i].clone());
        assert(strs(r@) =~= strs(before).push(args@[i as int]@));
        assert(strs(args@).subrange(from as int, i as int + 1) =~= strs(args@).subrange(
            from as int,
            i as int,
        ).push(args@[i as int]@));
        i = i + 1;
    }
    assert(strs(args@).subrange(from as int, i as int) =~= strs(args@).skip(from as int));
    r
}

impl CLI {
    /// Reads the arguments of the process, the program name first.
    pub fn parse_args(args: &Vec<String>) -> (r: Invocation)
        ensures
            parses_to(strs(args@), r),
    {
        if args.len() <= 1 {
            return Invocation::Help { topic: HelpTopic::General, fail: false };
        }
        let ghost sa = strs(args@);
        assert(sa[1] == args@[1]@);
        if asks_help(args) {
            return Invocation::Help { topic: help_topic(&args[1]), fail: true };
        }
        if args[1] == String::from_str("run") {
            Invocation::Dispatch { action: Command::Run, passthrough: tail(args, 2) }
        } else if args[1] == String::from_str("build") {
            Invocation::Dispatch { action: Command::Build, passthrough: tail(args, 2) }
        } else {
            Invocation::Nothing
        }
    }
}

/// What follows the end of the Cargo process: nothing on exit code 0, the
/// hints on any other end, a fatal report when it never started.
pub open spec fn spec_next_step(o: RunOutcome) -> Step {
    match o {
        RunOutcome::SpawnFailed => Step::Fatal,
        RunOutcome::Exited(code) => if code == 0 {
            Step::Done
        } else {
            Step::Diagnose
        },
        RunOutcome::Signalled => Step::Diagnose,
    }
}

/// The status the process exits with after a step, or `None` where it
/// returns to the caller.
pub open spec fn spec_exit_code(s: Step) -> Option<i32> {
    match s {
        Step::Done => None,
        _ => Some(FAILURE_EXIT_CODE),
    }
}

/// What follows the end of the Cargo process.
pub fn next_step(o: RunOutcome) -> (r: Step)
    ensures
        r == spec_next_step(o),
{
    match o {
        RunOutcome::SpawnFailed => Step::Fatal,
        RunOutcome::Exited(code) => if code == 0 {
            Step::Done
        } else {
            Step::Diagnose
        },
        RunOutcome::Signalled => Step::Diagnose,
    }
}

impl Step {
    /// The status the process exits with after this step, or `None` where it
    /// returns to the caller.
    pub fn exit_code(&self) -> (r: Option<i32>)
        ensures
            r == spec_exit_code(*self),
    {
        match self {
            Step::Done => None,
            _ => Some(FAILURE_EXIT_CODE),
        }
    }
}

/// A Cargo exit code of 0 returns to the caller with nothing more to print;
/// any other code leads to the hints and an exit with status 1, never to a
/// return. A Cargo that cannot be started is fatal, apart from a failed build.
pub proof fn law_dispatch_outcome(code: i32)
    ensures
        code == 0 ==> spec_next_step(RunOutcome::Exited(code)) == Step::Done
            && spec_exit_code(Step::Done) is None,
        code != 0 ==> spec_next_step(RunOutcome::Exited(code)) == Step::Diagnose
            && spec_exit_code(Step::Diagnose) == Some(1i32),
        spec_next_step(RunOutcome::Signalled) == Step::Diagnose,
        spec_next_step(RunOutcome::SpawnFailed) == Step::Fatal,
        spec_exit_code(Step::Fatal) == Some(1i32),
{
}

} // verus!
