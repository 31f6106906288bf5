use fleet::cli::{help_text, help_topic, next_step, Command, HelpTopic, Invocation, RunOutcome, Step, CLI};

fn args(v: &[&str]) -> Vec<String> {
    v.iter().map(|x| x.to_string()).collect()
}

#[test]
fn no_action_shows_help() {
    match CLI::parse_args(&args(&["fleet"])) {
        Invocation::Help { topic, fail } => {
            assert_eq!(topic, HelpTopic::General);
            assert!(!fail);
        }
        other => panic!("unexpected {:?}", other),
    }
}

#[test]
fn help_flag_anywhere() {
    match CLI::parse_args(&args(&["fleet", "build", "--release", "-h"])) {
        Invocation::Help { topic, fail } => {
            assert_eq!(topic, HelpTopic::Build);
            assert!(fail);
        }
        other => panic!("unexpected {:?}", other),
    }
    match CLI::parse_args(&args(&["fleet", "frob", "--help"])) {
        Invocation::Help { topic, fail } => {
            assert_eq!(topic, HelpTopic::General);
            assert!(fail);
        }
        other => panic!("unexpected {:?}", other),
    }
}

#[test]
fn run_passes_arguments_through() {
    match CLI::parse_args(&args(&["fleet", "run", "--release", "--", "x"])) {
        Invocation::Dispatch { action, passthrough } => {
            assert_eq!(action, Command::Run);
            assert_eq!(passthrough, args(&["--release", "--", "x"]));
            assert_eq!(action.tool_args(&passthrough), args(&["run", "--release", "--", "x"]));
        }
        other => panic!("unexpected {:?}", other),
    }
}

#[test]
fn build_without_arguments() {
    match CLI::parse_args(&args(&["fleet", "build"])) {
        Invocation::Dispatch { action, passthrough } => {
            assert_eq!(action, Command::Build);
            assert!(passthrough.is_empty());
            assert_eq!(action.tool_args(&passthrough), args(&["build"]));
        }
        other => panic!("unexpected {:?}", other),
    }
}

#[test]
fn unknown_action_does_nothing() {
    assert!(matches!(CLI::parse_args(&args(&["fleet", "test"])), Invocation::Nothing));
}

#[test]
fn topics() {
    assert_eq!(help_topic(&"run".to_string()), HelpTopic::Run);
    assert_eq!(help_topic(&"build".to_string()), HelpTopic::Build);
    assert_eq!(help_topic(&"help".to_string()), HelpTopic::General);
}

#[test]
fn exit_zero_returns() {
    let s = next_step(RunOutcome::Exited(0));
    assert_eq!(s, Step::Done);
    assert_eq!(s.exit_code(), None);
}

#[test]
fn exit_101_diagnoses_and_exits_one() {
    let s = next_step(RunOutcome::Exited(101));
    assert_eq!(s, Step::Diagnose);
    assert_eq!(s.exit_code(), Some(1));
    assert_eq!(next_step(RunOutcome::Exited(-1)), Step::Diagnose);
    assert_eq!(next_step(RunOutcome::Signalled), Step::Diagnose);
}

#[test]
fn spawn_failure_is_fatal() {
    let s = next_step(RunOutcome::SpawnFailed);
    assert_eq!(s, Step::Fatal);
    assert_eq!(s.exit_code(), Some(1));
}

#[test]
fn help_texts() {
    let g = help_text(HelpTopic::General, "1.2.3");
    assert!(g.starts_with("\x1b[32mfleet\x1b[0m 1.2.3\nDimension <team@dimension.dev>\n"));
    assert!(g.ends_with("    build    Build a Fleet project\n    run      Run a Fleet project"));
    assert!(g.contains("\x1b[33mUSAGE\x1b[0m:\n    fleet <SUBCOMMAND>\n"));
    let r = help_text(HelpTopic::Run, "1.2.3");
    assert_eq!(
        r,
        "\x1b[33mUSAGE\x1b[0m:\n    fleet run [CARGO OPTIONS]\n\nWrites .cargo/config.toml, then runs `cargo run` with the given options."
    );
    assert!(help_text(HelpTopic::Build, "").contains("`cargo build`"));
}
