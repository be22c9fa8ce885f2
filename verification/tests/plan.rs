use wpressforge::agent::exec::CommandOutput;
use wpressforge::agent::plan::{
    only, push_stage, remark_stage, required_stage, run, run_probe, no_stages, Action, HostOutcome,
    Next, Runner, Task, Verdict,
};
use wpressforge::common::error::Error;

fn done() -> Result<CommandOutput, Error> {
    Ok(CommandOutput::default())
}

fn program<'a>(n: Next<'a>) -> &'a str {
    match n {
        Next::Act(Action::Run(line)) => line.program.as_str(),
        _ => panic!("a command is run"),
    }
}

fn two_stages() -> Runner {
    let mut list = no_stages();
    push_stage(&mut list, required_stage("One", only(run("a", vec![]))));
    push_stage(&mut list, remark_stage("Note", "seen"));
    push_stage(&mut list, required_stage("Two", only(run("b", vec![]))));
    Runner::new(list)
}

#[test]
fn stages_run_in_order_and_are_reported() {
    let mut r = two_stages();
    assert_eq!(r.len(), 3);
    assert_eq!(program(r.next()), "a");
    r.advance(done(), 3);
    assert!(matches!(r.next(), Next::Act(Action::Nothing)));
    r.advance(done(), 0);
    assert_eq!(program(r.next()), "b");
    r.advance(done(), 5);
    assert!(matches!(r.next(), Next::Done));
    let steps = r.finish().expect("timeline");
    let names: Vec<&str> = steps.iter().map(|s| s.name.as_str()).collect();
    assert_eq!(names, vec!["One", "Note", "Two"]);
    assert_eq!(steps[0].duration_ms, 3);
    assert_eq!(steps[1].detail.as_deref(), Some("seen"));
}

#[test]
fn a_failure_ends_the_plan_with_its_error() {
    let mut r = two_stages();
    r.advance(Err(Error::internal("broken")), 3);
    assert!(r.failed());
    assert!(matches!(r.next(), Next::Done));
    assert_eq!(r.finish().err().expect("error").message(), Error::internal("broken").message());
}

#[test]
fn a_dry_run_skips_commands_but_not_probes() {
    let skipped = run("rm", vec![]).without_host(true).expect("skipped").expect("output");
    assert!(skipped.skipped);
    assert!(run("rm", vec![]).without_host(false).is_none());
    assert!(run_probe("df", vec![]).without_host(true).is_none());
    assert!(Action::MakeDir("/x".into()).without_host(true).is_some());
    assert!(Action::MakeDir("/x".into()).without_host(false).is_none());
    assert!(matches!(
        Action::Refuse(Error::Unauthorized).without_host(false),
        Some(Err(Error::Unauthorized))
    ));
}

#[test]
fn commands_that_fail_are_logged_without_their_secrets() {
    let line = match run("restic", vec!["--password".into(), "s3cret".into()]) {
        Action::Run(line) => line,
        other => panic!("unexpected action: {other:?}"),
    };
    let ended = line.outcome(HostOutcome::Ended {
        stdout: String::new(),
        stderr: " gone \n".into(),
        code: None,
        success: false,
    });
    match ended {
        Err(Error::Command { command, status, stderr }) => {
            assert!(!command.contains("s3cret"), "{command}");
            assert_eq!(status, -1);
            assert_eq!(stderr, "gone");
        }
        other => panic!("unexpected reply: {other:?}"),
    }
    let missing = line.outcome(HostOutcome::NotStarted("no such file".into()));
    assert!(matches!(missing, Err(Error::Command { status: -1, .. })));
}

#[test]
fn other_refusals_say_what_was_tried() {
    assert_eq!(
        Action::ReadFile("/x".into()).failure("gone").message(),
        Error::internal("reading /x: gone").message()
    );
    assert_eq!(
        Action::Restrict("/x".into()).failure("no").message(),
        Error::internal("failed to set permissions: no").message()
    );
    let write = Action::WriteFile {
        path: "/x".into(),
        contents: "c".into(),
        context: "writing: ".into(),
    };
    assert_eq!(write.failure("full").message(), Error::internal("writing: full").message());
}

#[test]
fn verdicts_look_at_more_than_success() {
    let resolves = Task {
        action: run("getent", vec![]),
        verdict: Verdict::Resolves { domain: "a.example".into(), address: None },
    };
    let here = Verdict::Resolves {
        domain: "a.example".into(),
        address: Some("203.0.113.10".into()),
    };
    let said = |text: &str| Ok(CommandOutput { stdout: text.into(), ..Default::default() });
    assert!(here.judge(None, said("2001:db8::1 a.example\n203.0.113.10    a.example\n")).is_ok());
    assert!(here.judge(None, said("203.0.113.101 a.example")).is_err());
    assert!(here.judge(None, said("198.51.100.7 203.0.113.10")).is_err());
    assert!(here.judge(None, Ok(CommandOutput::skip())).is_ok());
    assert!(resolves.verdict.judge(None, done()).is_err());
    let found = CommandOutput { stdout: "203.0.113.10".into(), ..Default::default() };
    assert!(resolves.verdict.judge(None, Ok(found)).is_ok());
    assert!(Verdict::Ignored.judge(None, Err(Error::Unauthorized)).is_ok());
    let again = Error::Command {
        command: "restic".into(),
        status: 1,
        stderr: "repository master key already initialized".into(),
    };
    assert!(Verdict::Initialised.judge(None, Err(again)).is_ok());
    assert!(Verdict::Initialised.judge(None, Err(Error::Unauthorized)).is_err());
    assert!(Verdict::Plain.judge(None, Err(Error::Unauthorized)).is_err());
    let no = CommandOutput { stdout: "false".into(), ..Default::default() };
    let kept = Verdict::Too.judge(Some(no), said("true")).expect("the first answer stands");
    assert_eq!(kept.stdout, "false");
    let yes = CommandOutput { stdout: "true\n".into(), ..Default::default() };
    let next = Verdict::Too.judge(Some(yes), said("more")).expect("the second answer counts");
    assert_eq!(next.stdout, "more");
}
