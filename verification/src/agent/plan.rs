//! Plans: what an operation asks of the host, stage by stage, and the machine
//! that walks through one.
//!
//! An operation is a list of stages, each a list of tasks. Whoever talks to the
//! host performs the current task and hands its outcome back; what happens next
//! is decided here.

use vstd::prelude::*;
use vstd::slice::slice_subrange;
use crate::agent::exec;
use crate::agent::exec::{CommandOutput, OutputView, Steps};
use crate::common::error::{Error, ErrorView};
use crate::common::protocol;
use crate::common::protocol::{StepReport, StepReportView};
use crate::text;

verus! {

// ---------------------------------------------------------------------------
// Actions
// ---------------------------------------------------------------------------

/// A program and its arguments, which are never put through a shell.
#[derive(Debug)]
pub struct CommandLine {
    pub program: String,
    pub args: Vec<String>,
    pub env: Vec<(String, String)>,
    /// Reads and changes nothing, so it runs in dry-run too.
    pub probe: bool,
}

/// [`CommandLine`] with its texts as sequences of characters.
pub struct CommandView {
    pub program: Seq<char>,
    pub args: Seq<Seq<char>>,
    pub env: Seq<(Seq<char>, Seq<char>)>,
    pub probe: bool,
}

impl View for CommandLine {
    type V = CommandView;

    open spec fn view(&self) -> CommandView {
        CommandView {
            program: self.program@,
            args: text::texts(self.args@),
            env: protocol::pairs(self.env@),
            probe: self.probe,
        }
    }
}

/// One thing that the host is asked to do.
#[derive(Debug)]
pub enum Action {
    Nothing,
    /// Fails without asking the host.
    Refuse(Error),
    Run(CommandLine),
    MakeDir(String),
    /// Writes a file; `context` goes before the reason when that fails.
    WriteFile { path: String, contents: String, context: String },
    /// Makes a file readable by its owner alone.
    Restrict(String),
    /// Reads a file; what it holds is the output.
    ReadFile(String),
    /// Removes a file if it is there.
    RemoveFile(String),
}

/// [`Action`] with its texts as sequences of characters.
pub enum ActionView {
    Nothing,
    Refuse(ErrorView),
    Run(CommandView),
    MakeDir(Seq<char>),
    WriteFile { path: Seq<char>, contents: Seq<char>, context: Seq<char> },
    Restrict(Seq<char>),
    ReadFile(Seq<char>),
    RemoveFile(Seq<char>),
}

impl View for Action {
    type V = ActionView;

    open spec fn view(&self) -> ActionView {
        match self {
            Action::Nothing => ActionView::Nothing,
            Action::Refuse(e) => ActionView::Refuse(e@),
            Action::Run(c) => ActionView::Run(c@),
            Action::MakeDir(path) => ActionView::MakeDir(path@),
            Action::WriteFile { path, contents, context } => ActionView::WriteFile {
                path: path@,
                contents: contents@,
                context: context@,
            },
            Action::Restrict(path) => ActionView::Restrict(path@),
            Action::ReadFile(path) => ActionView::ReadFile(path@),
            Action::RemoveFile(path) => ActionView::RemoveFile(path@),
        }
    }
}

/// Runs `program` with `args` unless in dry-run.
pub open spec fn command(program: Seq<char>, args: Seq<Seq<char>>) -> ActionView {
    ActionView::Run(CommandView { program, args, env: Seq::empty(), probe: false })
}

/// Runs `program` with `args`, in dry-run too.
pub open spec fn probe(program: Seq<char>, args: Seq<Seq<char>>) -> ActionView {
    ActionView::Run(CommandView { program, args, env: Seq::empty(), probe: true })
}

/// Executable form of [`command`].
pub fn run(program: &str, args: Vec<String>) -> (a: Action)
    ensures
        a@ == command(program@, text::texts(args@)),
{
    let env: Vec<(String, String)> = Vec::new();
    assert(protocol::pairs(env@) =~= Seq::empty());
    Action::Run(CommandLine { program: program.to_owned(), args, env, probe: false })
}

/// Executable form of [`probe`].
pub fn run_probe(program: &str, args: Vec<String>) -> (a: Action)
    ensures
        a@ == probe(program@, text::texts(args@)),
{
    let env: Vec<(String, String)> = Vec::new();
    assert(protocol::pairs(env@) =~= Seq::empty());
    Action::Run(CommandLine { program: program.to_owned(), args, env, probe: true })
}

/// What an action comes to without asking the host: nothing is done for an empty
/// action or a refusal, and in dry-run nothing that would change the host.
pub open spec fn without_host(dry_run: bool, a: ActionView) -> Option<
    Result<OutputView, ErrorView>,
> {
    match a {
        ActionView::Nothing => Some(Ok(OutputView::silent())),
        ActionView::Refuse(e) => Some(Err(e)),
        ActionView::Run(c) => if dry_run && !c.probe {
            Some(Ok(OutputView::skip()))
        } else {
            None
        },
        ActionView::ReadFile(_) => None,
        _ => if dry_run {
            Some(Ok(OutputView::silent()))
        } else {
            None
        },
    }
}

/// The view of a reply.
pub open spec fn reply_view(r: Result<CommandOutput, Error>) -> Result<OutputView, ErrorView> {
    match r {
        Ok(o) => Ok(o@),
        Err(e) => Err(e@),
    }
}

impl Action {
    /// Executable form of [`without_host`].
    pub fn without_host(&self, dry_run: bool) -> (r: Option<Result<CommandOutput, Error>>)
        ensures
            match r {
                Some(reply) => without_host(dry_run, self@) == Some(reply_view(reply)),
                None => without_host(dry_run, self@) is None,
            },
    {
        match self {
            Action::Nothing => Some(Ok(CommandOutput::default())),
            Action::Refuse(e) => Some(Err(e.clone())),
            Action::Run(c) => if dry_run && !c.probe {
                Some(Ok(CommandOutput::skip()))
            } else {
                None
            },
            Action::ReadFile(_) => None,
            _ => if dry_run {
                Some(Ok(CommandOutput::default()))
            } else {
                None
            },
        }
    }

    /// The error that stands for the host's refusal of something other than a command.
    pub open spec fn spec_failure(self, reason: Seq<char>) -> ErrorView {
        match self@ {
            ActionView::WriteFile { context, .. } => ErrorView::Internal(context + reason),
            ActionView::Restrict(_) => ErrorView::Internal(
                "failed to set permissions: "@ + reason,
            ),
            ActionView::ReadFile(path) => ErrorView::Internal(
                "reading "@ + path + ": "@ + reason,
            ),
            _ => ErrorView::Internal(reason),
        }
    }

    /// The error that stands for the host's refusal of something other than a command.
    pub fn failure(&self, reason: &str) -> (e: Error)
        ensures
            e@ == self.spec_failure(reason@),
    {
        match self {
            Action::WriteFile { context, .. } => Error::Internal(
                text::cat2(context.as_str(), reason),
            ),
            Action::Restrict(_) => Error::Internal(
                text::cat2("failed to set permissions: ", reason),
            ),
            Action::ReadFile(path) => Error::Internal(
                text::cat4("reading ", path.as_str(), ": ", reason),
            ),
            _ => Error::Internal(reason.to_owned()),
        }
    }
}

/// What the host tells of a command.
pub enum HostOutcome {
    /// The program could not be started.
    NotStarted(String),
    /// The program ended: its output, the code it exited with unless a signal
    /// ended it, and whether it succeeded.
    Ended { stdout: String, stderr: String, code: Option<i32>, success: bool },
}

impl CommandLine {
    /// What a command comes to, given what the host tells of it. Errors hold the
    /// loggable form of the command.
    pub open spec fn spec_outcome(self, outcome: HostOutcome) -> Result<OutputView, ErrorView> {
        let printable = exec::redacted(self@.program, self@.args);
        match outcome {
            HostOutcome::NotStarted(reason) => Err(
                ErrorView::Command { command: printable, status: -1i32, stderr: reason@ },
            ),
            HostOutcome::Ended { stdout, stderr, code, success } => {
                let exit_code = match code {
                    Some(c) => c,
                    None => -1i32,
                };
                if success {
                    Ok(
                        OutputView {
                            stdout: stdout@,
                            stderr: stderr@,
                            exit_code,
                            skipped: false,
                        },
                    )
                } else {
                    Err(
                        ErrorView::Command {
                            command: printable,
                            status: exit_code,
                            stderr: text::trim(stderr@, text::Class::White),
                        },
                    )
                }
            },
        }
    }

    /// Executable form of [`CommandLine::spec_outcome`].
    pub fn outcome(&self, outcome: HostOutcome) -> (r: Result<CommandOutput, Error>)
        ensures
            reply_view(r) == self.spec_outcome(outcome),
    {
        let printable = exec::redact_command(self.program.as_str(), &self.args);
        match outcome {
            HostOutcome::NotStarted(reason) => Err(
                Error::Command { command: printable, status: -1, stderr: reason },
            ),
            HostOutcome::Ended { stdout, stderr, code, success } => {
                let exit_code: i32 = match code {
                    Some(c) => c,
                    None => -1,
                };
                if success {
                    Ok(CommandOutput { stdout, stderr, exit_code, skipped: false })
                } else {
                    Err(
                        Error::Command {
                            command: printable,
                            status: exit_code,
                            stderr: text::trimmed_text(stderr.as_str()),
                        },
                    )
                }
            },
        }
    }
}

// ---------------------------------------------------------------------------
// Stages
// ---------------------------------------------------------------------------

/// How the outcome of a task is read.
#[derive(Debug)]
pub enum Verdict {
    /// As it is.
    Plain,
    /// As the answer to whether a domain resolves, and to this address where one is
    /// given.
    Resolves { domain: String, address: Option<String> },
    /// As the creation of a repository, which may already be there.
    Initialised,
    /// As a success, whatever it is.
    Ignored,
    /// As a second answer, where a failure is no `true`: it counts where the task before
    /// printed `true`, and else what that task printed stands.
    Too,
}

/// [`Verdict`] with its texts as sequences of characters.
pub enum VerdictView {
    Plain,
    Resolves { domain: Seq<char>, address: Option<Seq<char>> },
    Initialised,
    Ignored,
    Too,
}

impl View for Verdict {
    type V = VerdictView;

    open spec fn view(&self) -> VerdictView {
        match self {
            Verdict::Plain => VerdictView::Plain,
            Verdict::Resolves { domain, address } => VerdictView::Resolves {
                domain: domain@,
                address: text::text_opt(*address),
            },
            Verdict::Initialised => VerdictView::Initialised,
            Verdict::Ignored => VerdictView::Ignored,
            Verdict::Too => VerdictView::Too,
        }
    }
}

/// The first word of a line.
pub open spec fn first_word(line: Seq<char>) -> Seq<char> {
    line.take(text::prefix_len(line, text::Class::NotWhite))
}

/// A list of hosts names an address: some line starts with it.
pub open spec fn names_address(hosts: Seq<char>, address: Seq<char>) -> bool {
    exists|i: int|
        0 <= i < text::lines(hosts).len() && first_word(#[trigger] text::lines(hosts)[i])
            == address
}

/// Executable form of [`names_address`].
pub fn has_address(hosts: &str, address: &str) -> (r: bool)
    ensures
        r == names_address(hosts@, address@),
{
    let cs = text::chars_of(hosts);
    let lines = text::lines_of(cs.as_slice());
    let ghost all = text::lines(hosts@);
    let mut i: usize = 0;
    while i < lines.len()
        invariant
            i <= lines@.len(),
            all == text::rows(lines@),
            all == text::lines(hosts@),
            forall|j: int| 0 <= j < i ==> first_word(#[trigger] all[j]) != address@,
        decreases lines@.len() - i,
    {
        assert(all[i as int] == lines@[i as int]@);
        let line = lines[i].as_slice();
        let n = text::prefix(line, text::Class::NotWhite);
        let word = slice_subrange(line, 0, n);
        assert(word@ =~= first_word(all[i as int]));
        let word = text::string_of(word);
        if text::same(word.as_str(), address) {
            return true;
        }
        i += 1;
    }
    false
}

/// A domain resolves, and to the address where one is given; in dry-run it is taken to.
pub open spec fn resolves(out: OutputView, address: Option<Seq<char>>) -> bool {
    out.skipped || match address {
        None => out.trimmed().len() > 0,
        Some(a) => names_address(out.stdout, a),
    }
}

/// A task printed `true`; in dry-run it is taken to.
pub open spec fn says_yes(out: OutputView) -> bool {
    out.skipped || out.trimmed() == "true"@
}

/// Executable form of [`says_yes`].
pub fn said_yes(out: &CommandOutput) -> (r: bool)
    ensures
        r == says_yes(out@),
{
    let shown = out.trimmed_stdout();
    out.skipped || text::same(shown.as_str(), "true")
}

/// What a reply comes to under a verdict, given what the task before it in its stage
/// printed.
pub open spec fn judge(
    v: VerdictView,
    said: Option<OutputView>,
    reply: Result<OutputView, ErrorView>,
) -> Result<OutputView, ErrorView> {
    match v {
        VerdictView::Plain => reply,
        VerdictView::Resolves { domain, address } => {
            let unresolved = ErrorView::Invalid(
                domain + " does not resolve yet; point DNS at this server first"@,
            );
            match reply {
                Ok(out) => if resolves(out, address) {
                    Ok(out)
                } else {
                    Err(unresolved)
                },
                Err(_) => Err(unresolved),
            }
        },
        VerdictView::Initialised => match reply {
            Ok(out) => Ok(out),
            Err(e) => if text::has(e.message(), "repository master key already initialized"@) {
                Ok(OutputView::silent())
            } else {
                Err(e)
            },
        },
        VerdictView::Ignored => match reply {
            Ok(out) => Ok(out),
            Err(_) => Ok(OutputView::silent()),
        },
        VerdictView::Too => if said is Some && !says_yes(said->0) {
            Ok(said->0)
        } else {
            match reply {
                Ok(out) => Ok(out),
                Err(_) => Ok(OutputView::silent()),
            }
        },
    }
}

/// A domain passes only where it was found to point at the address asked for, or, where
/// none was, to point anywhere; who could not be asked does not pass.
pub proof fn law_domains_have_to_point_here(
    domain: Seq<char>,
    address: Seq<char>,
    said: Option<OutputView>,
    out: OutputView,
    e: ErrorView,
)
    requires
        !out.skipped,
    ensures
        judge(VerdictView::Resolves { domain, address: Some(address) }, said, Ok(out)) is Ok <==>
            exists|i: int|
            0 <= i < text::lines(out.stdout).len() && first_word(
                #[trigger] text::lines(out.stdout)[i],
            ) == address,
        judge(VerdictView::Resolves { domain, address: None }, said, Ok(out)) is Ok <==> text::trim(
            out.stdout,
            text::Class::White,
        ).len() > 0,
        judge(VerdictView::Resolves { domain, address: Some(address) }, said, Err(e)) is Err,
        judge(VerdictView::Resolves { domain, address: None }, said, Err(e)) is Err,
{
}

/// Where two questions are asked one after another, the answer is yes only where both were
/// answered with yes; a second question that fails is no yes.
pub proof fn law_both_questions_need_a_yes(
    first: OutputView,
    reply: Result<OutputView, ErrorView>,
)
    ensures
        judge(VerdictView::Too, Some(first), reply) matches Ok(out) && (says_yes(out) ==> says_yes(
            first,
        ) && (reply matches Ok(second) && says_yes(second))),
{
    reveal_strlit("true");
    let none = OutputView::silent().stdout;
    assert(text::trim_start(none, text::Class::White).len() == 0);
    assert(text::trim(none, text::Class::White).len() == 0);
}

impl Verdict {
    /// Executable form of [`judge`].
    pub fn judge(&self, said: Option<CommandOutput>, reply: Result<CommandOutput, Error>) -> (r:
        Result<CommandOutput, Error>)
        ensures
            reply_view(r) == judge(self@, output_view(said), reply_view(reply)),
    {
        match self {
            Verdict::Plain => reply,
            Verdict::Resolves { domain, address } => {
                let unresolved = Error::Invalid(
                    text::cat2(
                        domain.as_str(),
                        " does not resolve yet; point DNS at this server first",
                    ),
                );
                match reply {
                    Ok(out) => {
                        let found = match address {
                            None => {
                                let shown = out.trimmed_stdout();
                                let cs = text::chars_of(shown.as_str());
                                cs.len() > 0
                            },
                            Some(a) => has_address(out.stdout.as_str(), a.as_str()),
                        };
                        if out.skipped || found {
                            Ok(out)
                        } else {
                            Err(unresolved)
                        }
                    },
                    Err(_) => Err(unresolved),
                }
            },
            Verdict::Initialised => match reply {
                Ok(out) => Ok(out),
                Err(e) => {
                    let message = e.message();
                    if text::has_text(
                        message.as_str(),
                        "repository master key already initialized",
                    ) {
                        Ok(CommandOutput::default())
                    } else {
                        Err(e)
                    }
                },
            },
            Verdict::Ignored => match reply {
                Ok(out) => Ok(out),
                Err(_) => Ok(CommandOutput::default()),
            },
            Verdict::Too => {
                if let Some(out) = said {
                    if !said_yes(&out) {
                        return Ok(out);
                    }
                }
                match reply {
                    Ok(out) => Ok(out),
                    Err(_) => Ok(CommandOutput::default()),
                }
            },
        }
    }
}

/// An action, and how its outcome is read.
#[derive(Debug)]
pub struct Task {
    pub action: Action,
    pub verdict: Verdict,
}

/// [`Task`] with its texts as sequences of characters.
pub struct TaskView {
    pub action: ActionView,
    pub verdict: VerdictView,
}

impl View for Task {
    type V = TaskView;

    open spec fn view(&self) -> TaskView {
        TaskView { action: self.action@, verdict: self.verdict@ }
    }
}

/// What a stage adds to the timeline once it has succeeded.
#[derive(Debug)]
pub enum Note {
    Quiet,
    /// The version that the last task printed, under a name.
    Version(String),
    /// What the last task printed, under a name.
    Stdout(String),
    /// A fixed remark.
    Fixed { name: String, detail: String },
}

/// [`Note`] with its texts as sequences of characters.
pub enum NoteView {
    Quiet,
    Version(Seq<char>),
    Stdout(Seq<char>),
    Fixed { name: Seq<char>, detail: Seq<char> },
}

impl View for Note {
    type V = NoteView;

    open spec fn view(&self) -> NoteView {
        match self {
            Note::Quiet => NoteView::Quiet,
            Note::Version(name) => NoteView::Version(name@),
            Note::Stdout(name) => NoteView::Stdout(name@),
            Note::Fixed { name, detail } => NoteView::Fixed { name: name@, detail: detail@ },
        }
    }
}

/// What a failing stage means for the plan.
#[derive(Debug)]
pub enum OnError {
    /// The operation fails.
    Abort,
    /// The next stage follows.
    Continue,
    /// The next stages are left out, and a remark says why.
    Skip { stages: usize, note: String },
}

/// [`OnError`] with its texts as sequences of characters.
pub enum OnErrorView {
    Abort,
    Continue,
    Skip { stages: nat, note: Seq<char> },
}

impl View for OnError {
    type V = OnErrorView;

    open spec fn view(&self) -> OnErrorView {
        match self {
            OnError::Abort => OnErrorView::Abort,
            OnError::Continue => OnErrorView::Continue,
            OnError::Skip { stages, note } => OnErrorView::Skip {
                stages: *stages as nat,
                note: note@,
            },
        }
    }
}

/// One stage of a plan.
#[derive(Debug)]
pub struct Stage {
    pub name: String,
    pub tasks: Vec<Task>,
    /// The stage appears in the timeline.
    pub reported: bool,
    pub note: Note,
    /// How many of the next stages are left out once this one has succeeded.
    pub skip_on_ok: usize,
    pub on_error: OnError,
}

/// [`Stage`] with its texts as sequences of characters.
pub struct StageView {
    pub name: Seq<char>,
    pub tasks: Seq<TaskView>,
    pub reported: bool,
    pub note: NoteView,
    pub skip_on_ok: nat,
    pub on_error: OnErrorView,
}

/// The views of a list of tasks.
pub open spec fn tasks(v: Seq<Task>) -> Seq<TaskView> {
    v.map_values(|t: Task| t@)
}

impl View for Stage {
    type V = StageView;

    open spec fn view(&self) -> StageView {
        StageView {
            name: self.name@,
            tasks: tasks(self.tasks@),
            reported: self.reported,
            note: self.note@,
            skip_on_ok: self.skip_on_ok as nat,
            on_error: self.on_error@,
        }
    }
}

/// The views of a list of stages.
pub open spec fn stages(v: Seq<Stage>) -> Seq<StageView> {
    v.map_values(|s: Stage| s@)
}

/// A task whose outcome is read as it is.
pub open spec fn plain(action: ActionView) -> TaskView {
    TaskView { action, verdict: VerdictView::Plain }
}

/// A stage of the timeline whose failure fails the operation.
pub open spec fn required(name: Seq<char>, tasks: Seq<TaskView>) -> StageView {
    StageView {
        name,
        tasks,
        reported: true,
        note: NoteView::Quiet,
        skip_on_ok: 0,
        on_error: OnErrorView::Abort,
    }
}

/// A stage that is not in the timeline and whose failure fails the operation.
pub open spec fn silent(tasks: Seq<TaskView>) -> StageView {
    StageView { reported: false, ..required(""@, tasks) }
}

/// A stage that is not in the timeline and whose failure changes nothing.
pub open spec fn attempt(tasks: Seq<TaskView>) -> StageView {
    StageView { on_error: OnErrorView::Continue, ..silent(tasks) }
}

/// A remark in the timeline.
pub open spec fn remark(name: Seq<char>, detail: Seq<char>) -> StageView {
    StageView {
        note: NoteView::Fixed { name, detail },
        ..silent(seq![plain(ActionView::Nothing)])
    }
}

/// Executable form of [`plain`].
pub fn plain_task(action: Action) -> (t: Task)
    ensures
        t@ == plain(action@),
{
    Task { action, verdict: Verdict::Plain }
}

/// A list holding no tasks.
pub fn no_tasks() -> (v: Vec<Task>)
    ensures
        tasks(v@) == Seq::<TaskView>::empty(),
{
    let v: Vec<Task> = Vec::new();
    assert(tasks(v@) =~= Seq::empty());
    v
}

/// Appends a task.
pub fn push_task(v: &mut Vec<Task>, t: Task)
    ensures
        tasks(final(v)@) == tasks(old(v)@).push(t@),
{
    v.push(t);
    assert(tasks(v@) =~= tasks(old(v)@).push(t@));
}

/// Appends a task whose outcome is read as it is.
pub fn push_action(v: &mut Vec<Task>, action: Action)
    ensures
        tasks(final(v)@) == tasks(old(v)@).push(plain(action@)),
{
    push_task(v, plain_task(action));
}

/// The only task of a stage.
pub fn only(action: Action) -> (v: Vec<Task>)
    ensures
        tasks(v@) == seq![plain(action@)],
{
    let mut v = no_tasks();
    push_action(&mut v, action);
    v
}

/// Executable form of [`required`].
pub fn required_stage(name: &str, list: Vec<Task>) -> (s: Stage)
    ensures
        s@ == required(name@, tasks(list@)),
{
    Stage {
        name: name.to_owned(),
        tasks: list,
        reported: true,
        note: Note::Quiet,
        skip_on_ok: 0,
        on_error: OnError::Abort,
    }
}

/// Executable form of [`silent`].
pub fn silent_stage(list: Vec<Task>) -> (s: Stage)
    ensures
        s@ == silent(tasks(list@)),
{
    Stage {
        name: "".to_owned(),
        tasks: list,
        reported: false,
        note: Note::Quiet,
        skip_on_ok: 0,
        on_error: OnError::Abort,
    }
}

/// Executable form of [`attempt`].
pub fn attempt_stage(list: Vec<Task>) -> (s: Stage)
    ensures
        s@ == attempt(tasks(list@)),
{
    Stage {
        name: "".to_owned(),
        tasks: list,
        reported: false,
        note: Note::Quiet,
        skip_on_ok: 0,
        on_error: OnError::Continue,
    }
}

/// Executable form of [`remark`].
pub fn remark_stage(name: &str, detail: &str) -> (s: Stage)
    ensures
        s@ == remark(name@, detail@),
{
    let list = only(Action::Nothing);
    Stage {
        name: "".to_owned(),
        tasks: list,
        reported: false,
        note: Note::Fixed { name: name.to_owned(), detail: detail.to_owned() },
        skip_on_ok: 0,
        on_error: OnError::Abort,
    }
}

/// A plan holding no stages.
pub fn no_stages() -> (v: Vec<Stage>)
    ensures
        stages(v@) == Seq::<StageView>::empty(),
{
    let v: Vec<Stage> = Vec::new();
    assert(stages(v@) =~= Seq::empty());
    v
}

/// Appends a stage.
pub fn push_stage(v: &mut Vec<Stage>, s: Stage)
    ensures
        stages(final(v)@) == stages(old(v)@).push(s@),
{
    v.push(s);
    assert(stages(v@) =~= stages(old(v)@).push(s@));
}

// ---------------------------------------------------------------------------
// Walking through a plan
// ---------------------------------------------------------------------------

/// How far a plan is.
pub struct RunnerView {
    pub plan: Seq<StageView>,
    /// The stage that is being worked on.
    pub stage: int,
    /// The task of that stage that is next.
    pub task: int,
    /// The timeline so far.
    pub reports: Seq<StepReportView>,
    /// What the last task of each stage printed; nothing for a stage that failed
    /// or was left out.
    pub outputs: Seq<Option<OutputView>>,
    /// What the task before the next one printed, in the same stage.
    pub said: Option<OutputView>,
    /// The error that ended the operation.
    pub error: Option<ErrorView>,
}

/// The version that a command printed.
pub open spec fn version_of(out: OutputView) -> Seq<char> {
    if out.skipped {
        "unknown"@
    } else {
        out.trimmed()
    }
}

/// Executable form of [`version_of`].
pub fn version_text(out: &CommandOutput) -> (s: String)
    ensures
        s@ == version_of(out@),
{
    if out.skipped {
        "unknown".to_owned()
    } else {
        out.trimmed_stdout()
    }
}

/// The remarks that a successful stage leaves.
pub open spec fn notes_of(note: NoteView, out: OutputView) -> Seq<StepReportView> {
    match note {
        NoteView::Quiet => Seq::empty(),
        NoteView::Version(name) => seq![exec::note_report(name, version_of(out))],
        NoteView::Stdout(name) => seq![exec::note_report(name, out.stdout)],
        NoteView::Fixed { name, detail } => seq![exec::note_report(name, detail)],
    }
}

/// `n` stages without output.
pub open spec fn blanks(n: int) -> Seq<Option<OutputView>> {
    Seq::new(n as nat, |i: int| None::<OutputView>)
}

impl RunnerView {
    /// A plan of which nothing has been done.
    pub open spec fn start(plan: Seq<StageView>) -> RunnerView {
        RunnerView {
            plan,
            stage: 0,
            task: 0,
            reports: Seq::empty(),
            outputs: Seq::empty(),
            said: None,
            error: None,
        }
    }

    /// A plan of which nothing has been done, after steps that were taken before.
    pub open spec fn resume(plan: Seq<StageView>, earlier: Seq<StepReportView>) -> RunnerView {
        RunnerView { reports: earlier, ..RunnerView::start(plan) }
    }

    /// Nothing is left to do.
    pub open spec fn done(self) -> bool {
        self.error is Some || self.stage >= self.plan.len()
    }

    /// The task that is next; a stage without tasks does nothing.
    pub open spec fn current(self) -> TaskView {
        let list = self.plan[self.stage].tasks;
        if 0 <= self.task < list.len() {
            list[self.task]
        } else {
            plain(ActionView::Nothing)
        }
    }

    /// The stage that comes after leaving out `skip` of them.
    pub open spec fn after(self, skip: nat) -> int {
        if self.stage + 1 + skip < self.plan.len() {
            self.stage + 1 + skip
        } else {
            self.plan.len() as int
        }
    }

    /// The current stage has succeeded with `out`.
    pub open spec fn succeed(self, out: OutputView, ms: u64) -> RunnerView {
        let stage = self.plan[self.stage];
        let next = self.after(stage.skip_on_ok);
        RunnerView {
            stage: next,
            task: 0,
            reports: self.reports + (if stage.reported {
                seq![exec::step_report(stage.name, None, ms)]
            } else {
                Seq::empty()
            }) + notes_of(stage.note, out),
            outputs: self.outputs.push(Some(out)) + blanks(next - self.stage - 1),
            said: None,
            ..self
        }
    }

    /// The current stage has failed with `e`.
    pub open spec fn fail(self, e: ErrorView, ms: u64) -> RunnerView {
        let stage = self.plan[self.stage];
        let reports = self.reports + (if stage.reported {
            seq![exec::step_report(stage.name, Some(e), ms)]
        } else {
            Seq::empty()
        });
        match stage.on_error {
            OnErrorView::Abort => RunnerView { reports, said: None, error: Some(e), ..self },
            OnErrorView::Continue => RunnerView {
                stage: self.stage + 1,
                task: 0,
                reports,
                outputs: self.outputs.push(None),
                said: None,
                ..self
            },
            OnErrorView::Skip { stages, note } => {
                let next = self.after(stages);
                RunnerView {
                    stage: next,
                    task: 0,
                    reports: reports.push(exec::note_report(note, "skipped: "@ + e.message())),
                    outputs: self.outputs + blanks(next - self.stage),
                    said: None,
                    ..self
                }
            },
        }
    }

    /// The current task came back with `reply`, `ms` milliseconds after its stage
    /// was begun.
    pub open spec fn advance(self, reply: Result<OutputView, ErrorView>, ms: u64) -> RunnerView {
        match judge(self.current().verdict, self.said, reply) {
            Ok(out) => if self.task + 1 < self.plan[self.stage].tasks.len() {
                RunnerView { task: self.task + 1, said: Some(out), ..self }
            } else {
                self.succeed(out, ms)
            },
            Err(e) => self.fail(e, ms),
        }
    }

    /// The stage pointer lies in the plan and every stage before it has a place
    /// in the outputs.
    pub open spec fn wf(self) -> bool {
        &&& 0 <= self.stage <= self.plan.len()
        &&& 0 <= self.task
        &&& self.outputs.len() == self.stage
    }

    /// What the stage `i` printed.
    pub open spec fn output(self, i: int) -> Option<OutputView> {
        if 0 <= i < self.outputs.len() {
            self.outputs[i]
        } else {
            None
        }
    }
}

/// What is to be done next.
pub enum Next<'a> {
    /// Perform this action and hand back its outcome.
    Act(&'a Action),
    /// Hand back an empty outcome.
    Idle,
    /// Nothing is left to do.
    Done,
}

/// A plan being walked through.
pub struct Runner {
    plan: Vec<Stage>,
    stage: usize,
    task: usize,
    steps: Steps,
    outputs: Vec<Option<CommandOutput>>,
    said: Option<CommandOutput>,
    error: Option<Error>,
}

/// The views of the outputs.
pub open spec fn outputs(v: Seq<Option<CommandOutput>>) -> Seq<Option<OutputView>> {
    v.map_values(|o: Option<CommandOutput>| output_view(o))
}

/// The view of an output.
pub open spec fn output_view(o: Option<CommandOutput>) -> Option<OutputView> {
    match o {
        Some(out) => Some(out@),
        None => None,
    }
}

impl View for Runner {
    type V = RunnerView;

    closed spec fn view(&self) -> RunnerView {
        RunnerView {
            plan: stages(self.plan@),
            stage: self.stage as int,
            task: self.task as int,
            reports: self.steps@,
            outputs: outputs(self.outputs@),
            said: output_view(self.said),
            error: match self.error {
                Some(e) => Some(e@),
                None => None,
            },
        }
    }
}

impl Runner {
    /// A plan of which nothing has been done.
    pub fn new(plan: Vec<Stage>) -> (r: Runner)
        ensures
            r@ == RunnerView::start(stages(plan@)),
            r@.wf(),
    {
        let printed: Vec<Option<CommandOutput>> = Vec::new();
        assert(outputs(printed@) =~= Seq::empty());
        Runner {
            plan,
            stage: 0,
            task: 0,
            steps: Steps::new(),
            outputs: printed,
            said: None,
            error: None,
        }
    }

    /// A plan of which nothing has been done, after steps that were taken before.
    pub fn resume(plan: Vec<Stage>, earlier: Vec<StepReport>) -> (r: Runner)
        ensures
            r@ == RunnerView::resume(stages(plan@), protocol::reports(earlier@)),
            r@.wf(),
    {
        let printed: Vec<Option<CommandOutput>> = Vec::new();
        assert(outputs(printed@) =~= Seq::empty());
        Runner {
            plan,
            stage: 0,
            task: 0,
            steps: Steps::after(earlier),
            outputs: printed,
            said: None,
            error: None,
        }
    }

    /// What is to be done next.
    pub fn next(&self) -> (n: Next<'_>)
        ensures
            match n {
                Next::Act(action) => !self@.done() && action@ == self@.current().action,
                Next::Idle => !self@.done() && self@.current().action is Nothing,
                Next::Done => self@.done(),
            },
    {
        if self.error.is_some() || self.stage >= self.plan.len() {
            return Next::Done;
        }
        let list = &self.plan[self.stage].tasks;
        if self.task < list.len() {
            Next::Act(&list[self.task].action)
        } else {
            Next::Idle
        }
    }

    /// The outcome of the current task, `ms` milliseconds after its stage was begun.
    pub fn advance(&mut self, reply: Result<CommandOutput, Error>, ms: u64)
        requires
            old(self)@.wf(),
            !old(self)@.done(),
        ensures
            final(self)@ == old(self)@.advance(reply_view(reply), ms),
            final(self)@.wf(),
    {
        let ghost before = self@;
        let count = self.plan[self.stage].tasks.len();
        let said = self.said.take();
        let judged = if self.task < count {
            self.plan[self.stage].tasks[self.task].verdict.judge(said, reply)
        } else {
            reply
        };
        match judged {
            Ok(out) => {
                if count > 0 && self.task < count - 1 {
                    self.task = self.task + 1;
                    self.said = Some(out);
                } else {
                    self.succeed(out, ms);
                }
            },
            Err(e) => {
                self.fail(e, ms);
            },
        }
    }

    /// The current stage has succeeded.
    fn succeed(&mut self, out: CommandOutput, ms: u64)
        requires
            old(self)@.wf(),
            old(self)@.said is None,
            !old(self)@.done(),
        ensures
            final(self)@ == old(self)@.succeed(out@, ms),
            final(self)@.wf(),
    {
        let ghost before = self@;
        let total = self.plan.len();
        assert(self.stage < total);
        let name = self.plan[self.stage].name.clone();
        let reported = self.plan[self.stage].reported;
        if reported {
            self.steps.step(name.as_str(), None, ms);
        }
        let ghost mid = self.steps@;
        assert(mid =~= before.reports + (if reported {
            seq![exec::step_report(name@, None, ms)]
        } else {
            Seq::empty()
        }));
        match &self.plan[self.stage].note {
            Note::Quiet => {},
            Note::Version(label) => {
                let version = version_text(&out);
                self.steps.note(label.as_str(), version.as_str());
            },
            Note::Stdout(label) => {
                self.steps.note(label.as_str(), out.stdout.as_str());
            },
            Note::Fixed { name: label, detail } => {
                self.steps.note(label.as_str(), detail.as_str());
            },
        }
        assert(self.steps@ =~= mid + notes_of(before.plan[before.stage].note, out@));
        let skip = self.plan[self.stage].skip_on_ok;
        self.outputs.push(Some(out));
        assert(outputs(self.outputs@) =~= before.outputs.push(Some(out@)));
        self.stage = self.stage + 1;
        self.task = 0;
        self.leave_out(skip);
        assert(self@.reports =~= before.succeed(out@, ms).reports);
        assert(self@.outputs =~= before.succeed(out@, ms).outputs);
    }

    /// Leaves out the next stages, as far as there are any.
    fn leave_out(&mut self, skip: usize)
        requires
            old(self)@.wf(),
        ensures
            final(self)@ == (RunnerView {
                stage: final(self)@.stage,
                outputs: old(self)@.outputs + blanks(final(self)@.stage - old(self)@.stage),
                ..old(self)@
            }),
            final(self)@.stage == if old(self)@.stage + skip < old(self)@.plan.len() {
                old(self)@.stage + skip
            } else {
                old(self)@.plan.len() as int
            },
            final(self)@.wf(),
    {
        let ghost before = self@;
        let mut left: usize = skip;
        assert(self@.outputs =~= before.outputs + blanks(0));
        while left > 0 && self.stage < self.plan.len()
            invariant
                left <= skip,
                self@.wf(),
                before.stage <= self@.stage,
                self@.stage == before.stage + (skip - left),
                self@ == (RunnerView {
                    stage: self@.stage,
                    outputs: before.outputs + blanks(self@.stage - before.stage),
                    ..before
                }),
            decreases left,
        {
            let ghost here = self@;
            self.outputs.push(None);
            self.stage = self.stage + 1;
            left = left - 1;
            assert(outputs(self.outputs@) =~= here.outputs.push(None));
            assert(self@.outputs =~= before.outputs + blanks(self@.stage - before.stage));
        }
    }

    /// The current stage has failed.
    fn fail(&mut self, e: Error, ms: u64)
        requires
            old(self)@.wf(),
            old(self)@.said is None,
            !old(self)@.done(),
        ensures
            final(self)@ == old(self)@.fail(e@, ms),
            final(self)@.wf(),
    {
        let ghost before = self@;
        let total = self.plan.len();
        assert(self.stage < total);
        let name = self.plan[self.stage].name.clone();
        let reported = self.plan[self.stage].reported;
        if reported {
            self.steps.step(name.as_str(), Some(&e), ms);
        }
        let ghost mid = self.steps@;
        assert(mid =~= before.reports + (if reported {
            seq![exec::step_report(name@, Some(e@), ms)]
        } else {
            Seq::empty()
        }));
        let (goes_on, skip): (bool, usize) = match &self.plan[self.stage].on_error {
            OnError::Abort => (false, 0),
            OnError::Continue => (true, 0),
            OnError::Skip { stages, note } => {
                let message = e.message();
                let detail = text::cat2("skipped: ", message.as_str());
                self.steps.note(note.as_str(), detail.as_str());
                (true, *stages)
            },
        };
        if goes_on {
            self.outputs.push(None);
            assert(outputs(self.outputs@) =~= before.outputs.push(None));
            self.stage = self.stage + 1;
            self.task = 0;
            self.leave_out(skip);
            assert(self@.outputs =~= before.fail(e@, ms).outputs);
        } else {
            self.error = Some(e);
        }
    }

    /// What the stage `i` printed.
    pub fn output(&self, i: usize) -> (o: Option<&CommandOutput>)
        ensures
            match o {
                Some(out) => self@.output(i as int) == Some(out@),
                None => self@.output(i as int) is None,
            },
    {
        if i < self.outputs.len() {
            assert(outputs(self.outputs@)[i as int] == output_view(self.outputs@[i as int]));
            match &self.outputs[i] {
                Some(out) => Some(out),
                None => None,
            }
        } else {
            None
        }
    }

    /// The timeline, or the error that ended the operation.
    pub fn finish(self) -> (r: Result<Vec<StepReport>, Error>)
        ensures
            match r {
                Ok(list) => self@.error is None && protocol::reports(list@) == self@.reports,
                Err(e) => self@.error == Some(e@),
            },
    {
        match self.error {
            Some(e) => Err(e),
            None => Ok(self.steps.into_reports()),
        }
    }

    /// How many stages the plan has.
    pub fn len(&self) -> (n: usize)
        ensures
            n == self@.plan.len(),
    {
        self.plan.len()
    }

    /// The stage that is under way, or how many there are once all are done.
    pub fn position(&self) -> (n: usize)
        ensures
            n == self@.stage,
    {
        self.stage
    }

    /// Whether an error ended the operation.
    pub fn failed(&self) -> (r: bool)
        ensures
            r == (self@.error is Some),
    {
        self.error.is_some()
    }
}

// ---------------------------------------------------------------------------
// What holds of every plan
// ---------------------------------------------------------------------------

/// What a task comes back with, and how long after its stage was begun.
pub struct Reply {
    pub outcome: Result<OutputView, ErrorView>,
    pub ms: u64,
}

/// The machine after the given replies, or after as many of them as it takes.
pub open spec fn walk(r: RunnerView, replies: Seq<Reply>) -> RunnerView
    decreases replies.len(),
{
    if replies.len() == 0 || r.done() {
        r
    } else {
        walk(r.advance(replies[0].outcome, replies[0].ms), replies.drop_first())
    }
}

/// A stage of the timeline that takes one line there and must succeed.
pub open spec fn strict(s: StageView) -> bool {
    s.reported && s.note is Quiet && s.skip_on_ok == 0 && s.on_error is Abort
}

/// The first `n` stages are in the timeline as successes, one line each.
pub open spec fn lists(reports: Seq<StepReportView>, plan: Seq<StageView>, n: int) -> bool {
    forall|i: int|
        0 <= i < n ==> (#[trigger] reports[i]).name == plan[i].name && reports[i].ok
            && reports[i].detail is None
}

/// The timeline of a plan of strict stages tells how far the plan is.
pub open spec fn truthful(r: RunnerView) -> bool {
    &&& r.wf()
    &&& lists(r.reports, r.plan, r.stage)
    &&& match r.error {
        None => r.reports.len() == r.stage,
        Some(e) => r.stage < r.plan.len() && r.reports.len() == r.stage + 1 && {
            let last = r.reports[r.stage];
            last.name == r.plan[r.stage].name && !last.ok && last.detail == Some(e.message())
        },
    }
}

/// Every reply brings a plan nearer to its end: to another task, to a later stage,
/// or to an error.
pub proof fn law_every_reply_makes_progress(
    r: RunnerView,
    outcome: Result<OutputView, ErrorView>,
    ms: u64,
)
    requires
        r.wf(),
        !r.done(),
    ensures
        r.advance(outcome, ms).wf(),
        r.advance(outcome, ms).plan == r.plan,
        r.advance(outcome, ms).error is Some || r.stage < r.advance(outcome, ms).stage || (r.stage
            == r.advance(outcome, ms).stage && r.task < r.advance(outcome, ms).task < r.plan[
        r.stage].tasks.len()),
{
}

/// What is in the timeline stays there.
pub proof fn law_timeline_only_grows(r: RunnerView, replies: Seq<Reply>)
    requires
        r.wf(),
    ensures
        r.reports.is_prefix_of(walk(r, replies).reports),
    decreases replies.len(),
{
    if replies.len() == 0 || r.done() {
        assert(r.reports.is_prefix_of(r.reports));
    } else {
        let next = r.advance(replies[0].outcome, replies[0].ms);
        law_every_reply_makes_progress(r, replies[0].outcome, replies[0].ms);
        law_timeline_only_grows(next, replies.drop_first());
        assert(r.reports.is_prefix_of(next.reports));
        let last = walk(next, replies.drop_first()).reports;
        assert(next.reports =~= last.subrange(0, next.reports.len() as int));
        assert(r.reports =~= last.subrange(0, r.reports.len() as int));
    }
}

/// A task that fails ends its stage: the tasks that come after it in the stage are
/// not asked for.
pub proof fn law_failed_task_ends_its_stage(
    r: RunnerView,
    outcome: Result<OutputView, ErrorView>,
    ms: u64,
)
    requires
        r.wf(),
        !r.done(),
        judge(r.current().verdict, r.said, outcome) is Err,
    ensures
        r.advance(outcome, ms).done() || r.stage < r.advance(outcome, ms).stage,
{
}

/// A required stage that fails ends the operation with its error, and nothing more
/// is asked of the host.
pub proof fn law_first_required_failure_ends_the_operation(
    r: RunnerView,
    outcome: Result<OutputView, ErrorView>,
    ms: u64,
    later: Seq<Reply>,
)
    requires
        r.wf(),
        !r.done(),
        r.plan[r.stage].on_error is Abort,
        judge(r.current().verdict, r.said, outcome) is Err,
    ensures
        r.advance(outcome, ms).done(),
        r.advance(outcome, ms).error == Some(judge(r.current().verdict, r.said, outcome)->Err_0),
        walk(r.advance(outcome, ms), later) == r.advance(outcome, ms),
{
}

/// The timeline of a plan of strict stages stays truthful, whatever comes back.
pub proof fn law_timeline_is_truthful(r: RunnerView, replies: Seq<Reply>)
    requires
        truthful(r),
        forall|i: int| 0 <= i < r.plan.len() ==> strict(#[trigger] r.plan[i]),
    ensures
        truthful(walk(r, replies)),
        walk(r, replies).plan == r.plan,
    decreases replies.len(),
{
    if replies.len() > 0 && !r.done() {
        let next = r.advance(replies[0].outcome, replies[0].ms);
        assert(strict(r.plan[r.stage]));
        match judge(r.current().verdict, r.said, replies[0].outcome) {
            Ok(out) => {
                assert(r.succeed(out, replies[0].ms).reports =~= r.reports.push(
                    exec::step_report(r.plan[r.stage].name, None, replies[0].ms),
                ));
            },
            Err(e) => {
                assert(r.fail(e, replies[0].ms).reports =~= r.reports.push(
                    exec::step_report(r.plan[r.stage].name, Some(e), replies[0].ms),
                ));
            },
        }
        assert(truthful(next));
        law_timeline_is_truthful(next, replies.drop_first());
    }
}

/// An operation of strict stages that succeeds reports every stage, in order, as a
/// success.
pub proof fn law_success_reports_every_stage(plan: Seq<StageView>, replies: Seq<Reply>)
    requires
        forall|i: int| 0 <= i < plan.len() ==> strict(#[trigger] plan[i]),
        walk(RunnerView::start(plan), replies).done(),
        walk(RunnerView::start(plan), replies).error is None,
    ensures
        walk(RunnerView::start(plan), replies).reports.len() == plan.len(),
        lists(walk(RunnerView::start(plan), replies).reports, plan, plan.len() as int),
{
    law_timeline_is_truthful(RunnerView::start(plan), replies);
}

/// In dry-run nothing is asked of the host but to run a command that changes
/// nothing or to read a file.
pub proof fn law_dry_run_changes_nothing(a: ActionView)
    requires
        without_host(true, a) is None,
    ensures
        a is ReadFile || (a matches ActionView::Run(c) && c.probe),
{
}

} // verus!
