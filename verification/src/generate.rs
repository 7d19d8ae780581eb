//! The `generate` command: which bindings to produce, where, and what to
//! report. A `GenerateRun` decides, event by event, what the caller does
//! next; creating directories, running the generator process and printing
//! are the caller's, which reports back how each ended.

use vstd::prelude::*;
use crate::text::{concat2, copy_string, string_of, views};

verus! {

/// What the command generates.
#[derive(Debug, Clone, Copy, PartialEq, Eq, Structural)]
pub enum GenerateTarget {
    Swift,
    Kotlin,
    Header,
    All,
}

/// The command's options: the target, and the directory to write to in
/// place of the configured one.
#[derive(Debug)]
pub struct GenerateOptions {
    pub target: GenerateTarget,
    pub output: Option<String>,
}

/// One generation step, with the output directory it was given.
#[derive(Debug)]
pub enum GenerateStep {
    Swift { output: Option<String> },
    Kotlin { output: Option<String> },
    Header { output: Option<String> },
}

/// The view of an optional directory.
pub open spec fn opt_view(o: Option<String>) -> Option<Seq<char>> {
    match o {
        Some(s) => Some(s@),
        None => None,
    }
}

/// The kind of a step (0 Swift, 1 Kotlin, 2 Header) and its directory.
pub open spec fn step_view(s: GenerateStep) -> (nat, Option<Seq<char>>) {
    match s {
        GenerateStep::Swift { output } => (0, opt_view(output)),
        GenerateStep::Kotlin { output } => (1, opt_view(output)),
        GenerateStep::Header { output } => (2, opt_view(output)),
    }
}

/// The steps of the command: the one for its target, with its directory;
/// for `All`, Swift, Kotlin and then the header, each with the configured
/// directory.
pub open spec fn spec_plan(target: GenerateTarget, output: Option<Seq<char>>) -> Seq<
    (nat, Option<Seq<char>>),
> {
    match target {
        GenerateTarget::Swift => seq![(0nat, output)],
        GenerateTarget::Kotlin => seq![(1nat, output)],
        GenerateTarget::Header => seq![(2nat, output)],
        GenerateTarget::All => seq![(0nat, None), (1nat, None), (2nat, None)],
    }
}

/// The steps that the command performs, in order.
pub fn run_generate(options: GenerateOptions) -> (r: Vec<GenerateStep>)
    ensures
        r@.map_values(|s: GenerateStep| step_view(s)) == spec_plan(options.target, opt_view(options.output)),
{
    let ghost out = opt_view(options.output);
    let mut r: Vec<GenerateStep> = Vec::new();
    match options.target {
        GenerateTarget::Swift => r.push(GenerateStep::Swift { output: options.output }),
        GenerateTarget::Kotlin => r.push(GenerateStep::Kotlin { output: options.output }),
        GenerateTarget::Header => r.push(GenerateStep::Header { output: options.output }),
        GenerateTarget::All => {
            r.push(GenerateStep::Swift { output: None });
            r.push(GenerateStep::Kotlin { output: None });
            r.push(GenerateStep::Header { output: None });
        },
    }
    assert(r@.map_values(|s: GenerateStep| step_view(s)) =~= spec_plan(options.target, out));
    r
}

/// The name of the Swift file that the generator writes.
pub fn swift_file_name() -> (r: String)
    ensures
        r@ == "Generated.swift"@,
{
    string_of("Generated.swift")
}

/// The directory that the Swift file goes to: the one given, else the
/// configured one.
pub fn swift_output_dir(output: &Option<String>, configured: &String) -> (r: String)
    ensures
        r@ == (match output {
            Some(d) => d@,
            None => configured@,
        }),
{
    match output {
        Some(d) => copy_string(d),
        None => copy_string(configured),
    }
}

/// The name of the generator, as the command that runs it reports it.
pub fn bindgen_command() -> (r: String)
    ensures
        r@ == "mobiFFI_bindgen"@,
{
    string_of("mobiFFI_bindgen")
}

/// The arguments of `cargo` that run the Swift generator on the crate at
/// `crate_path`, writing to `output_path`.
pub fn swift_bindgen_args(crate_path: &String, output_path: &String) -> (r: Vec<String>)
    ensures
        views(r@) == seq!["run"@, "-p"@, "mobiFFI_bindgen"@, "--"@, crate_path@, output_path@],
{
    let mut r: Vec<String> = Vec::new();
    r.push(string_of("run"));
    r.push(string_of("-p"));
    r.push(string_of("mobiFFI_bindgen"));
    r.push(string_of("--"));
    r.push(copy_string(crate_path));
    r.push(copy_string(output_path));
    assert(views(r@) =~= seq!["run"@, "-p"@, "mobiFFI_bindgen"@, "--"@, crate_path@, output_path@]);
    r
}

/// The line reported once the Swift bindings were written to `path`.
pub fn swift_done_message(path: &String) -> (r: String)
    ensures
        r@ == "Generated Swift bindings -> "@ + path@,
{
    concat2("Generated Swift bindings -> ", path.as_str())
}

/// The lines that a step reports in place of work it does not do yet.
pub fn step_notices(step: &GenerateStep) -> (r: Vec<String>)
    ensures
        views(r@) == (match step {
            GenerateStep::Swift { .. } => Seq::<Seq<char>>::empty(),
            GenerateStep::Kotlin { .. } => seq!["Kotlin generation not yet implemented"@],
            GenerateStep::Header { .. } => seq![
                "Header generation via CLI not yet implemented"@,
                "Use: cargo build -p mobiFFI_core (headers generated via build.rs)"@,
            ],
        }),
{
    let mut r: Vec<String> = Vec::new();
    match step {
        GenerateStep::Swift { .. } => {},
        GenerateStep::Kotlin { .. } => {
            r.push(string_of("Kotlin generation not yet implemented"));
        },
        GenerateStep::Header { .. } => {
            r.push(string_of("Header generation via CLI not yet implemented"));
            r.push(string_of("Use: cargo build -p mobiFFI_core (headers generated via build.rs)"));
        },
    }
    assert(views(r@) =~= (match step {
        GenerateStep::Swift { .. } => Seq::<Seq<char>>::empty(),
        GenerateStep::Kotlin { .. } => seq!["Kotlin generation not yet implemented"@],
        GenerateStep::Header { .. } => seq![
            "Header generation via CLI not yet implemented"@,
            "Use: cargo build -p mobiFFI_core (headers generated via build.rs)"@,
        ],
    }));
    r
}

/// The plan for `All` runs the three generators, each with the configured
/// directory, whatever directory it was given.
pub proof fn lemma_all_ignores_output(a: Option<Seq<char>>, b: Option<Seq<char>>)
    ensures
        spec_plan(GenerateTarget::All, a) == spec_plan(GenerateTarget::All, b),
        spec_plan(GenerateTarget::All, a) == seq![(0nat, None::<Seq<char>>), (1nat, None), (2nat, None)],
{
}

/// Why a `generate` run failed.
#[derive(Debug, Clone, Copy, PartialEq, Eq, Structural)]
pub enum GenerateError {
    /// The Swift output directory could not be created.
    CreateDirectoryFailed,
    /// The Swift generator could not be started (`None`), or exited with
    /// failure and this exit code.
    CommandFailed { status: Option<i32> },
}

/// How a run of the Swift generator ended.
#[derive(Debug, Clone, Copy, PartialEq, Eq, Structural)]
pub enum SwiftOutcome {
    /// Its output directory could not be created.
    DirectoryFailed,
    /// `cargo` could not be started.
    NotStarted,
    /// It exited: whether it succeeded, and its exit code, if it had one.
    Exited { success: bool, code: Option<i32> },
}

/// What the caller reports to a run.
#[derive(Debug)]
pub enum GenerateEvent {
    /// The run begins, or the last action was carried out.
    Ready,
    /// The Swift generator, asked to write `output_path`, ended so.
    SwiftFinished { outcome: SwiftOutcome, output_path: String },
}

/// What the caller does next.
#[derive(Debug)]
pub enum GenerateAction {
    /// Run the Swift generator, writing into the given directory, or into
    /// the configured one when none is given; then report how it ended.
    RunSwift { output: Option<String> },
    /// Print these lines, one per line; then report `Ready`.
    Print { lines: Vec<String> },
    /// Stop with this result.
    Finish(Result<(), GenerateError>),
}

/// An action, with texts in place of strings.
pub enum ActionView {
    RunSwift(Option<Seq<char>>),
    Print(Seq<Seq<char>>),
    Finish(Result<(), GenerateError>),
}

/// The view of an action.
pub open spec fn action_view(a: GenerateAction) -> ActionView {
    match a {
        GenerateAction::RunSwift { output } => ActionView::RunSwift(opt_view(output)),
        GenerateAction::Print { lines } => ActionView::Print(views(lines@)),
        GenerateAction::Finish(r) => ActionView::Finish(r),
    }
}

/// The error with which a Swift generator run that ended so stops the
/// command, if it does.
pub open spec fn outcome_error(o: SwiftOutcome) -> Option<GenerateError> {
    match o {
        SwiftOutcome::DirectoryFailed => Some(GenerateError::CreateDirectoryFailed),
        SwiftOutcome::NotStarted => Some(GenerateError::CommandFailed { status: None }),
        SwiftOutcome::Exited { success, code } => if success {
            None
        } else {
            Some(GenerateError::CommandFailed { status: code })
        },
    }
}

/// The lines that a step reports in place of work it does not do yet.
pub open spec fn spec_notices(kind: nat) -> Seq<Seq<char>> {
    if kind == 1 {
        seq!["Kotlin generation not yet implemented"@]
    } else {
        seq![
            "Header generation via CLI not yet implemented"@,
            "Use: cargo build -p mobiFFI_core (headers generated via build.rs)"@,
        ]
    }
}

/// What a step asks of the caller: to run the Swift generator, or to print
/// its notices.
pub open spec fn spec_step_action(step: (nat, Option<Seq<char>>)) -> ActionView {
    if step.0 == 0 {
        ActionView::RunSwift(step.1)
    } else {
        ActionView::Print(spec_notices(step.0))
    }
}

/// A run: the planned steps, how many of them were started, and the result
/// once the run is over.
pub type RunView = (Seq<(nat, Option<Seq<char>>)>, nat, Option<Result<(), GenerateError>>);

/// The next state of a run and the action it asks for, given an event. A
/// finished run answers every event with its result. Otherwise `Ready`
/// starts the next step, or finishes with success after the last one; a
/// Swift generator run that failed finishes the run with its error, and
/// one that succeeded has its output reported.
pub open spec fn spec_transition(s: RunView, e: GenerateEvent) -> (RunView, ActionView) {
    match s.2 {
        Some(res) => (s, ActionView::Finish(res)),
        None => match e {
            GenerateEvent::Ready => if s.1 < s.0.len() {
                ((s.0, s.1 + 1, None), spec_step_action(s.0[s.1 as int]))
            } else {
                ((s.0, s.1, Some(Ok(()))), ActionView::Finish(Ok(())))
            },
            GenerateEvent::SwiftFinished { outcome, output_path } => match outcome_error(outcome) {
                Some(err) => ((s.0, s.1, Some(Err(err))), ActionView::Finish(Err(err))),
                None => (s, ActionView::Print(seq!["Generated Swift bindings -> "@ + output_path@])),
            },
        },
    }
}

/// A run of the `generate` command.
pub struct GenerateRun {
    steps: Vec<GenerateStep>,
    next: usize,
    result: Option<Result<(), GenerateError>>,
}

impl View for GenerateRun {
    type V = RunView;

    closed spec fn view(&self) -> RunView {
        (self.steps@.map_values(|s: GenerateStep| step_view(s)), self.next as nat, self.result)
    }
}

fn copy_output(o: &Option<String>) -> (r: Option<String>)
    ensures
        opt_view(r) == opt_view(*o),
{
    match o {
        Some(d) => Some(copy_string(d)),
        None => None,
    }
}

impl GenerateRun {
    /// A run of the command with these options, before its first step.
    pub fn new(options: GenerateOptions) -> (r: Self)
        ensures
            r@ == (spec_plan(options.target, opt_view(options.output)), 0nat, None::<Result<(), GenerateError>>),
    {
        GenerateRun { steps: run_generate(options), next: 0, result: None }
    }

    /// Takes in what the caller reports and says what it does next.
    pub fn on_event(&mut self, event: GenerateEvent) -> (r: GenerateAction)
        ensures
            (final(self)@, action_view(r)) == spec_transition(old(self)@, event),
    {
        let ghost steps = self.steps@.map_values(|s: GenerateStep| step_view(s));
        if let Some(res) = self.result {
            return GenerateAction::Finish(res);
        }
        match event {
            GenerateEvent::Ready => {
                if self.next < self.steps.len() {
                    let step = &self.steps[self.next];
                    assert(steps[self.next as int] == step_view(*step));
                    let action = match step {
                        GenerateStep::Swift { output } => GenerateAction::RunSwift { output: copy_output(output) },
                        _ => GenerateAction::Print { lines: step_notices(step) },
                    };
                    self.next = self.next + 1;
                    action
                } else {
                    self.result = Some(Ok(()));
                    GenerateAction::Finish(Ok(()))
                }
            },
            GenerateEvent::SwiftFinished { outcome, output_path } => {
                let err = match outcome {
                    SwiftOutcome::DirectoryFailed => Some(GenerateError::CreateDirectoryFailed),
                    SwiftOutcome::NotStarted => Some(GenerateError::CommandFailed { status: None }),
                    SwiftOutcome::Exited { success, code } => if success {
                        None
                    } else {
                        Some(GenerateError::CommandFailed { status: code })
                    },
                };
                match err {
                    Some(e) => {
                        self.result = Some(Err(e));
                        GenerateAction::Finish(Err(e))
                    },
                    None => {
                        let mut lines: Vec<String> = Vec::new();
                        lines.push(swift_done_message(&output_path));
                        assert(views(lines@) =~= seq!["Generated Swift bindings -> "@ + output_path@]);
                        GenerateAction::Print { lines }
                    },
                }
            },
        }
    }
}

/// Once the Swift generator fails, the run is over: it stops with that
/// failure's error, and answers whatever is reported afterwards with the
/// same error, starting no later step.
pub proof fn lemma_failure_ends_run(s: RunView, e: GenerateEvent, later: GenerateEvent)
    requires
        s.2 is None,
        e matches GenerateEvent::SwiftFinished { outcome, .. } && outcome_error(outcome) is Some,
    ensures
        ({
            let (s1, a1) = spec_transition(s, e);
            &&& a1 == ActionView::Finish(Err(outcome_error(e->outcome).unwrap()))
            &&& s1.0 == s.0 && s1.1 == s.1
            &&& spec_transition(s1, later) == (s1, a1)
        }),
{
}

/// A generator that exits with failure stops the run with `CommandFailed`
/// and its exit code; one that cannot be started, with no code.
pub proof fn lemma_command_failed_status(s: RunView, path: String, code: Option<i32>)
    requires
        s.2 is None,
    ensures
        spec_transition(
            s,
            GenerateEvent::SwiftFinished { outcome: SwiftOutcome::Exited { success: false, code }, output_path: path },
        ).1 == ActionView::Finish(Err(GenerateError::CommandFailed { status: code })),
        spec_transition(
            s,
            GenerateEvent::SwiftFinished { outcome: SwiftOutcome::NotStarted, output_path: path },
        ).1 == ActionView::Finish(Err(GenerateError::CommandFailed { status: None })),
{
}

} // verus!
