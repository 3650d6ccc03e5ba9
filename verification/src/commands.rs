//! Commands of the operating system: what to run, what an answer leads to, and how a failure is
//! told.

use vstd::prelude::*;

use crate::text::{join, join_spec, trim, trim_spec, views};

verus! {

/// A command to run. Where there is a probe, it runs first, quietly, with the same program, and
/// the command is left out if the probe succeeds. A failure of a command that is not required is
/// passed over.
#[derive(Debug)]
pub struct CommandStep {
    pub probe: Option<Vec<String>>,
    pub program: String,
    pub args: Vec<String>,
    pub required: bool,
}

/// The view of [`CommandStep`].
#[verifier::ext_equal]
pub struct CommandStepView {
    pub probe: Option<Seq<Seq<char>>>,
    pub program: Seq<char>,
    pub args: Seq<Seq<char>>,
    pub required: bool,
}

impl View for CommandStep {
    type V = CommandStepView;

    open spec fn view(&self) -> CommandStepView {
        CommandStepView {
            probe: match self.probe {
                Some(args) => Some(views(args@)),
                None => None,
            },
            program: self.program@,
            args: views(self.args@),
            required: self.required,
        }
    }
}

/// A command that has to succeed.
pub open spec fn must_run(program: Seq<char>, args: Seq<Seq<char>>) -> CommandStepView {
    CommandStepView { probe: None, program, args, required: true }
}

/// A command that may fail.
pub open spec fn may_run(program: Seq<char>, args: Seq<Seq<char>>) -> CommandStepView {
    CommandStepView { probe: None, program, args, required: false }
}

/// A command that has to succeed unless a probe does.
pub open spec fn run_unless(
    program: Seq<char>,
    probe: Seq<Seq<char>>,
    args: Seq<Seq<char>>,
) -> CommandStepView {
    CommandStepView { probe: Some(probe), program, args, required: true }
}

/// The texts of an argument list.
pub open spec fn str_views<const N: usize>(items: [&str; N]) -> Seq<Seq<char>> {
    Seq::new(N as nat, |i: int| items@[i]@)
}

/// An argument list.
pub fn arg_list<const N: usize>(items: [&str; N]) -> (r: Vec<String>)
    ensures
        views(r@) == str_views(items),
{
    let mut r: Vec<String> = Vec::new();
    for i in 0..N
        invariant
            r@.len() == i,
            forall|j: int| 0 <= j < i ==> (#[trigger] r@[j])@ == items@[j]@,
    {
        r.push(items[i].to_owned());
    }
    assert(views(r@) =~= str_views(items));
    r
}

/// A command that has to succeed.
pub fn required_step(program: &str, args: Vec<String>) -> (step: CommandStep)
    ensures
        step@ == must_run(program@, views(args@)),
{
    CommandStep { probe: None, program: program.to_owned(), args, required: true }
}

/// A command that may fail.
pub fn optional_step(program: &str, args: Vec<String>) -> (step: CommandStep)
    ensures
        step@ == may_run(program@, views(args@)),
{
    CommandStep { probe: None, program: program.to_owned(), args, required: false }
}

/// A command that has to succeed unless a probe does.
pub fn probed_step(program: &str, probe: Vec<String>, args: Vec<String>) -> (step: CommandStep)
    ensures
        step@ == run_unless(program@, views(probe@), views(args@)),
{
    CommandStep { probe: Some(probe), program: program.to_owned(), args, required: true }
}

/// How the run of a program went.
#[derive(Clone, Copy, Debug, PartialEq, Eq, Structural)]
pub enum ProgramRun {
    /// It could not be started.
    NotStarted,
    /// It ran and reported a failure.
    Failed,
    /// It ran and reported success.
    Succeeded,
}

/// How a step ended.
#[derive(Clone, Copy, Debug, PartialEq, Eq, Structural)]
pub enum StepOutcome {
    /// All is well, and the next step may follow.
    Done,
    /// A program could not be started.
    StartFailed,
    /// The command reported a failure.
    CommandFailed,
}

/// What follows a probe.
#[derive(Clone, Copy, Debug, PartialEq, Eq, Structural)]
pub enum AfterProbe {
    /// The command is run.
    RunCommand,
    /// The step ends without its command.
    End(StepOutcome),
}

/// Whether the command of a step is run, given whether its probe succeeded.
pub fn runs_after_probe(step: &CommandStep, probe_succeeded: bool) -> (r: bool)
    ensures
        r == (step.probe is None || !probe_succeeded),
{
    step.probe.is_none() || !probe_succeeded
}

/// What follows the probe of a step: a probe that could not be started ends the step with that
/// failure, one that succeeded ends it well.
pub open spec fn probe_leads_to(step: CommandStepView, probe: ProgramRun) -> AfterProbe {
    if step.probe is None {
        AfterProbe::RunCommand
    } else {
        match probe {
            ProgramRun::NotStarted => AfterProbe::End(StepOutcome::StartFailed),
            ProgramRun::Failed => AfterProbe::RunCommand,
            ProgramRun::Succeeded => AfterProbe::End(StepOutcome::Done),
        }
    }
}

/// What follows the probe of a step.
pub fn after_probe(step: &CommandStep, probe: ProgramRun) -> (r: AfterProbe)
    ensures
        r == probe_leads_to(step@, probe),
{
    if step.probe.is_some() && probe == ProgramRun::NotStarted {
        AfterProbe::End(StepOutcome::StartFailed)
    } else if runs_after_probe(step, probe == ProgramRun::Succeeded) {
        AfterProbe::RunCommand
    } else {
        AfterProbe::End(StepOutcome::Done)
    }
}

/// How a step ends whose command was run: a failure counts only where the command is required.
pub open spec fn command_leads_to(step: CommandStepView, command: ProgramRun) -> StepOutcome {
    if !step.required {
        StepOutcome::Done
    } else {
        match command {
            ProgramRun::NotStarted => StepOutcome::StartFailed,
            ProgramRun::Failed => StepOutcome::CommandFailed,
            ProgramRun::Succeeded => StepOutcome::Done,
        }
    }
}

/// How a step ends whose command was run.
pub fn after_command(step: &CommandStep, command: ProgramRun) -> (r: StepOutcome)
    ensures
        r == command_leads_to(step@, command),
{
    if !step.required {
        return StepOutcome::Done;
    }
    match command {
        ProgramRun::NotStarted => StepOutcome::StartFailed,
        ProgramRun::Failed => StepOutcome::CommandFailed,
        ProgramRun::Succeeded => StepOutcome::Done,
    }
}

/// How a step ends, given how its probe and its command go where they are run.
pub open spec fn step_outcome(
    step: CommandStepView,
    probe: ProgramRun,
    command: ProgramRun,
) -> StepOutcome {
    match probe_leads_to(step, probe) {
        AfterProbe::RunCommand => command_leads_to(step, command),
        AfterProbe::End(outcome) => outcome,
    }
}

/// Whether a step takes effect: its command is run, and succeeds.
pub open spec fn takes_effect(
    step: CommandStepView,
    probe: ProgramRun,
    command: ProgramRun,
) -> bool {
    probe_leads_to(step, probe) == AfterProbe::RunCommand && command == ProgramRun::Succeeded
}

/// What a failed command printed: the error output, else the ordinary output, else a remark that
/// there was none.
pub open spec fn failure_detail(stderr: Seq<char>, stdout: Seq<char>) -> Seq<char> {
    if trim_spec(stderr).len() > 0 {
        trim_spec(stderr)
    } else if trim_spec(stdout).len() > 0 {
        trim_spec(stdout)
    } else {
        "no additional error output"@
    }
}

/// How a failed command is told, without its output.
pub open spec fn plain_failure(program: Seq<char>, args: Seq<Seq<char>>) -> Seq<char> {
    "command failed: "@ + program + " "@ + join_spec(args, " "@)
}

/// How a failed command is told, with its output.
pub open spec fn detailed_failure(
    program: Seq<char>,
    args: Seq<Seq<char>>,
    stderr: Seq<char>,
    stdout: Seq<char>,
) -> Seq<char> {
    plain_failure(program, args) + " ("@ + failure_detail(stderr, stdout) + ")"@
}

/// How a failed command is told, without its output.
pub fn plain_command_failure(program: &str, args: &Vec<String>) -> (r: String)
    ensures
        r@ == plain_failure(program@, views(args@)),
{
    let mut r = String::from_str("command failed: ");
    r.append(program);
    r.append(" ");
    r.append(join(args, " ").as_str());
    r
}

/// How a failed command is told, with its output.
pub fn command_failure(program: &str, args: &Vec<String>, stderr: &str, stdout: &str) -> (r: String)
    ensures
        r@ == detailed_failure(program@, views(args@), stderr@, stdout@),
{
    let mut r = plain_command_failure(program, args);
    let error_text = trim(stderr);
    let output_text = trim(stdout);
    r.append(" (");
    if !error_text.as_str().is_empty() {
        r.append(error_text.as_str());
    } else if !output_text.as_str().is_empty() {
        r.append(output_text.as_str());
    } else {
        r.append("no additional error output");
    }
    r.append(")");
    r
}

/// Whether a step runs a program with some arguments, whatever happens, and has to succeed.
pub open spec fn is_required(
    step: CommandStepView,
    program: Seq<char>,
    args: Seq<Seq<char>>,
) -> bool {
    step.probe is None && step.required && step.program == program && step.args == args
}

/// Whether a step runs a program with some arguments, whatever happens, and may fail.
pub open spec fn is_optional(
    step: CommandStepView,
    program: Seq<char>,
    args: Seq<Seq<char>>,
) -> bool {
    step.probe is None && !step.required && step.program == program && step.args == args
}

/// Whether a step runs a program with some arguments where the same program fails with others, and
/// then has to succeed.
pub open spec fn is_conditional(
    step: CommandStepView,
    program: Seq<char>,
    probe: Seq<Seq<char>>,
    args: Seq<Seq<char>>,
) -> bool {
    step.probe == Some(probe) && step.required && step.program == program && step.args == args
}

/// What a step comes to: a probe that succeeds leaves the command out, one that fails has it run;
/// a command that may fail does no harm, one that has to succeed decides.
pub proof fn law_step_outcomes(step: CommandStepView, probe: ProgramRun, command: ProgramRun)
    ensures
        step.probe is Some && probe == ProgramRun::Succeeded ==> step_outcome(step, probe, command)
            == StepOutcome::Done && !takes_effect(step, probe, command),
        step.probe is Some && probe == ProgramRun::NotStarted ==> step_outcome(
            step,
            probe,
            command,
        ) == StepOutcome::StartFailed && !takes_effect(step, probe, command),
        step.probe is None || probe == ProgramRun::Failed ==> (takes_effect(step, probe, command)
            <==> command == ProgramRun::Succeeded),
        step.probe is None || probe == ProgramRun::Failed ==> (step_outcome(step, probe, command)
            == StepOutcome::Done <==> !step.required || command == ProgramRun::Succeeded),
        step.probe is None && step.required && command == ProgramRun::Failed ==> step_outcome(
            step,
            probe,
            command,
        ) == StepOutcome::CommandFailed,
        step.probe is None && step.required && command == ProgramRun::NotStarted ==> step_outcome(
            step,
            probe,
            command,
        ) == StepOutcome::StartFailed,
{
}

/// A failed command is told with what it printed: its errors, else its output, else a remark.
pub proof fn law_failures_are_told(
    program: Seq<char>,
    args: Seq<Seq<char>>,
    stderr: Seq<char>,
    stdout: Seq<char>,
)
    ensures
        ({
            let told = detailed_failure(program, args, stderr, stdout);
            let plain = "command failed: "@ + program + " "@ + join_spec(args, " "@);
            &&& plain_failure(program, args) == plain
            &&& trim_spec(stderr).len() > 0 ==> told == plain + " ("@ + trim_spec(stderr) + ")"@
            &&& trim_spec(stderr).len() == 0 && trim_spec(stdout).len() > 0 ==> told == plain
                + " ("@ + trim_spec(stdout) + ")"@
            &&& trim_spec(stderr).len() == 0 && trim_spec(stdout).len() == 0 ==> told == plain
                + " ("@ + "no additional error output"@ + ")"@
        }),
{
}

/// The view of [`CommandStep`] holds each field under its own name.
pub proof fn law_view_of_command_step(value: CommandStep)
    ensures
        value@.probe == match value.probe {
            Some(args) => Some(views(args@)),
            None => None,
        },
        value@.program == value.program@,
        value@.args == views(value.args@),
        value@.required == value.required,
{
}

} // verus!
