//! The tools of the toolkit: the commands `build`, `run`, `gen` and `exec`.
//!
//! Each tool is a body under the layers that resolve what it works on.  A
//! body decides whether the notation that was detected is one that the tool
//! can work in; the work itself is the job that it hands back.

use vstd::prelude::*;
use vstd::string::*;
use crate::command::{
    help_group, output_group, syntax_group, BuildCommand, BuildExecutable, Command, Exit,
    ExitView, GenerateCommand, GenerateExecutable, LoadCommand, LoadExecutable, Plan, PlanView,
    RunCommand, RunExecutable, Stream, StreamView,
};
use crate::options::{option_groups, option_modes, Parsed};
use crate::util::Target;

verus! {

/// What a tool that reads any notation tells a user who named none of them.
pub open spec fn any_notation() -> Seq<char> {
    "syntax should be \"asm\", \"bf\", \"dt\", \"ook\" or \"ws\" (default: ws)"@
}

/// What a tool that writes tells a user who named a notation that cannot be
/// written.
pub open spec fn written_notation() -> Seq<char> {
    "syntax should be \"asm\", \"dt\" or \"ws\" (default: ws)"@
}

/// Whether source text in the notation can be generated from bytecode.
pub open spec fn can_generate(target: Target) -> bool {
    target == Target::Assembly || target == Target::DT || target == Target::Whitespace
}

/// How a tool leaves after its job: without a word and with the status 0
/// where the job succeeded, and with the message of the engine and the
/// status 2 where the engine failed.
pub open spec fn finished_as(outcome: Result<(), Seq<char>>) -> ExitView {
    match outcome {
        Ok(_) => ExitView { text: Seq::empty(), status: 0 },
        Err(message) => ExitView::line(message, 2),
    }
}

/// How a tool leaves after its job, of which `outcome` holds the message of
/// the engine where it failed.
pub fn finished(outcome: Result<(), String>) -> (r: Exit)
    ensures
        r@ == finished_as(
            match outcome {
                Ok(_) => Ok(()),
                Err(message) => Err(message@),
            },
        ),
{
    match outcome {
        Ok(_) => Exit { text: String::new(), status: 0 },
        Err(message) => Exit::line(message.as_str(), 2),
    }
}

/// The body of `build`: compiles the source text that it reads, in the
/// notation that was detected, to the bytecode that it writes.
#[derive(Debug, Clone, Copy, PartialEq, Eq)]
pub struct Builder;

impl BuildExecutable for Builder {
    type Job = Target;

    open spec fn needs(&self) -> Set<Seq<char>> {
        Set::empty()
    }

    open spec fn failure(&self, e: Seq<char>) -> ExitView {
        ExitView::line(e, 1)
    }

    open spec fn planned(
        &self,
        m: Parsed,
        buffer: StreamView,
        writer: StreamView,
        target: Option<Target>,
    ) -> PlanView<Target> {
        match target {
            Some(target) => PlanView::run(target),
            None => PlanView::quit(ExitView::line(any_notation(), 1)),
        }
    }

    fn handle_error(&self, e: &str) -> (r: Exit) {
        Exit::line(e, 1)
    }

    fn exec(
        &self,
        m: &getopts::Matches,
        buffer: &Stream,
        writer: &Stream,
        target: Option<Target>,
    ) -> (r: Plan<Target>) {
        match target {
            Some(target) => Plan::run(target),
            None => Plan::quit(
                Exit::line(
                    "syntax should be \"asm\", \"bf\", \"dt\", \"ook\" or \"ws\" (default: ws)",
                    1,
                ),
            ),
        }
    }
}

/// The body of `run`: compiles the source text that it reads, in the
/// notation that was detected, and executes the bytecode.
#[derive(Debug, Clone, Copy, PartialEq, Eq)]
pub struct Runner;

impl RunExecutable for Runner {
    type Job = Target;

    open spec fn needs(&self) -> Set<Seq<char>> {
        Set::empty()
    }

    open spec fn failure(&self, e: Seq<char>) -> ExitView {
        ExitView::line(e, 1)
    }

    open spec fn planned(&self, m: Parsed, buffer: StreamView, target: Option<Target>) -> PlanView<
        Target,
    > {
        match target {
            Some(target) => PlanView::run(target),
            None => PlanView::quit(ExitView::line(any_notation(), 1)),
        }
    }

    fn handle_error(&self, e: &str) -> (r: Exit) {
        Exit::line(e, 1)
    }

    fn exec(&self, m: &getopts::Matches, buffer: &Stream, target: Option<Target>) -> (r: Plan<
        Target,
    >) {
        match target {
            Some(target) => Plan::run(target),
            None => Plan::quit(
                Exit::line(
                    "syntax should be \"asm\", \"bf\", \"dt\", \"ook\" or \"ws\" (default: ws)",
                    1,
                ),
            ),
        }
    }
}

/// The body of `gen`: generates source text, in the notation that was
/// detected, from the bytecode that it reads.
#[derive(Debug, Clone, Copy, PartialEq, Eq)]
pub struct Generator;

impl GenerateExecutable for Generator {
    type Job = Target;

    open spec fn needs(&self) -> Set<Seq<char>> {
        Set::empty()
    }

    open spec fn failure(&self, e: Seq<char>) -> ExitView {
        ExitView::line(e, 1)
    }

    open spec fn planned(
        &self,
        m: Parsed,
        reader: StreamView,
        writer: StreamView,
        target: Option<Target>,
    ) -> PlanView<Target> {
        match target {
            Some(target) if can_generate(target) => PlanView::run(target),
            _ => PlanView::quit(ExitView::line(written_notation(), 1)),
        }
    }

    fn handle_error(&self, e: &str) -> (r: Exit) {
        Exit::line(e, 1)
    }

    fn exec(
        &self,
        m: &getopts::Matches,
        reader: &Stream,
        writer: &Stream,
        target: Option<Target>,
    ) -> (r: Plan<Target>) {
        match target {
            Some(Target::Assembly) => Plan::run(Target::Assembly),
            Some(Target::DT) => Plan::run(Target::DT),
            Some(Target::Whitespace) => Plan::run(Target::Whitespace),
            _ => Plan::quit(
                Exit::line("syntax should be \"asm\", \"dt\" or \"ws\" (default: ws)", 1),
            ),
        }
    }
}

/// The job of `exec`, which works in no notation: to execute bytecode.
#[derive(Debug, Clone, Copy, PartialEq, Eq)]
pub struct Bytecode;

/// The body of `exec`: executes the bytecode that it reads.
#[derive(Debug, Clone, Copy, PartialEq, Eq)]
pub struct Executor;

impl LoadExecutable for Executor {
    type Job = Bytecode;

    open spec fn needs(&self) -> Set<Seq<char>> {
        Set::empty()
    }

    open spec fn failure(&self, e: Seq<char>) -> ExitView {
        ExitView::line(e, 1)
    }

    open spec fn planned(&self, m: Parsed, reader: StreamView) -> PlanView<Bytecode> {
        PlanView::run(Bytecode)
    }

    fn handle_error(&self, e: &str) -> (r: Exit) {
        Exit::line(e, 1)
    }

    fn exec(&self, m: &getopts::Matches, reader: &Stream) -> (r: Plan<Bytecode>) {
        Plan::run(Bytecode)
    }
}

/// The command `build`.  Its schema replaces what `options` held.
pub fn build<'a>(options: &'a mut getopts::Options) -> (r: Command<
    'a,
    RunCommand<BuildCommand<Builder>>,
>)
    ensures
        r.wf(),
        r.command@ == "build"@,
        r.usage@ == "[-s syntax] [-o output] [file]"@,
        option_groups(*r.options) == seq![output_group(), syntax_group(), help_group()],
        option_modes(*r.options) == (false, false),
{
    *options = getopts::Options::new();
    BuildCommand::new("build", "[-s syntax] [-o output] [file]", options, Builder)
}

/// The command `run`.  Its schema replaces what `options` held.
pub fn run<'a>(options: &'a mut getopts::Options) -> (r: Command<'a, RunCommand<Runner>>)
    ensures
        r.wf(),
        r.command@ == "run"@,
        r.usage@ == "[-s syntax] [file]"@,
        option_groups(*r.options) == seq![syntax_group(), help_group()],
        option_modes(*r.options) == (false, false),
{
    *options = getopts::Options::new();
    RunCommand::new("run", "[-s syntax] [file]", options, Runner)
}

/// The command `gen`.  Its schema replaces what `options` held.
pub fn gen<'a>(options: &'a mut getopts::Options) -> (r: Command<
    'a,
    LoadCommand<GenerateCommand<Generator>>,
>)
    ensures
        r.wf(),
        r.command@ == "gen"@,
        r.usage@ == "[-s syntax] [-o output] [file]"@,
        option_groups(*r.options) == seq![syntax_group(), output_group(), help_group()],
        option_modes(*r.options) == (false, false),
{
    *options = getopts::Options::new();
    GenerateCommand::new("gen", "[-s syntax] [-o output] [file]", options, Generator)
}

/// The command `exec`.  Its schema replaces what `options` held.
pub fn exec<'a>(options: &'a mut getopts::Options) -> (r: Command<'a, LoadCommand<Executor>>)
    ensures
        r.wf(),
        r.command@ == "exec"@,
        r.usage@ == "[file]"@,
        option_groups(*r.options) == seq![help_group()],
        option_modes(*r.options) == (false, false),
{
    *options = getopts::Options::new();
    LoadCommand::new("exec", "[file]", options, Executor)
}

} // verus!
