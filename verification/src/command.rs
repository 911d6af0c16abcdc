//! Commands: layers that each resolve one part of the context in which the
//! body of a command works.
//!
//! A layer opens nothing itself.  It says which stream is to be opened and
//! hands what it resolved to the layer below; the body at the bottom says
//! what is to be done, or that the command is to leave.  What comes out is a
//! `Plan`: the streams to acquire, in order, and the verdict of the body.
//! The `session` module turns a plan into the actions of a run.

use vstd::prelude::*;
use vstd::string::*;
use crate::options::{
    all_named, defines, fail_text, flag, free_args, lemma_names_push, matches_values, matches_view,
    message, names, opt_present, opt_str, optflag, optopt, option_groups, option_modes,
    option_table, parse, parsed, rejection, setting, texts, usage, Group, Parsed, Rejection,
};
use crate::session::{grants, jobs, lemma_quit, ActionView, EventView, Session, SessionView};
use crate::util::{detect_target, detected, lemma_default, named, Target};

verus! {

/// What backs a stream: a file, or the standard stream of the process
/// (standard input for a stream that is read, standard output for one that
/// is written).
#[derive(Debug, Clone, PartialEq, Eq)]
pub enum Stream {
    File(String),
    Standard,
}

pub enum StreamView {
    File(Seq<char>),
    Standard,
}

impl View for Stream {
    type V = StreamView;

    open spec fn view(&self) -> StreamView {
        match self {
            Stream::File(name) => StreamView::File(name@),
            Stream::Standard => StreamView::Standard,
        }
    }
}

impl StreamView {
    /// The name by which the notation of the stream is detected: that of the
    /// file, and the empty name for a standard stream.
    pub open spec fn name(self) -> Seq<char> {
        match self {
            StreamView::File(name) => name,
            StreamView::Standard => Seq::empty(),
        }
    }
}

impl Stream {
    /// A stream backed by the same thing.
    pub fn copy(&self) -> (r: Stream)
        ensures
            r@ == self@,
    {
        match self {
            Stream::File(name) => Stream::File(name.clone()),
            Stream::Standard => Stream::Standard,
        }
    }

    /// The name by which the notation of the stream is detected.
    pub fn name(&self) -> (r: String)
        ensures
            r@ == self@.name(),
    {
        match self {
            Stream::File(name) => name.clone(),
            Stream::Standard => String::new(),
        }
    }
}

/// A stream that a layer needs before the layer below it can go on.
#[derive(Debug, Clone, PartialEq, Eq)]
pub enum Request {
    /// A stream to read from, behind a buffer.
    Buffer(Stream),
    /// A stream to read from, as it is.
    Read(Stream),
    /// A stream to write to; a file is created, or emptied if it exists.
    Write(Stream),
}

pub enum RequestView {
    Buffer(StreamView),
    Read(StreamView),
    Write(StreamView),
}

impl View for Request {
    type V = RequestView;

    open spec fn view(&self) -> RequestView {
        match self {
            Request::Buffer(stream) => RequestView::Buffer(stream@),
            Request::Read(stream) => RequestView::Read(stream@),
            Request::Write(stream) => RequestView::Write(stream@),
        }
    }
}

impl Request {
    /// A request for the same stream.
    pub fn copy(&self) -> (r: Request)
        ensures
            r@ == self@,
    {
        match self {
            Request::Buffer(stream) => Request::Buffer(stream.copy()),
            Request::Read(stream) => Request::Read(stream.copy()),
            Request::Write(stream) => Request::Write(stream.copy()),
        }
    }
}

/// How a command leaves: what it prints on standard output, as it stands,
/// and the exit status of the process.
#[derive(Debug, Clone, PartialEq, Eq)]
pub struct Exit {
    pub text: String,
    pub status: i32,
}

pub struct ExitView {
    pub text: Seq<char>,
    pub status: i32,
}

impl View for Exit {
    type V = ExitView;

    open spec fn view(&self) -> ExitView {
        ExitView { text: self.text@, status: self.status }
    }
}

impl Exit {
    /// An exit with the same text and status.
    pub fn copy(&self) -> (r: Exit)
        ensures
            r@ == self@,
    {
        Exit { text: self.text.clone(), status: self.status }
    }

    /// Leaves with `status` after a line that holds `message`.
    pub fn line(message: &str, status: i32) -> (r: Exit)
        ensures
            r@ == ExitView::line(message@, status),
    {
        let mut text = String::from_str(message);
        text.append("\n");
        Exit { text, status }
    }
}

impl ExitView {
    /// The exit with `status` after a line that holds `message`.
    pub open spec fn line(message: Seq<char>, status: i32) -> ExitView {
        ExitView { text: message + "\n"@, status }
    }
}

/// What the body of a command settles on when its streams are open.
#[derive(Debug, Clone, PartialEq, Eq)]
pub enum Verdict<J> {
    /// The domain action is to be carried out, as the job describes it.
    Run(J),
    /// The command leaves without acting.
    Quit(Exit),
}

pub enum VerdictView<J> {
    Run(J),
    Quit(ExitView),
}

impl<J> View for Verdict<J> {
    type V = VerdictView<J>;

    open spec fn view(&self) -> VerdictView<J> {
        match self {
            Verdict::Run(job) => VerdictView::Run(*job),
            Verdict::Quit(exit) => VerdictView::Quit(exit@),
        }
    }
}

/// What a command does for one command line: the streams that it acquires,
/// in this order, and what happens once all of them are open.
#[derive(Debug, Clone, PartialEq, Eq)]
pub struct Plan<J> {
    pub requests: Vec<Request>,
    pub verdict: Verdict<J>,
}

pub struct PlanView<J> {
    pub requests: Seq<RequestView>,
    pub verdict: VerdictView<J>,
}

/// The views of the requests of `requests`.
pub open spec fn request_views(requests: Seq<Request>) -> Seq<RequestView> {
    Seq::new(requests.len(), |i: int| requests[i]@)
}

impl<J> View for Plan<J> {
    type V = PlanView<J>;

    open spec fn view(&self) -> PlanView<J> {
        PlanView { requests: request_views(self.requests@), verdict: self.verdict@ }
    }
}

impl<J> PlanView<J> {
    /// The plan that acquires nothing and carries out `job`.
    pub open spec fn run(job: J) -> PlanView<J> {
        PlanView { requests: Seq::empty(), verdict: VerdictView::Run(job) }
    }

    /// The plan that acquires nothing and leaves.
    pub open spec fn quit(exit: ExitView) -> PlanView<J> {
        PlanView { requests: Seq::empty(), verdict: VerdictView::Quit(exit) }
    }

    /// The plan that acquires `request` and then goes on as `self` does.
    pub open spec fn after(self, request: RequestView) -> PlanView<J> {
        PlanView { requests: seq![request] + self.requests, verdict: self.verdict }
    }
}

impl<J> Plan<J> {
    /// The plan that acquires nothing and carries out `job`.
    pub fn run(job: J) -> (r: Plan<J>)
        ensures
            r@ == PlanView::run(job),
    {
        let r = Plan { requests: Vec::new(), verdict: Verdict::Run(job) };
        assert(r@.requests =~= Seq::empty());
        r
    }

    /// The plan that acquires nothing and leaves.
    pub fn quit(exit: Exit) -> (r: Plan<J>)
        ensures
            r@ == PlanView::<J>::quit(exit@),
    {
        let r = Plan { requests: Vec::new(), verdict: Verdict::Quit(exit) };
        assert(r@.requests =~= Seq::empty());
        r
    }

    /// The plan that acquires `request` and then goes on as `self` does.
    pub fn after(self, request: Request) -> (r: Plan<J>)
        ensures
            r@ == self@.after(request@),
    {
        let ghost before = self@;
        let mut requests = self.requests;
        requests.insert(0, request);
        let r = Plan { requests, verdict: self.verdict };
        assert(r@.requests =~= seq![request@] + before.requests);
        r
    }
}

/// The stream that a command reads: the file that the first free argument
/// names, and standard input where there is no free argument.
pub open spec fn input_of(free: Seq<Seq<char>>) -> StreamView {
    if free.len() > 0 {
        StreamView::File(free[0])
    } else {
        StreamView::Standard
    }
}

/// The stream that a command writes: the file that the output option names,
/// and standard output where the option is not given.
pub open spec fn output_of(name: Option<Seq<char>>) -> StreamView {
    match name {
        Some(name) => StreamView::File(name),
        None => StreamView::Standard,
    }
}

/// The stream that a command with the free arguments `free` reads.
pub fn input(free: &Vec<String>) -> (r: Stream)
    ensures
        r@ == input_of(texts(free@)),
{
    if free.len() > 0 {
        Stream::File(free[0].clone())
    } else {
        Stream::Standard
    }
}

/// The stream that a command writes whose output option has the value
/// `name`.
pub fn output(name: Option<String>) -> (r: Stream)
    ensures
        r@ == output_of(crate::util::text_of(name)),
{
    match name {
        Some(name) => Stream::File(name),
        None => Stream::Standard,
    }
}

/// The group of the help flag, which every command has.
pub open spec fn help_group() -> Group {
    flag("h"@, "help"@, ""@)
}

/// The group of the option that names the notation.
pub open spec fn syntax_group() -> Group {
    setting("s"@, "syntax"@, "set input file syntax"@, "syntax"@)
}

/// The group of the option that names the output file.
pub open spec fn output_group() -> Group {
    setting("o"@, ""@, "set output file name"@, "name"@)
}

/// Whether a schema of the given groups knows each name of `needs`.
pub open spec fn covers(groups: Seq<Group>, needs: Set<Seq<char>>) -> bool {
    forall|name: Seq<char>| needs.contains(name) ==> defines(groups, name)
}

/// The body of a command that needs the parsed command line alone.
///
/// `needs` are the options that `exec` asks the command line for: the schema
/// has to know them.  `failure` and `planned` say what the two methods
/// return.
pub trait Executable {
    /// What the body hands out to be carried out.
    type Job: Copy;

    /// The options that `exec` asks the command line for.
    spec fn needs(&self) -> Set<Seq<char>>;

    /// What `handle_error` returns.
    spec fn failure(&self, e: Seq<char>) -> ExitView;

    /// What `exec` returns.
    spec fn planned(&self, m: Parsed) -> PlanView<Self::Job>;

    /// How the command leaves when a stream could not be opened, or failed
    /// while the job was carried out: `e` describes the failure.
    fn handle_error(&self, e: &str) -> (r: Exit)
        ensures
            r@ == self.failure(e@),
    ;

    /// What the command does for the command line `m`.
    fn exec(&self, m: &getopts::Matches) -> (r: Plan<Self::Job>)
        requires
            forall|name: Seq<char>| self.needs().contains(name) ==> matches_view(*m).defines(name),
        ensures
            r@ == self.planned(matches_view(*m)),
    ;
}

/// The body of a command that reads a buffered stream in a notation.
pub trait RunExecutable {
    /// What the body hands out to be carried out.
    type Job: Copy;

    /// The options that `exec` asks the command line for.
    spec fn needs(&self) -> Set<Seq<char>>;

    /// What `handle_error` returns.
    spec fn failure(&self, e: Seq<char>) -> ExitView;

    /// What `exec` returns.
    spec fn planned(&self, m: Parsed, buffer: StreamView, target: Option<Target>) -> PlanView<
        Self::Job,
    >;

    /// How the command leaves when a stream could not be opened, or failed
    /// while the job was carried out: `e` describes the failure.
    fn handle_error(&self, e: &str) -> (r: Exit)
        ensures
            r@ == self.failure(e@),
    ;

    /// What the command does for the command line `m`, once it reads
    /// `buffer`, which holds source text in the notation `target`.
    fn exec(&self, m: &getopts::Matches, buffer: &Stream, target: Option<Target>) -> (r: Plan<
        Self::Job,
    >)
        requires
            forall|name: Seq<char>| self.needs().contains(name) ==> matches_view(*m).defines(name),
        ensures
            r@ == self.planned(matches_view(*m), buffer@, target),
    ;
}

/// The body of a command that reads a buffered stream in a notation and
/// writes a stream.
pub trait BuildExecutable {
    /// What the body hands out to be carried out.
    type Job: Copy;

    /// The options that `exec` asks the command line for.
    spec fn needs(&self) -> Set<Seq<char>>;

    /// What `handle_error` returns.
    spec fn failure(&self, e: Seq<char>) -> ExitView;

    /// What `exec` returns.
    spec fn planned(
        &self,
        m: Parsed,
        buffer: StreamView,
        writer: StreamView,
        target: Option<Target>,
    ) -> PlanView<Self::Job>;

    /// How the command leaves when a stream could not be opened, or failed
    /// while the job was carried out: `e` describes the failure.
    fn handle_error(&self, e: &str) -> (r: Exit)
        ensures
            r@ == self.failure(e@),
    ;

    /// What the command does for the command line `m`, once it reads
    /// `buffer`, which holds source text in the notation `target`, and
    /// writes `writer`.
    fn exec(
        &self,
        m: &getopts::Matches,
        buffer: &Stream,
        writer: &Stream,
        target: Option<Target>,
    ) -> (r: Plan<Self::Job>)
        requires
            forall|name: Seq<char>| self.needs().contains(name) ==> matches_view(*m).defines(name),
        ensures
            r@ == self.planned(matches_view(*m), buffer@, writer@, target),
    ;
}

/// The body of a command that reads a stream as it is.
pub trait LoadExecutable {
    /// What the body hands out to be carried out.
    type Job: Copy;

    /// The options that `exec` asks the command line for.
    spec fn needs(&self) -> Set<Seq<char>>;

    /// What `handle_error` returns.
    spec fn failure(&self, e: Seq<char>) -> ExitView;

    /// What `exec` returns.
    spec fn planned(&self, m: Parsed, reader: StreamView) -> PlanView<Self::Job>;

    /// How the command leaves when a stream could not be opened, or failed
    /// while the job was carried out: `e` describes the failure.
    fn handle_error(&self, e: &str) -> (r: Exit)
        ensures
            r@ == self.failure(e@),
    ;

    /// What the command does for the command line `m`, once it reads
    /// `reader`.
    fn exec(&self, m: &getopts::Matches, reader: &Stream) -> (r: Plan<Self::Job>)
        requires
            forall|name: Seq<char>| self.needs().contains(name) ==> matches_view(*m).defines(name),
        ensures
            r@ == self.planned(matches_view(*m), reader@),
    ;
}

/// The body of a command that reads a stream as it is and writes a stream in
/// a notation.
pub trait GenerateExecutable {
    /// What the body hands out to be carried out.
    type Job: Copy;

    /// The options that `exec` asks the command line for.
    spec fn needs(&self) -> Set<Seq<char>>;

    /// What `handle_error` returns.
    spec fn failure(&self, e: Seq<char>) -> ExitView;

    /// What `exec` returns.
    spec fn planned(
        &self,
        m: Parsed,
        reader: StreamView,
        writer: StreamView,
        target: Option<Target>,
    ) -> PlanView<Self::Job>;

    /// How the command leaves when a stream could not be opened, or failed
    /// while the job was carried out: `e` describes the failure.
    fn handle_error(&self, e: &str) -> (r: Exit)
        ensures
            r@ == self.failure(e@),
    ;

    /// What the command does for the command line `m`, once it reads
    /// `reader` and writes `writer`, in the notation `target`.
    fn exec(
        &self,
        m: &getopts::Matches,
        reader: &Stream,
        writer: &Stream,
        target: Option<Target>,
    ) -> (r: Plan<Self::Job>)
        requires
            forall|name: Seq<char>| self.needs().contains(name) ==> matches_view(*m).defines(name),
        ensures
            r@ == self.planned(matches_view(*m), reader@, writer@, target),
    ;
}

/// The outermost layer of every command: it owns the schema, parses the
/// command line, and answers the help flag and a command line that does not
/// parse without asking the layers below.
pub struct Command<'a, T> {
    pub command: &'static str,
    pub usage: &'static str,
    pub options: &'a mut getopts::Options,
    pub inner: T,
}

impl<'a, E: Executable> Command<'a, E> {
    /// The schema can be parsed with, and knows the help flag and what the
    /// layers below ask for.
    pub open spec fn wf(&self) -> bool {
        &&& all_named(option_groups(*self.options))
        &&& defines(option_groups(*self.options), "h"@)
        &&& covers(option_groups(*self.options), self.inner.needs())
    }

    /// The first line of the usage text.
    pub open spec fn brief(&self) -> Seq<char> {
        "usage: albino "@ + self.command@ + " "@ + self.usage@
    }

    /// The usage text: the first line, and the table of the options.
    pub open spec fn usage_text(&self) -> Seq<char> {
        self.brief() + "\n\nOptions:\n"@ + option_table(
            option_groups(*self.options),
            option_modes(*self.options).1,
        ) + "\n"@
    }

    /// What the command does for a command line that parsed to `outcome`.
    ///
    /// A command line that was refused ends the command with the reason and
    /// the status 1.  One that holds the help flag ends it with the usage
    /// text and the status 0.  In both cases nothing is acquired and the
    /// body is not asked.  Any other command line goes to the layer below.
    pub open spec fn resolved(&self, outcome: Result<Parsed, Rejection>) -> PlanView<E::Job> {
        match outcome {
            Err(rejection) => PlanView::quit(ExitView::line(message(rejection), 1)),
            Ok(m) => if m.present("h"@) {
                PlanView::quit(ExitView { text: self.usage_text(), status: 0 })
            } else {
                self.inner.planned(m)
            },
        }
    }

    /// What `args` parses to under the schema of the command.
    pub open spec fn parsed(&self, args: Seq<Seq<char>>) -> Result<Parsed, Rejection> {
        parsed(option_groups(*self.options), option_modes(*self.options), args)
    }

    /// Makes the command called `command`, whose arguments `usage` sums up,
    /// around the layer `exec`.  The help flag joins the schema `options`.
    pub fn new(
        command: &'static str,
        usage: &'static str,
        options: &'a mut getopts::Options,
        exec: E,
    ) -> (r: Command<'a, E>)
        requires
            all_named(option_groups(*old(options))),
            covers(option_groups(*old(options)).push(help_group()), exec.needs()),
        ensures
            r.wf(),
            r.command@ == command@,
            r.usage@ == usage@,
            r.inner == exec,
            option_groups(*r.options) == option_groups(*old(options)).push(help_group()),
            option_modes(*r.options) == option_modes(*old(options)),
    {
        proof {
            reveal_strlit("h");
            reveal_strlit("help");
            lemma_names_push(option_groups(*old(options)), help_group(), "h"@);
        }
        optflag(options, "h", "help", "");
        Command { command, usage, options, inner: exec }
    }

    /// Opens the session of the command for the arguments `args` of the
    /// process (without the name of the program).
    pub fn exec(&self, args: &Vec<String>) -> (s: Session<E::Job>)
        requires
            self.wf(),
        ensures
            s@ == SessionView::opened(self.resolved(self.parsed(texts(args@)))),
    {
        let outcome = parse(&*self.options, args);
        self.begin(outcome)
    }

    /// Opens the session of the command for a command line that parsed to
    /// `outcome` under the schema of the command.
    pub fn begin(&self, outcome: Result<getopts::Matches, getopts::Fail>) -> (s: Session<E::Job>)
        requires
            self.wf(),
            outcome matches Ok(m) ==> matches_values(m).dom() == names(
                option_groups(*self.options),
            ),
        ensures
            s@ == SessionView::opened(
                self.resolved(
                    match outcome {
                        Ok(m) => Ok(matches_view(m)),
                        Err(fail) => Err(rejection(fail)),
                    },
                ),
            ),
    {
        let plan = match outcome {
            Err(fail) => {
                let message = fail_text(&fail);
                Plan::quit(Exit::line(message.as_str(), 1))
            },
            Ok(m) => {
                if opt_present(&m, "h") {
                    Plan::quit(Exit { text: self.help(), status: 0 })
                } else {
                    self.inner.exec(&m)
                }
            },
        };
        Session::open(plan)
    }

    /// How the command leaves when a stream could not be opened.
    pub fn handle_error(&self, e: &str) -> (r: Exit)
        ensures
            r@ == self.inner.failure(e@),
    {
        self.inner.handle_error(e)
    }

    /// The usage text of the command.
    pub fn help(&self) -> (text: String)
        ensures
            text@ == self.usage_text(),
    {
        let mut brief = String::from_str("usage: albino ");
        brief.append(self.command);
        brief.append(" ");
        brief.append(self.usage);
        usage(&*self.options, brief.as_str())
    }
}

/// A command line with the help flag makes the command leave at once, with
/// the usage text and the status 0, whatever else it holds and whatever the
/// layers below are: no stream is acquired and no job is carried out,
/// whatever the command is told afterwards.  The usage text begins with the
/// name of the program, the name of the command and the summary of its
/// arguments.
pub proof fn lemma_help<'a, E: Executable>(
    command: Command<'a, E>,
    m: Parsed,
    events: Seq<EventView>,
)
    requires
        m.present("h"@),
    ensures
        ({
            let session = SessionView::opened(command.resolved(Ok(m)));
            &&& session.action() == ActionView::<E::Job>::Exit(
                ExitView { text: command.usage_text(), status: 0 },
            )
            &&& session.run(events) == session
            &&& grants(session, events) == 0
            &&& jobs(session, events) == 0
        }),
        command.usage_text().subrange(0, command.brief().len() as int) == "usage: albino "@
            + command.command@ + " "@ + command.usage@,
{
    lemma_quit::<E::Job>(ExitView { text: command.usage_text(), status: 0 }, events);
    crate::session::lemma_closing(SessionView::opened(command.resolved(Ok(m))), events);
    assert(command.usage_text().subrange(0, command.brief().len() as int) =~= command.brief());
}

/// A command line that is refused makes the command leave at once, with the
/// reason on a line and the status 1: no stream is acquired and no job is
/// carried out, whatever the command is told afterwards.
pub proof fn lemma_refused<'a, E: Executable>(
    command: Command<'a, E>,
    rejection: Rejection,
    events: Seq<EventView>,
)
    ensures
        ({
            let session = SessionView::opened(command.resolved(Err(rejection)));
            &&& session.action() == ActionView::<E::Job>::Exit(
                ExitView { text: message(rejection) + "\n"@, status: 1 },
            )
            &&& session.run(events) == session
            &&& grants(session, events) == 0
            &&& jobs(session, events) == 0
        }),
{
    lemma_quit::<E::Job>(ExitView::line(message(rejection), 1), events);
    crate::session::lemma_closing(SessionView::opened(command.resolved(Err(rejection))), events);
}

/// A command that reads in a notation and writes, and whose command line
/// names no file, reads standard input and takes the notation from the
/// syntax option alone: the one that the option names, and the default
/// where the option is not given.  Standard input comes first in the plan,
/// then what the command writes to.
pub proof fn lemma_reads_standard_input<E: BuildExecutable>(
    layers: RunCommand<BuildCommand<E>>,
    m: Parsed,
)
    requires
        m.free.len() == 0,
    ensures
        ({
            let target = match m.value("s"@) {
                Some(name) => named(name),
                None => Some(Target::Whitespace),
            };
            let writer = output_of(m.value("o"@));
            layers.planned(m) == layers.inner.inner.planned(
                m,
                StreamView::Standard,
                writer,
                target,
            ).after(RequestView::Write(writer)).after(RequestView::Buffer(StreamView::Standard))
        }),
{
    lemma_default(Seq::empty());
}

/// A command that reads without a notation and writes in one takes the
/// notation from the syntax option or from the name of the file that it
/// writes.  The name of the file that it reads plays no part.
pub proof fn lemma_notation_of_output<E: GenerateExecutable>(
    layers: LoadCommand<GenerateCommand<E>>,
    m: Parsed,
    free: Seq<Seq<char>>,
)
    ensures
        ({
            let writer = output_of(m.value("o"@));
            let target = detected(m.value("s"@), writer.name());
            let other = Parsed { free, ..m };
            &&& layers.planned(m) == layers.inner.inner.planned(
                m,
                input_of(m.free),
                writer,
                target,
            ).after(RequestView::Write(writer)).after(RequestView::Read(input_of(m.free)))
            &&& layers.planned(other) == layers.inner.inner.planned(
                other,
                input_of(free),
                writer,
                target,
            ).after(RequestView::Write(writer)).after(RequestView::Read(input_of(free)))
        }),
{
}

/// The layer that reads: it opens the first free argument, or standard
/// input, behind a buffer, and detects the notation from the syntax option
/// or from the name of what it opened.
pub struct RunCommand<T> {
    pub inner: T,
}

impl<E: RunExecutable> RunCommand<E> {
    pub fn new<'a>(
        command: &'static str,
        usage: &'static str,
        options: &'a mut getopts::Options,
        exec: E,
    ) -> (r: Command<'a, RunCommand<E>>)
        requires
            all_named(option_groups(*old(options))),
            covers(
                option_groups(*old(options)).push(syntax_group()).push(help_group()),
                exec.needs(),
            ),
        ensures
            r.wf(),
            r.command@ == command@,
            r.usage@ == usage@,
            r.inner.inner == exec,
            option_groups(*r.options) == option_groups(*old(options)).push(syntax_group()).push(
                help_group(),
            ),
            option_modes(*r.options) == option_modes(*old(options)),
    {
        proof {
            reveal_strlit("s");
            reveal_strlit("syntax");
            let groups = option_groups(*old(options));
            lemma_names_push(groups, syntax_group(), "s"@);
            lemma_names_push(groups.push(syntax_group()), help_group(), "s"@);
        }
        optopt(options, "s", "syntax", "set input file syntax", "syntax");
        Command::new(command, usage, options, RunCommand { inner: exec })
    }
}

impl<E: RunExecutable> Executable for RunCommand<E> {
    type Job = E::Job;

    open spec fn needs(&self) -> Set<Seq<char>> {
        self.inner.needs().insert("s"@)
    }

    open spec fn failure(&self, e: Seq<char>) -> ExitView {
        self.inner.failure(e)
    }

    open spec fn planned(&self, m: Parsed) -> PlanView<E::Job> {
        let buffer = input_of(m.free);
        let target = detected(m.value("s"@), buffer.name());
        self.inner.planned(m, buffer, target).after(RequestView::Buffer(buffer))
    }

    fn handle_error(&self, e: &str) -> (r: Exit) {
        self.inner.handle_error(e)
    }

    fn exec(&self, m: &getopts::Matches) -> (r: Plan<E::Job>) {
        let syntax = opt_str(m, "s");
        let free = free_args(m);
        let buffer = input(&free);
        let target = detect_target(syntax, &buffer.name());
        let rest = self.inner.exec(m, &buffer, target);
        rest.after(Request::Buffer(buffer))
    }
}

/// The layer that writes, below one that reads in a notation: it opens the
/// file that the output option names, or standard output.
pub struct BuildCommand<T> {
    pub inner: T,
}

impl<E: BuildExecutable> BuildCommand<E> {
    pub fn new<'a>(
        command: &'static str,
        usage: &'static str,
        options: &'a mut getopts::Options,
        exec: E,
    ) -> (r: Command<'a, RunCommand<BuildCommand<E>>>)
        requires
            all_named(option_groups(*old(options))),
            covers(
                option_groups(*old(options)).push(output_group()).push(syntax_group()).push(
                    help_group(),
                ),
                exec.needs(),
            ),
        ensures
            r.wf(),
            r.command@ == command@,
            r.usage@ == usage@,
            r.inner.inner.inner == exec,
            option_groups(*r.options) == option_groups(*old(options)).push(output_group()).push(
                syntax_group(),
            ).push(help_group()),
            option_modes(*r.options) == option_modes(*old(options)),
    {
        proof {
            reveal_strlit("o");
            reveal_strlit("");
            let groups = option_groups(*old(options));
            lemma_names_push(groups, output_group(), "o"@);
            lemma_names_push(groups.push(output_group()), syntax_group(), "o"@);
            lemma_names_push(groups.push(output_group()).push(syntax_group()), help_group(), "o"@);
        }
        optopt(options, "o", "", "set output file name", "name");
        RunCommand::new(command, usage, options, BuildCommand { inner: exec })
    }
}

impl<E: BuildExecutable> RunExecutable for BuildCommand<E> {
    type Job = E::Job;

    open spec fn needs(&self) -> Set<Seq<char>> {
        self.inner.needs().insert("o"@)
    }

    open spec fn failure(&self, e: Seq<char>) -> ExitView {
        self.inner.failure(e)
    }

    open spec fn planned(&self, m: Parsed, buffer: StreamView, target: Option<Target>) -> PlanView<
        E::Job,
    > {
        let writer = output_of(m.value("o"@));
        self.inner.planned(m, buffer, writer, target).after(RequestView::Write(writer))
    }

    fn handle_error(&self, e: &str) -> (r: Exit) {
        self.inner.handle_error(e)
    }

    fn exec(&self, m: &getopts::Matches, buffer: &Stream, target: Option<Target>) -> (r: Plan<
        E::Job,
    >) {
        let writer = output(opt_str(m, "o"));
        let rest = self.inner.exec(m, buffer, &writer, target);
        rest.after(Request::Write(writer))
    }
}

/// The layer that reads without a notation: it opens the first free
/// argument, or standard input, as it is.
pub struct LoadCommand<T> {
    pub inner: T,
}

impl<E: LoadExecutable> LoadCommand<E> {
    pub fn new<'a>(
        command: &'static str,
        usage: &'static str,
        options: &'a mut getopts::Options,
        exec: E,
    ) -> (r: Command<'a, LoadCommand<E>>)
        requires
            all_named(option_groups(*old(options))),
            covers(option_groups(*old(options)).push(help_group()), exec.needs()),
        ensures
            r.wf(),
            r.command@ == command@,
            r.usage@ == usage@,
            r.inner.inner == exec,
            option_groups(*r.options) == option_groups(*old(options)).push(help_group()),
            option_modes(*r.options) == option_modes(*old(options)),
    {
        Command::new(command, usage, options, LoadCommand { inner: exec })
    }
}

impl<E: LoadExecutable> Executable for LoadCommand<E> {
    type Job = E::Job;

    open spec fn needs(&self) -> Set<Seq<char>> {
        self.inner.needs()
    }

    open spec fn failure(&self, e: Seq<char>) -> ExitView {
        self.inner.failure(e)
    }

    open spec fn planned(&self, m: Parsed) -> PlanView<E::Job> {
        let reader = input_of(m.free);
        self.inner.planned(m, reader).after(RequestView::Read(reader))
    }

    fn handle_error(&self, e: &str) -> (r: Exit) {
        self.inner.handle_error(e)
    }

    fn exec(&self, m: &getopts::Matches) -> (r: Plan<E::Job>) {
        let free = free_args(m);
        let reader = input(&free);
        let rest = self.inner.exec(m, &reader);
        rest.after(Request::Read(reader))
    }
}

/// The layer that writes in a notation, below one that reads without one:
/// it opens the file that the output option names, or standard output, and
/// detects the notation from the syntax option or from the name of what it
/// opened.
pub struct GenerateCommand<T> {
    pub inner: T,
}

impl<E: GenerateExecutable> GenerateCommand<E> {
    pub fn new<'a>(
        command: &'static str,
        usage: &'static str,
        options: &'a mut getopts::Options,
        exec: E,
    ) -> (r: Command<'a, LoadCommand<GenerateCommand<E>>>)
        requires
            all_named(option_groups(*old(options))),
            covers(
                option_groups(*old(options)).push(syntax_group()).push(output_group()).push(
                    help_group(),
                ),
                exec.needs(),
            ),
        ensures
            r.wf(),
            r.command@ == command@,
            r.usage@ == usage@,
            r.inner.inner.inner == exec,
            option_groups(*r.options) == option_groups(*old(options)).push(syntax_group()).push(
                output_group(),
            ).push(help_group()),
            option_modes(*r.options) == option_modes(*old(options)),
    {
        proof {
            reveal_strlit("s");
            reveal_strlit("syntax");
            reveal_strlit("o");
            reveal_strlit("");
            let groups = option_groups(*old(options));
            lemma_names_push(groups, syntax_group(), "s"@);
            lemma_names_push(groups.push(syntax_group()), output_group(), "s"@);
            lemma_names_push(groups.push(syntax_group()), output_group(), "o"@);
            lemma_names_push(groups.push(syntax_group()).push(output_group()), help_group(), "s"@);
            lemma_names_push(groups.push(syntax_group()).push(output_group()), help_group(), "o"@);
        }
        optopt(options, "s", "syntax", "set input file syntax", "syntax");
        optopt(options, "o", "", "set output file name", "name");
        LoadCommand::new(command, usage, options, GenerateCommand { inner: exec })
    }
}

impl<E: GenerateExecutable> LoadExecutable for GenerateCommand<E> {
    type Job = E::Job;

    open spec fn needs(&self) -> Set<Seq<char>> {
        self.inner.needs().insert("s"@).insert("o"@)
    }

    open spec fn failure(&self, e: Seq<char>) -> ExitView {
        self.inner.failure(e)
    }

    open spec fn planned(&self, m: Parsed, reader: StreamView) -> PlanView<E::Job> {
        let writer = output_of(m.value("o"@));
        let target = detected(m.value("s"@), writer.name());
        self.inner.planned(m, reader, writer, target).after(RequestView::Write(writer))
    }

    fn handle_error(&self, e: &str) -> (r: Exit) {
        self.inner.handle_error(e)
    }

    fn exec(&self, m: &getopts::Matches, reader: &Stream) -> (r: Plan<E::Job>) {
        let syntax = opt_str(m, "s");
        let writer = output(opt_str(m, "o"));
        let target = detect_target(syntax, &writer.name());
        let rest = self.inner.exec(m, reader, &writer, target);
        rest.after(Request::Write(writer))
    }
}

} // verus!
