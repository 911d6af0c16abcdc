//! The top-level program, which hands a subcommand to the executable that
//! implements it.
//!
//! The subcommand `build` is the work of the executable `albino-build`, and
//! so on.  The dispatcher prefers the executable of that name that lies
//! beside its own, and otherwise lets the system search for the name.  It
//! starts the executable with what is left of its arguments and with its own
//! standard streams, waits, and leaves with the status of its child.  Help
//! and the version it answers itself.

use vstd::prelude::*;
use vstd::string::*;
use crate::command::{Exit, ExitView};
use crate::options::texts;
use crate::{version, version_text};

verus! {

/// The executable that is to be started.
#[derive(Debug, Clone, PartialEq, Eq)]
pub enum Program {
    /// The file of this name in the directory of the dispatcher's own
    /// executable.
    Sibling(String),
    /// Whatever the system finds under this name.
    Search(String),
}

pub enum ProgramView {
    Sibling(Seq<char>),
    Search(Seq<char>),
}

impl View for Program {
    type V = ProgramView;

    open spec fn view(&self) -> ProgramView {
        match self {
            Program::Sibling(name) => ProgramView::Sibling(name@),
            Program::Search(name) => ProgramView::Search(name@),
        }
    }
}

/// What is to be done next.
#[derive(Debug, Clone, PartialEq, Eq)]
pub enum Action {
    /// Find out whether a file of this name lies beside the dispatcher's
    /// own executable.
    Locate(String),
    /// Start the program with these arguments and the standard streams of
    /// the dispatcher, and wait for it to end.
    Spawn { program: Program, args: Vec<String> },
    /// Print the text and end the process with the status.
    Exit(Exit),
}

pub enum ActionView {
    Locate(Seq<char>),
    Spawn { program: ProgramView, args: Seq<Seq<char>> },
    Exit(ExitView),
}

impl View for Action {
    type V = ActionView;

    open spec fn view(&self) -> ActionView {
        match self {
            Action::Locate(name) => ActionView::Locate(name@),
            Action::Spawn { program, args } => ActionView::Spawn {
                program: program@,
                args: texts(args@),
            },
            Action::Exit(exit) => ActionView::Exit(exit@),
        }
    }
}

/// What came of an action.
#[derive(Debug, Clone, PartialEq, Eq)]
pub enum Event {
    /// Whether the file lies there.  Where the dispatcher's own executable
    /// is not known, it does not.
    Located(bool),
    /// The child ended: whether it reports success, and its exit code where
    /// it has one.
    Ended { success: bool, code: Option<i32> },
    /// The program could not be started, for the reason given.
    NotSpawned(String),
}

pub enum EventView {
    Located(bool),
    Ended { success: bool, code: Option<i32> },
    NotSpawned(Seq<char>),
}

impl View for Event {
    type V = EventView;

    open spec fn view(&self) -> EventView {
        match self {
            Event::Located(found) => EventView::Located(*found),
            Event::Ended { success, code } => EventView::Ended { success: *success, code: *code },
            Event::NotSpawned(reason) => EventView::NotSpawned(reason@),
        }
    }
}

/// Where the dispatcher stands.
#[derive(Debug, Clone, PartialEq, Eq)]
pub enum Dispatcher {
    /// It looks for the executable called `name`.
    Locating { name: String, args: Vec<String> },
    /// Its child runs, or is about to.
    Spawning { program: Program, args: Vec<String> },
    /// It leaves.
    Leaving(Exit),
}

pub enum DispatcherView {
    Locating { name: Seq<char>, args: Seq<Seq<char>> },
    Spawning { program: ProgramView, args: Seq<Seq<char>> },
    Leaving(ExitView),
}

impl View for Dispatcher {
    type V = DispatcherView;

    open spec fn view(&self) -> DispatcherView {
        match self {
            Dispatcher::Locating { name, args } => DispatcherView::Locating {
                name: name@,
                args: texts(args@),
            },
            Dispatcher::Spawning { program, args } => DispatcherView::Spawning {
                program: program@,
                args: texts(args@),
            },
            Dispatcher::Leaving(exit) => DispatcherView::Leaving(exit@),
        }
    }
}

/// The subcommand that `args` ask for: the first of them, and help where
/// there is none.
pub open spec fn subcommand(args: Seq<Seq<char>>) -> Seq<char> {
    if args.len() > 0 {
        args[0]
    } else {
        "--help"@
    }
}

/// The arguments that the subcommand gets: all but the first.
pub open spec fn forwarded(args: Seq<Seq<char>>) -> Seq<Seq<char>> {
    if args.len() > 0 {
        args.skip(1)
    } else {
        Seq::empty()
    }
}

/// Whether `cmd` asks for the list of subcommands.
pub open spec fn asks_help(cmd: Seq<char>) -> bool {
    cmd == "--help"@ || cmd == "-h"@ || cmd == "help"@ || cmd == "-?"@
}

/// Whether `cmd` asks for the versions.
pub open spec fn asks_version(cmd: Seq<char>) -> bool {
    cmd == "--version"@ || cmd == "-v"@ || cmd == "version"@
}

/// The list of subcommands.
pub open spec fn help_text() -> Seq<char> {
    "Commands:\n  build          # compile the source code file\n  exec           # execute the bytecode file\n  run            # build and execute\n\n"@
}

/// The line of the versions: that of the program, and that of the engine.
pub open spec fn version_line(engine: Seq<char>) -> Seq<char> {
    "albino "@ + version_text() + ", whitebase "@ + engine + "\n"@
}

/// The name of the executable of the subcommand `cmd`, where executables
/// end in `suffix`.
pub open spec fn executable(cmd: Seq<char>, suffix: Seq<char>) -> Seq<char> {
    "albino-"@ + cmd + suffix
}

/// How the dispatcher leaves for a child that ended in the given way: with
/// the status 0 for success, else with the code of the child, and with 127
/// where it has none.
pub open spec fn ended_as(success: bool, code: Option<i32>) -> ExitView {
    ExitView {
        text: Seq::empty(),
        status: if success {
            0
        } else {
            match code {
                Some(code) => code,
                None => 127,
            }
        },
    }
}

impl DispatcherView {
    /// The dispatcher for the arguments `args` of the process (without the
    /// name of the program), where the engine has the version `engine`.
    pub open spec fn started(
        args: Seq<Seq<char>>,
        engine: Seq<char>,
        suffix: Seq<char>,
    ) -> DispatcherView {
        let cmd = subcommand(args);
        if asks_help(cmd) {
            DispatcherView::Leaving(ExitView { text: help_text(), status: 0 })
        } else if asks_version(cmd) {
            DispatcherView::Leaving(ExitView { text: version_line(engine), status: 0 })
        } else {
            DispatcherView::Locating { name: executable(cmd, suffix), args: forwarded(args) }
        }
    }

    /// The action that is due.
    pub open spec fn action(self) -> ActionView {
        match self {
            DispatcherView::Locating { name, args } => ActionView::Locate(name),
            DispatcherView::Spawning { program, args } => ActionView::Spawn { program, args },
            DispatcherView::Leaving(exit) => ActionView::Exit(exit),
        }
    }

    /// The dispatcher after `event`.  An event that does not answer the
    /// action that is due changes nothing.
    pub open spec fn next(self, event: EventView) -> DispatcherView {
        match (self, event) {
            (DispatcherView::Locating { name, args }, EventView::Located(found)) => {
                DispatcherView::Spawning {
                    program: if found {
                        ProgramView::Sibling(name)
                    } else {
                        ProgramView::Search(name)
                    },
                    args,
                }
            },
            (DispatcherView::Spawning { program, args }, EventView::Ended { success, code }) => {
                DispatcherView::Leaving(ended_as(success, code))
            },
            (DispatcherView::Spawning { program, args }, EventView::NotSpawned(reason)) => {
                DispatcherView::Leaving(ExitView::line(reason, 127))
            },
            _ => self,
        }
    }

    /// The dispatcher after each of `events`, in order.
    pub open spec fn run(self, events: Seq<EventView>) -> DispatcherView
        decreases events.len(),
    {
        if events.len() == 0 {
            self
        } else {
            self.run(events.drop_last()).next(events.last())
        }
    }
}

/// The dispatcher answers a request for help or for the versions itself: it
/// leaves at once with the status 0 and starts no child, whatever it is
/// told afterwards.  Without a subcommand it gives help.
pub proof fn lemma_answers_itself(
    args: Seq<Seq<char>>,
    engine: Seq<char>,
    suffix: Seq<char>,
    events: Seq<EventView>,
)
    requires
        args.len() == 0 || asks_help(args[0]) || asks_version(args[0]),
    ensures
        ({
            let dispatcher = DispatcherView::started(args, engine, suffix);
            &&& dispatcher.action() == ActionView::Exit(
                ExitView {
                    text: if asks_help(subcommand(args)) {
                        help_text()
                    } else {
                        version_line(engine)
                    },
                    status: 0,
                },
            )
            &&& dispatcher.run(events) == dispatcher
        }),
    decreases events.len(),
{
    if events.len() > 0 {
        lemma_answers_itself(args, engine, suffix, events.drop_last());
    }
}

/// Any other subcommand goes to the executable that is named after it: the
/// one beside the dispatcher where it is found there, else the one that the
/// system finds.  The child gets the arguments behind the subcommand.  The
/// dispatcher leaves with the status 0 where the child succeeded, else with
/// the code of the child, with 127 where the child has no code, and with a
/// line that gives the reason and the status 127 where no child could be
/// started.
pub proof fn lemma_hands_over(
    args: Seq<Seq<char>>,
    engine: Seq<char>,
    suffix: Seq<char>,
    found: bool,
    success: bool,
    code: Option<i32>,
    reason: Seq<char>,
)
    requires
        args.len() > 0,
        !asks_help(args[0]),
        !asks_version(args[0]),
    ensures
        ({
            let name = "albino-"@ + args[0] + suffix;
            let dispatcher = DispatcherView::started(args, engine, suffix);
            let spawning = dispatcher.next(EventView::Located(found));
            &&& dispatcher.action() == ActionView::Locate(name)
            &&& spawning.action() == ActionView::Spawn {
                program: if found {
                    ProgramView::Sibling(name)
                } else {
                    ProgramView::Search(name)
                },
                args: args.skip(1),
            }
            &&& spawning.next(EventView::Ended { success, code }).action() == ActionView::Exit(
                ExitView {
                    text: Seq::empty(),
                    status: if success {
                        0
                    } else if code is Some {
                        code->0
                    } else {
                        127
                    },
                },
            )
            &&& spawning.next(EventView::NotSpawned(reason)).action() == ActionView::Exit(
                ExitView { text: reason + "\n"@, status: 127 },
            )
        }),
{
}

/// Whether `word` is `literal`.
fn same(word: &String, literal: &str) -> (r: bool)
    ensures
        r == (word@ == literal@),
{
    *word == String::from_str(literal)
}

/// A copy of `args` without its first `from` strings.
fn rest(args: &Vec<String>, from: usize) -> (r: Vec<String>)
    requires
        from <= args.len(),
    ensures
        texts(r@) == texts(args@).skip(from as int),
{
    let mut r: Vec<String> = Vec::new();
    let mut i: usize = from;
    while i < args.len()
        invariant
            from <= i <= args.len(),
            r.len() == i - from,
            forall|j: int| 0 <= j < r.len() ==> r@[j]@ == args@[from + j]@,
        decreases args.len() - i,
    {
        r.push(args[i].clone());
        i += 1;
    }
    assert(texts(r@) =~= texts(args@).skip(from as int));
    r
}

impl Dispatcher {
    /// The dispatcher for the arguments `args` of the process (without the
    /// name of the program), where the engine has the version `engine` and
    /// the names of executables end in `suffix`.
    pub fn start(args: &Vec<String>, engine: &str, suffix: &str) -> (r: Dispatcher)
        ensures
            r@ == DispatcherView::started(texts(args@), engine@, suffix@),
    {
        let cmd = if args.len() > 0 {
            args[0].clone()
        } else {
            String::from_str("--help")
        };
        if same(&cmd, "--help") || same(&cmd, "-h") || same(&cmd, "help") || same(&cmd, "-?") {
            let text = String::from_str(
                "Commands:\n  build          # compile the source code file\n  exec           # execute the bytecode file\n  run            # build and execute\n\n",
            );
            Dispatcher::Leaving(Exit { text, status: 0 })
        } else if same(&cmd, "--version") || same(&cmd, "-v") || same(&cmd, "version") {
            let mut text = String::from_str("albino ");
            text.append(version().as_str());
            text.append(", whitebase ");
            text.append(engine);
            text.append("\n");
            Dispatcher::Leaving(Exit { text, status: 0 })
        } else {
            let mut name = String::from_str("albino-");
            name.append(cmd.as_str());
            name.append(suffix);
            let args = if args.len() > 0 {
                rest(args, 1)
            } else {
                Vec::new()
            };
            Dispatcher::Locating { name, args }
        }
    }

    /// The action that is due.
    pub fn action(&self) -> (action: Action)
        ensures
            action@ == self@.action(),
    {
        match self {
            Dispatcher::Locating { name, args } => Action::Locate(name.clone()),
            Dispatcher::Spawning { program, args } => {
                let program = match program {
                    Program::Sibling(name) => Program::Sibling(name.clone()),
                    Program::Search(name) => Program::Search(name.clone()),
                };
                assert(texts(args@).skip(0) =~= texts(args@));
                Action::Spawn { program, args: rest(args, 0) }
            },
            Dispatcher::Leaving(exit) => Action::Exit(exit.copy()),
        }
    }

    /// The dispatcher after `event`, which tells what came of the action
    /// that was due.
    pub fn step(self, event: Event) -> (next: Dispatcher)
        ensures
            next@ == self@.next(event@),
    {
        match (self, event) {
            (Dispatcher::Locating { name, args }, Event::Located(found)) => {
                let program = if found {
                    Program::Sibling(name)
                } else {
                    Program::Search(name)
                };
                Dispatcher::Spawning { program, args }
            },
            (Dispatcher::Spawning { program, args }, Event::Ended { success, code }) => {
                let status = if success {
                    0
                } else {
                    match code {
                        Some(code) => code,
                        None => 127,
                    }
                };
                Dispatcher::Leaving(Exit { text: String::new(), status })
            },
            (Dispatcher::Spawning { program, args }, Event::NotSpawned(reason)) => {
                Dispatcher::Leaving(Exit::line(reason.as_str(), 127))
            },
            (state, _) => state,
        }
    }
}

} // verus!
