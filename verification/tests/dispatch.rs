use albino::command::Exit;
use albino::dispatch::{Action, Dispatcher, Event, Program};

fn args(list: &[&str]) -> Vec<String> {
    list.iter().map(|arg| arg.to_string()).collect()
}

fn exit(text: &str, status: i32) -> Exit {
    Exit { text: text.to_string(), status }
}

const HELP: &str = "Commands:\n  build          # compile the source code file\n  exec           # execute the bytecode file\n  run            # build and execute\n\n";

#[test]
fn help_is_the_list_of_subcommands() {
    for word in ["--help", "-h", "help", "-?"] {
        let dispatcher = Dispatcher::start(&args(&[word]), "1.0", "");
        assert_eq!(dispatcher.action(), Action::Exit(exit(HELP, 0)));
        let dispatcher = Dispatcher::start(&args(&[word, "build", "x"]), "1.0", ".exe");
        assert_eq!(dispatcher.action(), Action::Exit(exit(HELP, 0)));
    }
}

#[test]
fn no_subcommand_asks_for_help() {
    let dispatcher = Dispatcher::start(&args(&[]), "1.0", "");
    assert_eq!(dispatcher.action(), Action::Exit(exit(HELP, 0)));
}

#[test]
fn version_names_the_program_and_the_engine() {
    for word in ["--version", "-v", "version"] {
        let dispatcher = Dispatcher::start(&args(&[word]), "0.3.1", "");
        assert_eq!(
            dispatcher.action(),
            Action::Exit(exit("albino 0.1.0-pre, whitebase 0.3.1\n", 0))
        );
    }
}

#[test]
fn version_starts_no_child() {
    let dispatcher = Dispatcher::start(&args(&["version", "build"]), "0.3.1", "");
    let dispatcher = dispatcher
        .step(Event::Located(true))
        .step(Event::Ended { success: false, code: Some(3) })
        .step(Event::NotSpawned("gone".to_string()));
    assert_eq!(
        dispatcher.action(),
        Action::Exit(exit("albino 0.1.0-pre, whitebase 0.3.1\n", 0))
    );
}

#[test]
fn a_subcommand_is_looked_for_beside_the_dispatcher() {
    let dispatcher = Dispatcher::start(&args(&["build", "-o", "x", "y.bf"]), "1.0", "");
    assert_eq!(dispatcher.action(), Action::Locate("albino-build".to_string()));
    let dispatcher = dispatcher.step(Event::Located(true));
    assert_eq!(
        dispatcher.action(),
        Action::Spawn {
            program: Program::Sibling("albino-build".to_string()),
            args: args(&["-o", "x", "y.bf"]),
        }
    );
}

#[test]
fn a_subcommand_that_is_not_there_is_searched_for() {
    let dispatcher = Dispatcher::start(&args(&["frobnicate"]), "1.0", "");
    assert_eq!(dispatcher.action(), Action::Locate("albino-frobnicate".to_string()));
    let dispatcher = dispatcher.step(Event::Located(false));
    assert_eq!(
        dispatcher.action(),
        Action::Spawn {
            program: Program::Search("albino-frobnicate".to_string()),
            args: args(&[]),
        }
    );
    let dispatcher = dispatcher.step(Event::NotSpawned("No such file or directory".to_string()));
    assert_eq!(
        dispatcher.action(),
        Action::Exit(exit("No such file or directory\n", 127))
    );
}

#[test]
fn the_name_of_the_executable_ends_in_the_suffix() {
    let dispatcher = Dispatcher::start(&args(&["run", "a"]), "1.0", ".exe");
    assert_eq!(dispatcher.action(), Action::Locate("albino-run.exe".to_string()));
    let dispatcher = Dispatcher::start(&args(&[""]), "1.0", "");
    assert_eq!(dispatcher.action(), Action::Locate("albino-".to_string()));
    let dispatcher = Dispatcher::start(&args(&["Help"]), "1.0", "");
    assert_eq!(dispatcher.action(), Action::Locate("albino-Help".to_string()));
}

fn ended(success: bool, code: Option<i32>) -> Action {
    Dispatcher::start(&args(&["exec", "a.bin"]), "1.0", "")
        .step(Event::Located(true))
        .step(Event::Ended { success, code })
        .action()
}

#[test]
fn the_status_of_the_child_is_that_of_the_dispatcher() {
    assert_eq!(ended(false, Some(3)), Action::Exit(exit("", 3)));
    assert_eq!(ended(false, Some(1)), Action::Exit(exit("", 1)));
    assert_eq!(ended(false, Some(2)), Action::Exit(exit("", 2)));
    assert_eq!(ended(false, Some(-1)), Action::Exit(exit("", -1)));
    assert_eq!(ended(false, Some(255)), Action::Exit(exit("", 255)));
}

#[test]
fn a_child_that_succeeds_gives_status_zero() {
    assert_eq!(ended(true, Some(0)), Action::Exit(exit("", 0)));
    assert_eq!(ended(true, None), Action::Exit(exit("", 0)));
}

#[test]
fn a_child_without_a_code_gives_status_127() {
    assert_eq!(ended(false, None), Action::Exit(exit("", 127)));
}

#[test]
fn the_dispatcher_waits_for_the_answer_that_is_due() {
    let dispatcher = Dispatcher::start(&args(&["build"]), "1.0", "");
    let dispatcher = dispatcher
        .step(Event::Ended { success: true, code: Some(0) })
        .step(Event::NotSpawned("early".to_string()));
    assert_eq!(dispatcher.action(), Action::Locate("albino-build".to_string()));
    let dispatcher = dispatcher.step(Event::Located(false)).step(Event::Located(true));
    assert_eq!(
        dispatcher.action(),
        Action::Spawn { program: Program::Search("albino-build".to_string()), args: args(&[]) }
    );
    let dispatcher = dispatcher
        .step(Event::Ended { success: false, code: Some(3) })
        .step(Event::Ended { success: true, code: Some(0) })
        .step(Event::Located(true));
    assert_eq!(dispatcher.action(), Action::Exit(exit("", 3)));
}
