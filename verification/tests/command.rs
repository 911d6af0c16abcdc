use albino::command::{
    input, output, BuildCommand, BuildExecutable, Executable, Exit, GenerateCommand,
    GenerateExecutable, LoadCommand, LoadExecutable, Plan, Request, RunCommand, RunExecutable,
    Stream, Verdict,
};
use albino::session::{Action, Event};
use albino::tools::{self, Builder, Bytecode, Executor, Generator, Runner};
use albino::util::Target;
use getopts::Options;

fn args(list: &[&str]) -> Vec<String> {
    list.iter().map(|arg| arg.to_string()).collect()
}

fn file(name: &str) -> Stream {
    Stream::File(name.to_string())
}

fn exit(text: &str, status: i32) -> Exit {
    Exit { text: text.to_string(), status }
}

const ANY_NOTATION: &str =
    "syntax should be \"asm\", \"bf\", \"dt\", \"ook\" or \"ws\" (default: ws)\n";

const WRITTEN_NOTATION: &str = "syntax should be \"asm\", \"dt\" or \"ws\" (default: ws)\n";

#[test]
fn input_is_the_first_free_argument() {
    assert_eq!(input(&args(&["a.bf"])), file("a.bf"));
    assert_eq!(input(&args(&["a.bf", "b.bf"])), file("a.bf"));
    assert_eq!(input(&args(&[""])), file(""));
}

#[test]
fn input_is_standard_without_free_arguments() {
    assert_eq!(input(&args(&[])), Stream::Standard);
}

#[test]
fn output_is_the_named_file_or_standard() {
    assert_eq!(output(Some("out.ws".to_string())), file("out.ws"));
    assert_eq!(output(Some(String::new())), file(""));
    assert_eq!(output(None), Stream::Standard);
}

#[test]
fn a_stream_is_detected_by_its_name() {
    assert_eq!(file("a.ook").name(), "a.ook");
    assert_eq!(Stream::Standard.name(), "");
    assert_eq!(file("a.ook").copy(), file("a.ook"));
    assert_eq!(Request::Write(file("x")).copy(), Request::Write(file("x")));
}

#[test]
fn an_exit_line_ends_with_a_line_end() {
    assert_eq!(Exit::line("no such file", 1), exit("no such file\n", 1));
    assert_eq!(Exit::line("", 2), exit("\n", 2));
    assert_eq!(exit("x", 3).copy(), exit("x", 3));
}

#[test]
fn plans_grow_at_the_front() {
    let plan = Plan::run(Target::DT)
        .after(Request::Write(Stream::Standard))
        .after(Request::Buffer(file("a.dt")));
    assert_eq!(
        plan.requests,
        vec![Request::Buffer(file("a.dt")), Request::Write(Stream::Standard)]
    );
    assert_eq!(plan.verdict, Verdict::Run(Target::DT));
    let quit: Plan<Target> = Plan::quit(exit("bye", 1));
    assert_eq!(quit.requests, vec![]);
    assert_eq!(quit.verdict, Verdict::Quit(exit("bye", 1)));
}

#[test]
fn build_plans_input_then_output() {
    let mut options = Options::new();
    let command = tools::build(&mut options);
    let matches = command
        .options
        .parse(args(&["-o", "out.bin", "prog.bf"]))
        .unwrap();
    let plan = command.inner.exec(&matches);
    assert_eq!(
        plan.requests,
        vec![Request::Buffer(file("prog.bf")), Request::Write(file("out.bin"))]
    );
    assert_eq!(plan.verdict, Verdict::Run(Target::Brainfuck));
}

#[test]
fn build_takes_the_notation_from_the_input_not_the_output() {
    let mut options = Options::new();
    let command = tools::build(&mut options);
    let session = command.exec(&args(&["-o", "out.asm", "prog.ook"]));
    let session = session.step(Event::Granted).step(Event::Granted);
    assert_eq!(session.action(), Action::Run(Target::Ook));
}

#[test]
fn build_without_a_file_reads_standard_input() {
    let mut options = Options::new();
    let command = tools::build(&mut options);
    let session = command.exec(&args(&[]));
    assert_eq!(session.action(), Action::Acquire(Request::Buffer(Stream::Standard)));
    let session = session.step(Event::Granted);
    assert_eq!(session.action(), Action::Acquire(Request::Write(Stream::Standard)));
    let session = session.step(Event::Granted);
    assert_eq!(session.action(), Action::Run(Target::Whitespace));
}

#[test]
fn build_without_a_file_takes_the_notation_from_the_option() {
    let mut options = Options::new();
    let command = tools::build(&mut options);
    let session = command.exec(&args(&["-s", "bf"]));
    assert_eq!(session.action(), Action::Acquire(Request::Buffer(Stream::Standard)));
    let session = session.step(Event::Granted).step(Event::Granted);
    assert_eq!(session.action(), Action::Run(Target::Brainfuck));

    let session = command.exec(&args(&["--syntax=dt", "-o", "x.asm"]));
    assert_eq!(session.action(), Action::Acquire(Request::Buffer(Stream::Standard)));
    let session = session.step(Event::Granted);
    assert_eq!(session.action(), Action::Acquire(Request::Write(file("x.asm"))));
    let session = session.step(Event::Granted);
    assert_eq!(session.action(), Action::Run(Target::DT));
}

#[test]
fn build_opens_its_streams_before_it_refuses_a_notation() {
    let mut options = Options::new();
    let command = tools::build(&mut options);
    let session = command.exec(&args(&["-s", "bogus", "-o", "out.bin", "prog.bf"]));
    assert_eq!(session.action(), Action::Acquire(Request::Buffer(file("prog.bf"))));
    let session = session.step(Event::Granted);
    assert_eq!(session.action(), Action::Acquire(Request::Write(file("out.bin"))));
    let session = session.step(Event::Granted);
    assert_eq!(session.action(), Action::Release);
    let session = session.step(Event::Released);
    assert_eq!(session.action(), Action::Release);
    let session = session.step(Event::Released);
    assert_eq!(session.action(), Action::Exit(exit(ANY_NOTATION, 1)));
}

#[test]
fn run_reads_and_does_not_write() {
    let mut options = Options::new();
    let command = tools::run(&mut options);
    let session = command.exec(&args(&["prog.asm"]));
    assert_eq!(session.action(), Action::Acquire(Request::Buffer(file("prog.asm"))));
    let session = session.step(Event::Granted);
    assert_eq!(session.action(), Action::Run(Target::Assembly));
}

#[test]
fn run_prefers_the_option_to_the_extension() {
    let mut options = Options::new();
    let command = tools::run(&mut options);
    let session = command.exec(&args(&["prog.asm", "--syntax", "ws"]));
    let session = session.step(Event::Granted);
    assert_eq!(session.action(), Action::Run(Target::Whitespace));
}

#[test]
fn run_refuses_an_unknown_notation() {
    let mut options = Options::new();
    let command = tools::run(&mut options);
    let session = command.exec(&args(&["-s", "bogus", "prog.asm"]));
    let session = session.step(Event::Granted);
    assert_eq!(session.action(), Action::Release);
    let session = session.step(Event::Released);
    assert_eq!(session.action(), Action::Exit(exit(ANY_NOTATION, 1)));
}

#[test]
fn run_has_no_output_option() {
    let mut options = Options::new();
    let command = tools::run(&mut options);
    let session = command.exec(&args(&["-o", "out", "prog.asm"]));
    assert_eq!(
        session.action(),
        Action::Exit(exit("Unrecognized option: 'o'\n", 1))
    );
}

#[test]
fn exec_reads_without_a_notation() {
    let mut options = Options::new();
    let command = tools::exec(&mut options);
    let session = command.exec(&args(&["prog.bin"]));
    assert_eq!(session.action(), Action::Acquire(Request::Read(file("prog.bin"))));
    let session = session.step(Event::Granted);
    assert_eq!(session.action(), Action::Run(Bytecode));

    let session = command.exec(&args(&[]));
    assert_eq!(session.action(), Action::Acquire(Request::Read(Stream::Standard)));
    let session = session.step(Event::Granted);
    assert_eq!(session.action(), Action::Run(Bytecode));
}

#[test]
fn exec_has_no_syntax_option() {
    let mut options = Options::new();
    let command = tools::exec(&mut options);
    let session = command.exec(&args(&["-s", "bf", "prog.bin"]));
    assert_eq!(
        session.action(),
        Action::Exit(exit("Unrecognized option: 's'\n", 1))
    );
}

#[test]
fn gen_takes_the_notation_from_the_output_file() {
    let mut options = Options::new();
    let command = tools::gen(&mut options);
    let session = command.exec(&args(&["a.dt", "-o", "b.asm"]));
    assert_eq!(session.action(), Action::Acquire(Request::Read(file("a.dt"))));
    let session = session.step(Event::Granted);
    assert_eq!(session.action(), Action::Acquire(Request::Write(file("b.asm"))));
    let session = session.step(Event::Granted);
    assert_eq!(session.action(), Action::Run(Target::Assembly));
}

#[test]
fn gen_takes_the_notation_from_the_option() {
    let mut options = Options::new();
    let command = tools::gen(&mut options);
    let session = command.exec(&args(&["a.dt", "-s", "asm"]));
    assert_eq!(session.action(), Action::Acquire(Request::Read(file("a.dt"))));
    let session = session.step(Event::Granted);
    assert_eq!(session.action(), Action::Acquire(Request::Write(Stream::Standard)));
    let session = session.step(Event::Granted);
    assert_eq!(session.action(), Action::Run(Target::Assembly));

    let session = command.exec(&args(&["a.dt", "-s", "dt", "-o", "b.asm"]));
    let session = session.step(Event::Granted).step(Event::Granted);
    assert_eq!(session.action(), Action::Run(Target::DT));
}

#[test]
fn gen_ignores_the_name_of_its_input() {
    let mut options = Options::new();
    let command = tools::gen(&mut options);
    let session = command.exec(&args(&["a.asm"]));
    let session = session.step(Event::Granted).step(Event::Granted);
    assert_eq!(session.action(), Action::Run(Target::Whitespace));

    let session = command.exec(&args(&["a.asm", "-o", "b.dt"]));
    let session = session.step(Event::Granted).step(Event::Granted);
    assert_eq!(session.action(), Action::Run(Target::DT));
}

#[test]
fn gen_refuses_what_cannot_be_generated() {
    let mut options = Options::new();
    let command = tools::gen(&mut options);
    for line in [
        args(&["a.bin", "-o", "b.bf"]),
        args(&["a.bin", "-o", "b.ook"]),
        args(&["a.bin", "-s", "bf"]),
        args(&["a.bin", "-s", "ook", "-o", "b.asm"]),
        args(&["a.bin", "-s", "bogus", "-o", "b.asm"]),
    ] {
        let session = command.exec(&line);
        let session = session.step(Event::Granted).step(Event::Granted);
        assert_eq!(session.action(), Action::Release);
        let session = session.step(Event::Released).step(Event::Released);
        assert_eq!(session.action(), Action::Exit(exit(WRITTEN_NOTATION, 1)));
    }
}

#[test]
fn bodies_decide_on_the_notation_alone() {
    let matches = Options::new().parse(args(&[])).unwrap();
    let input = file("in");
    let out = file("out");
    assert_eq!(
        Builder.exec(&matches, &input, &out, Some(Target::Ook)).verdict,
        Verdict::Run(Target::Ook)
    );
    assert_eq!(
        Builder.exec(&matches, &input, &out, None).verdict,
        Verdict::Quit(exit(ANY_NOTATION, 1))
    );
    assert_eq!(
        Runner.exec(&matches, &input, Some(Target::Brainfuck)).verdict,
        Verdict::Run(Target::Brainfuck)
    );
    assert_eq!(
        Runner.exec(&matches, &input, None).verdict,
        Verdict::Quit(exit(ANY_NOTATION, 1))
    );
    for target in [Target::Assembly, Target::DT, Target::Whitespace] {
        assert_eq!(
            Generator.exec(&matches, &input, &out, Some(target)).verdict,
            Verdict::Run(target)
        );
    }
    for target in [Some(Target::Brainfuck), Some(Target::Ook), None] {
        assert_eq!(
            Generator.exec(&matches, &input, &out, target).verdict,
            Verdict::Quit(exit(WRITTEN_NOTATION, 1))
        );
    }
    assert_eq!(Executor.exec(&matches, &input).verdict, Verdict::Run(Bytecode));
    assert_eq!(Builder.exec(&matches, &input, &out, None).requests, vec![]);
}

#[test]
fn bodies_report_a_failure_on_a_line_with_status_one() {
    assert_eq!(Builder.handle_error("boom"), exit("boom\n", 1));
    assert_eq!(Runner.handle_error("boom"), exit("boom\n", 1));
    assert_eq!(Generator.handle_error("boom"), exit("boom\n", 1));
    assert_eq!(Executor.handle_error("boom"), exit("boom\n", 1));
}

#[test]
fn layers_hand_a_failure_to_the_body() {
    let mut options = Options::new();
    let command = tools::build(&mut options);
    assert_eq!(command.handle_error("a.bf: not found"), exit("a.bf: not found\n", 1));
    assert_eq!(command.inner.handle_error("x"), exit("x\n", 1));
    assert_eq!(command.inner.inner.handle_error("y"), exit("y\n", 1));
    let mut options = Options::new();
    let command = tools::gen(&mut options);
    assert_eq!(command.handle_error("z"), exit("z\n", 1));
}

#[test]
fn a_job_ends_with_status_zero_or_two() {
    assert_eq!(tools::finished(Ok(())), exit("", 0));
    assert_eq!(
        tools::finished(Err("stack underflow".to_string())),
        exit("stack underflow\n", 2)
    );
}

#[test]
fn help_flag_leaves_with_the_usage_text() {
    let mut options = Options::new();
    let command = tools::build(&mut options);
    let expected = "usage: albino build [-s syntax] [-o output] [file]\n\nOptions:\n    -o name             set output file name\n    -s, --syntax syntax set input file syntax\n    -h, --help          \n";
    for line in [
        args(&["-h"]),
        args(&["--help"]),
        args(&["-h", "prog.bf"]),
        args(&["prog.bf", "-o", "out", "--help", "-s", "bogus"]),
    ] {
        let session = command.exec(&line);
        assert_eq!(session.action(), Action::Exit(exit(expected, 0)));
    }
    assert_eq!(command.help(), expected);
}

#[test]
fn help_flag_works_on_every_shape() {
    let mut options = Options::new();
    let command = tools::run(&mut options);
    assert_eq!(
        command.exec(&args(&["-h"])).action(),
        Action::Exit(exit(
            "usage: albino run [-s syntax] [file]\n\nOptions:\n    -s, --syntax syntax set input file syntax\n    -h, --help          \n",
            0
        ))
    );
    let mut options = Options::new();
    let command = tools::exec(&mut options);
    assert_eq!(
        command.exec(&args(&["x", "--help"])).action(),
        Action::Exit(exit(
            "usage: albino exec [file]\n\nOptions:\n    -h, --help          \n",
            0
        ))
    );
    let mut options = Options::new();
    let command = tools::gen(&mut options);
    assert_eq!(
        command.exec(&args(&["--help"])).action(),
        Action::Exit(exit(
            "usage: albino gen [-s syntax] [-o output] [file]\n\nOptions:\n    -s, --syntax syntax set input file syntax\n    -o name             set output file name\n    -h, --help          \n",
            0
        ))
    );
}

#[test]
fn help_flag_stops_everything_else() {
    let mut options = Options::new();
    let command = tools::build(&mut options);
    let session = command.exec(&args(&["-h", "prog.bf"]));
    let before = session.action();
    let session = session
        .step(Event::Granted)
        .step(Event::Finished(exit("", 0)))
        .step(Event::Released)
        .step(Event::Refused(exit("x", 1)));
    assert_eq!(session.action(), before);
    assert!(matches!(session.action(), Action::Exit(Exit { status: 0, .. })));
}

#[test]
fn unknown_option_leaves_with_status_one() {
    let mut options = Options::new();
    let command = tools::build(&mut options);
    let session = command.exec(&args(&["--bogus", "prog.bf"]));
    assert_eq!(
        session.action(),
        Action::Exit(exit("Unrecognized option: 'bogus'\n", 1))
    );
    let session = session.step(Event::Granted).step(Event::Finished(exit("", 0)));
    assert_eq!(
        session.action(),
        Action::Exit(exit("Unrecognized option: 'bogus'\n", 1))
    );
    let session = command.exec(&args(&["-x"]));
    assert_eq!(session.action(), Action::Exit(exit("Unrecognized option: 'x'\n", 1)));
}

#[test]
fn missing_argument_leaves_with_status_one() {
    let mut options = Options::new();
    let command = tools::build(&mut options);
    assert_eq!(
        command.exec(&args(&["prog.bf", "-o"])).action(),
        Action::Exit(exit("Argument to option 'o' missing\n", 1))
    );
    assert_eq!(
        command.exec(&args(&["--syntax"])).action(),
        Action::Exit(exit("Argument to option 'syntax' missing\n", 1))
    );
}

#[test]
fn repeated_option_leaves_with_status_one() {
    let mut options = Options::new();
    let command = tools::build(&mut options);
    assert_eq!(
        command.exec(&args(&["-s", "bf", "--syntax", "ook"])).action(),
        Action::Exit(exit("Option 'syntax' given more than once\n", 1))
    );
    assert_eq!(
        command.exec(&args(&["-o", "a", "-o", "b"])).action(),
        Action::Exit(exit("Option 'o' given more than once\n", 1))
    );
}

#[test]
fn argument_to_a_flag_leaves_with_status_one() {
    let mut options = Options::new();
    let command = tools::build(&mut options);
    assert_eq!(
        command.exec(&args(&["--help=now"])).action(),
        Action::Exit(exit("Option 'help' does not take an argument\n", 1))
    );
}

#[test]
fn missing_required_option_leaves_with_status_one() {
    let mut options = Options::new();
    options.reqopt("m", "mode", "how to work", "MODE");
    let command = LoadCommand::new("load", "[file]", &mut options, Executor);
    assert_eq!(
        command.exec(&args(&["prog.bin"])).action(),
        Action::Exit(exit("Required option 'mode' missing\n", 1))
    );
    assert_eq!(
        command.exec(&args(&["-m", "fast", "prog.bin"])).action(),
        Action::Acquire(Request::Read(file("prog.bin")))
    );
}

#[test]
fn a_refusal_wins_over_the_help_flag() {
    let mut options = Options::new();
    let command = tools::build(&mut options);
    assert_eq!(
        command.exec(&args(&["-h", "--bogus"])).action(),
        Action::Exit(exit("Unrecognized option: 'bogus'\n", 1))
    );
}

#[test]
fn options_and_files_may_be_mixed() {
    let mut options = Options::new();
    let command = tools::build(&mut options);
    let session = command.exec(&args(&["prog.ws", "-sbf", "-oout.bin", "more"]));
    assert_eq!(session.action(), Action::Acquire(Request::Buffer(file("prog.ws"))));
    let session = session.step(Event::Granted);
    assert_eq!(session.action(), Action::Acquire(Request::Write(file("out.bin"))));
    let session = session.step(Event::Granted);
    assert_eq!(session.action(), Action::Run(Target::Brainfuck));
}

#[test]
fn a_double_dash_ends_the_options() {
    let mut options = Options::new();
    let command = tools::run(&mut options);
    let session = command.exec(&args(&["--", "-h"]));
    assert_eq!(session.action(), Action::Acquire(Request::Buffer(file("-h"))));
    let session = command.exec(&args(&["-"]));
    assert_eq!(session.action(), Action::Acquire(Request::Buffer(file("-"))));
}

#[test]
fn begin_takes_the_outcome_of_parsing() {
    let mut options = Options::new();
    let command = tools::run(&mut options);
    let outcome = command.options.parse(args(&["-s", "ook", "prog.asm"]));
    let session = command.begin(outcome);
    assert_eq!(session.action(), Action::Acquire(Request::Buffer(file("prog.asm"))));
    assert_eq!(session.step(Event::Granted).action(), Action::Run(Target::Ook));

    let outcome = command.options.parse(args(&["-h"]));
    assert!(matches!(
        command.begin(outcome).action(),
        Action::Exit(Exit { status: 0, .. })
    ));

    let session = command.begin(Err(getopts::Fail::UnrecognizedOption("q".to_string())));
    assert_eq!(session.action(), Action::Exit(exit("Unrecognized option: 'q'\n", 1)));
    let session = command.begin(Err(getopts::Fail::ArgumentMissing("s".to_string())));
    assert_eq!(session.action(), Action::Exit(exit("Argument to option 's' missing\n", 1)));
    let session = command.begin(Err(getopts::Fail::OptionMissing("s".to_string())));
    assert_eq!(session.action(), Action::Exit(exit("Required option 's' missing\n", 1)));
    let session = command.begin(Err(getopts::Fail::OptionDuplicated("s".to_string())));
    assert_eq!(
        session.action(),
        Action::Exit(exit("Option 's' given more than once\n", 1))
    );
    let session = command.begin(Err(getopts::Fail::UnexpectedArgument("h".to_string())));
    assert_eq!(
        session.action(),
        Action::Exit(exit("Option 'h' does not take an argument\n", 1))
    );
}

#[test]
fn constructors_register_their_options_in_order() {
    let mut options = Options::new();
    let command = BuildCommand::new("make", "[file]", &mut options, Builder);
    assert_eq!(command.command, "make");
    assert_eq!(command.usage, "[file]");
    assert_eq!(
        command.help(),
        "usage: albino make [file]\n\nOptions:\n    -o name             set output file name\n    -s, --syntax syntax set input file syntax\n    -h, --help          \n"
    );
    let mut options = Options::new();
    let command = GenerateCommand::new("emit", "", &mut options, Generator);
    assert_eq!(
        command.help(),
        "usage: albino emit \n\nOptions:\n    -s, --syntax syntax set input file syntax\n    -o name             set output file name\n    -h, --help          \n"
    );
    let mut options = Options::new();
    let command = RunCommand::new("go", "x", &mut options, Runner);
    assert_eq!(
        command.help(),
        "usage: albino go x\n\nOptions:\n    -s, --syntax syntax set input file syntax\n    -h, --help          \n"
    );
    let mut options = Options::new();
    let command = LoadCommand::new("load", "x", &mut options, Executor);
    assert_eq!(
        command.help(),
        "usage: albino load x\n\nOptions:\n    -h, --help          \n"
    );
}

#[test]
fn a_command_keeps_the_options_it_was_given() {
    let mut options = Options::new();
    options.optflag("v", "verbose", "say more");
    let command = RunCommand::new("run", "[file]", &mut options, Runner);
    let session = command.exec(&args(&["-v", "prog.bf"]));
    assert_eq!(session.action(), Action::Acquire(Request::Buffer(file("prog.bf"))));
    assert_eq!(
        command.help(),
        "usage: albino run [file]\n\nOptions:\n    -v, --verbose       say more\n    -s, --syntax syntax set input file syntax\n    -h, --help          \n"
    );
}

#[test]
fn the_tools_start_from_an_empty_schema() {
    let mut options = Options::new();
    options.optflag("v", "verbose", "say more");
    let command = tools::exec(&mut options);
    assert_eq!(
        command.exec(&args(&["-v"])).action(),
        Action::Exit(exit("Unrecognized option: 'v'\n", 1))
    );
}
