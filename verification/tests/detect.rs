use albino::util::{chars_of, detect_target, Target};

fn detect(option: Option<&str>, filename: &str) -> Option<Target> {
    detect_target(option.map(|name| name.to_string()), &filename.to_string())
}

#[test]
fn known_extensions_give_their_notation() {
    assert_eq!(detect(None, "file.asm"), Some(Target::Assembly));
    assert_eq!(detect(None, "file.bf"), Some(Target::Brainfuck));
    assert_eq!(detect(None, "file.dt"), Some(Target::DT));
    assert_eq!(detect(None, "file.ook"), Some(Target::Ook));
}

#[test]
fn whitespace_extension_gives_the_default() {
    assert_eq!(detect(None, "file.ws"), Some(Target::Whitespace));
}

#[test]
fn unknown_extension_gives_the_default() {
    assert_eq!(detect(None, "file.unknown"), Some(Target::Whitespace));
    assert_eq!(detect(None, "file.txt"), Some(Target::Whitespace));
    assert_eq!(detect(None, "file.ASM"), Some(Target::Whitespace));
    assert_eq!(detect(None, "file.asmx"), Some(Target::Whitespace));
    assert_eq!(detect(None, "file.as"), Some(Target::Whitespace));
}

#[test]
fn missing_extension_gives_the_default() {
    assert_eq!(detect(None, "file"), Some(Target::Whitespace));
    assert_eq!(detect(None, "asm"), Some(Target::Whitespace));
    assert_eq!(detect(None, ""), Some(Target::Whitespace));
}

#[test]
fn only_the_last_dot_counts() {
    assert_eq!(detect(None, "a.bf.asm"), Some(Target::Assembly));
    assert_eq!(detect(None, "a.asm.bf"), Some(Target::Brainfuck));
    assert_eq!(detect(None, "archive.tar.dt"), Some(Target::DT));
    assert_eq!(detect(None, "dir.asm/file"), Some(Target::Whitespace));
}

#[test]
fn a_name_may_begin_or_end_with_a_dot() {
    assert_eq!(detect(None, ".asm"), Some(Target::Assembly));
    assert_eq!(detect(None, ".ook"), Some(Target::Ook));
    assert_eq!(detect(None, "file."), Some(Target::Whitespace));
    assert_eq!(detect(None, "."), Some(Target::Whitespace));
    assert_eq!(detect(None, "file.asm."), Some(Target::Whitespace));
}

#[test]
fn names_beyond_ascii_are_read_by_character() {
    assert_eq!(detect(None, "пример.bf"), Some(Target::Brainfuck));
    assert_eq!(detect(None, "例.ook"), Some(Target::Ook));
    assert_eq!(detect(None, "file.bé"), Some(Target::Whitespace));
    assert_eq!(detect(Some("ásm"), "file.asm"), None);
}

#[test]
fn a_known_name_wins_over_the_file() {
    assert_eq!(detect(Some("asm"), "file.bf"), Some(Target::Assembly));
    assert_eq!(detect(Some("bf"), "file.asm"), Some(Target::Brainfuck));
    assert_eq!(detect(Some("dt"), "file"), Some(Target::DT));
    assert_eq!(detect(Some("ook"), ""), Some(Target::Ook));
    assert_eq!(detect(Some("ws"), "file.ook"), Some(Target::Whitespace));
}

#[test]
fn an_unknown_name_gives_no_notation() {
    assert_eq!(detect(Some("bogus"), "file.asm"), None);
    assert_eq!(detect(Some("bogus"), "file"), None);
    assert_eq!(detect(Some(""), "file.asm"), None);
    assert_eq!(detect(Some("ASM"), "file.asm"), None);
    assert_eq!(detect(Some(".asm"), "file.asm"), None);
    assert_eq!(detect(Some("asm "), "file.asm"), None);
    assert_eq!(detect(Some("whitespace"), "file.ws"), None);
}

#[test]
fn characters_come_out_one_by_one() {
    assert_eq!(chars_of("a.bé"), vec!['a', '.', 'b', 'é']);
    assert_eq!(chars_of(""), Vec::<char>::new());
}
