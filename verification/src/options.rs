//! The option schema of a command and what a command line parses to.
//!
//! Parsing is the work of `getopts`.  This module declares its types, gives
//! names to what they hold, and states of each of its functions that the
//! library calls what the rest of the library relies on.  None of these
//! statements is proved here: they are read off the source of `getopts`.

use vstd::prelude::*;

verus! {

/// `getopts::Options`, the schema of a command line: option groups in the
/// order in which they were registered, and two parsing modes.
#[verifier::external_type_specification]
#[verifier::external_body]
pub struct ExOptions(getopts::Options);

/// `getopts::Matches`, a parsed command line.
#[verifier::external_type_specification]
#[verifier::external_body]
pub struct ExMatches(getopts::Matches);

/// `getopts::Fail`, the reason for which a command line was refused.  Each
/// variant holds the name of the option at fault.
#[verifier::external_type_specification]
pub struct ExFail(getopts::Fail);

/// Whether an option takes an argument.
pub enum Takes {
    No,
    Yes,
    Maybe,
}

/// How often an option may occur on a command line.
pub enum Occurs {
    Once,
    AtMostOnce,
    Often,
}

/// One option group of a schema: a short and a long name, of which one may
/// be empty, and what the usage text says of the option.
pub struct Group {
    pub short: Seq<char>,
    pub long: Seq<char>,
    pub hint: Seq<char>,
    pub desc: Seq<char>,
    pub takes: Takes,
    pub occurs: Occurs,
}

/// What a parsed command line holds: for each name of the schema the values
/// of the occurrences of its option, in order (`None` for an occurrence
/// without an argument), and the arguments that belong to no option.
pub struct Parsed {
    pub values: Map<Seq<char>, Seq<Option<Seq<char>>>>,
    pub free: Seq<Seq<char>>,
}

/// Why a command line was refused, with the name of the option at fault.
pub enum Rejection {
    ArgumentMissing(Seq<char>),
    UnrecognizedOption(Seq<char>),
    OptionMissing(Seq<char>),
    OptionDuplicated(Seq<char>),
    UnexpectedArgument(Seq<char>),
}

/// The option groups that `options` holds, in the order of registration.
pub uninterp spec fn option_groups(options: getopts::Options) -> Seq<Group>;

/// The parsing modes of `options`: whether parsing stops looking for options
/// at the first free argument, and whether long options may be written with
/// a single dash.
pub uninterp spec fn option_modes(options: getopts::Options) -> (bool, bool);

/// The option values that `matches` holds, by option name.
pub uninterp spec fn matches_values(matches: getopts::Matches) -> Map<
    Seq<char>,
    Seq<Option<Seq<char>>>,
>;

/// The free arguments that `matches` holds, in the order of the command line.
pub uninterp spec fn matches_free(matches: getopts::Matches) -> Seq<Seq<char>>;

/// What `args` parses to under a schema of the given groups and modes.
pub uninterp spec fn parsed(
    groups: Seq<Group>,
    modes: (bool, bool),
    args: Seq<Seq<char>>,
) -> Result<Parsed, Rejection>;

/// The table of the usage text for a schema of the given groups: one entry
/// for each group, in order, the entries separated by line ends.
pub uninterp spec fn option_table(groups: Seq<Group>, long_only: bool) -> Seq<char>;

impl Parsed {
    /// Whether the schema knows an option called `name`.
    pub open spec fn defines(self, name: Seq<char>) -> bool {
        self.values.dom().contains(name)
    }

    /// Whether the option called `name` occurred.
    pub open spec fn present(self, name: Seq<char>) -> bool {
        self.values[name].len() > 0
    }

    /// The argument of the first occurrence of the option called `name`.
    pub open spec fn value(self, name: Seq<char>) -> Option<Seq<char>> {
        if self.values[name].len() > 0 {
            self.values[name][0]
        } else {
            None
        }
    }
}

/// What `matches` holds.
pub open spec fn matches_view(matches: getopts::Matches) -> Parsed {
    Parsed { values: matches_values(matches), free: matches_free(matches) }
}

/// What `fail` holds.
pub open spec fn rejection(fail: getopts::Fail) -> Rejection {
    match fail {
        getopts::Fail::ArgumentMissing(name) => Rejection::ArgumentMissing(name@),
        getopts::Fail::UnrecognizedOption(name) => Rejection::UnrecognizedOption(name@),
        getopts::Fail::OptionMissing(name) => Rejection::OptionMissing(name@),
        getopts::Fail::OptionDuplicated(name) => Rejection::OptionDuplicated(name@),
        getopts::Fail::UnexpectedArgument(name) => Rejection::UnexpectedArgument(name@),
    }
}

/// The sentence that tells the user of a rejection.
pub open spec fn message(rejection: Rejection) -> Seq<char> {
    match rejection {
        Rejection::ArgumentMissing(name) => "Argument to option '"@ + name + "' missing"@,
        Rejection::UnrecognizedOption(name) => "Unrecognized option: '"@ + name + "'"@,
        Rejection::OptionMissing(name) => "Required option '"@ + name + "' missing"@,
        Rejection::OptionDuplicated(name) => "Option '"@ + name + "' given more than once"@,
        Rejection::UnexpectedArgument(name) => "Option '"@ + name
            + "' does not take an argument"@,
    }
}

/// The views of the strings of `strings`.
pub open spec fn texts(strings: Seq<String>) -> Seq<Seq<char>> {
    Seq::new(strings.len(), |i: int| strings[i]@)
}

/// Whether `name` is made of a single character that takes one byte.
pub open spec fn single_byte(name: Seq<char>) -> bool {
    name.len() == 1 && name[0] <= '\u{7f}'
}

/// Whether an option group may have these names: a short name is empty or a
/// single one-byte character, a long name is anything but such a character.
pub open spec fn valid_names(short: Seq<char>, long: Seq<char>) -> bool {
    (short.len() == 0 || single_byte(short)) && !single_byte(long)
}

/// Whether each of `groups` has a name.
pub open spec fn all_named(groups: Seq<Group>) -> bool {
    forall|i: int|
        0 <= i < groups.len() ==> (#[trigger] groups[i]).short.len() > 0 || groups[i].long.len()
            > 0
}

/// Whether one of `groups` goes by `name`.
pub open spec fn defines(groups: Seq<Group>, name: Seq<char>) -> bool {
    name.len() > 0 && exists|i: int|
        0 <= i < groups.len() && ((#[trigger] groups[i]).short == name || groups[i].long == name)
}

/// The names by which the options of `groups` go.
pub open spec fn names(groups: Seq<Group>) -> Set<Seq<char>> {
    Set::new(|name: Seq<char>| defines(groups, name))
}

/// The group of an option without an argument, as `optflag` registers it.
pub open spec fn flag(short: Seq<char>, long: Seq<char>, desc: Seq<char>) -> Group {
    Group { short, long, hint: Seq::empty(), desc, takes: Takes::No, occurs: Occurs::AtMostOnce }
}

/// The group of an option with an argument, as `optopt` registers it.
pub open spec fn setting(
    short: Seq<char>,
    long: Seq<char>,
    desc: Seq<char>,
    hint: Seq<char>,
) -> Group {
    Group { short, long, hint, desc, takes: Takes::Yes, occurs: Occurs::AtMostOnce }
}

/// A schema with one more group knows the names of that group besides those
/// it knew.
pub proof fn lemma_names_push(groups: Seq<Group>, group: Group, name: Seq<char>)
    ensures
        defines(groups.push(group), name) <==> defines(groups, name) || (name.len() > 0 && (
        group.short == name || group.long == name)),
        all_named(groups) && (group.short.len() > 0 || group.long.len() > 0) ==> all_named(
            groups.push(group),
        ),
{
    let more = groups.push(group);
    if defines(groups, name) {
        let i = choose|i: int|
            0 <= i < groups.len() && ((#[trigger] groups[i]).short == name || groups[i].long
                == name);
        assert(more[i] == groups[i]);
    }
    if name.len() > 0 && (group.short == name || group.long == name) {
        assert(more[groups.len() as int] == group);
    }
    if defines(more, name) {
        let i = choose|i: int|
            0 <= i < more.len() && ((#[trigger] more[i]).short == name || more[i].long == name);
        if i < groups.len() {
            assert(more[i] == groups[i]);
        }
    }
    if all_named(groups) && (group.short.len() > 0 || group.long.len() > 0) {
        assert forall|i: int| 0 <= i < more.len() implies (#[trigger] more[i]).short.len() > 0
            || more[i].long.len() > 0 by {
            if i < groups.len() {
                assert(more[i] == groups[i]);
            }
        }
    }
}

/// `getopts::Options::new`: a schema without a group, in which options and
/// free arguments may be mixed and a long option takes two dashes.
pub assume_specification[ getopts::Options::new ]() -> (options: getopts::Options)
    ensures
        option_groups(options) == Seq::<Group>::empty(),
        option_modes(options) == (false, false),
;

/// `getopts::Options::optflag`: registers, behind the groups that are there,
/// an option that takes no argument and occurs at most once.  It panics on
/// names that `valid_names` refuses.
#[verifier::external_body]
pub(crate) fn optflag(options: &mut getopts::Options, short: &str, long: &str, desc: &str)
    requires
        valid_names(short@, long@),
    ensures
        option_groups(*final(options)) == option_groups(*old(options)).push(
            flag(short@, long@, desc@),
        ),
        option_modes(*final(options)) == option_modes(*old(options)),
{
    options.optflag(short, long, desc);
}

/// `getopts::Options::optopt`: registers, behind the groups that are there,
/// an option that takes an argument and occurs at most once.  It panics on
/// names that `valid_names` refuses.
#[verifier::external_body]
pub(crate) fn optopt(
    options: &mut getopts::Options,
    short: &str,
    long: &str,
    desc: &str,
    hint: &str,
)
    requires
        valid_names(short@, long@),
    ensures
        option_groups(*final(options)) == option_groups(*old(options)).push(
            setting(short@, long@, desc@, hint@),
        ),
        option_modes(*final(options)) == option_modes(*old(options)),
{
    options.optopt(short, long, desc, hint);
}

/// `getopts::Options::parse`: the outcome depends on the schema and on the
/// arguments alone, and a parsed command line knows exactly the names of the
/// schema.  It panics on a schema that holds a group without a name.
#[verifier::external_body]
pub(crate) fn parse(options: &getopts::Options, args: &Vec<String>) -> (outcome: Result<
    getopts::Matches,
    getopts::Fail,
>)
    requires
        all_named(option_groups(*options)),
    ensures
        match outcome {
            Ok(matches) => parsed(option_groups(*options), option_modes(*options), texts(args@))
                == Ok::<Parsed, Rejection>(matches_view(matches)) && matches_values(
                matches,
            ).dom() == names(option_groups(*options)),
            Err(fail) => parsed(option_groups(*options), option_modes(*options), texts(args@))
                == Err::<Parsed, Rejection>(rejection(fail)),
        },
{
    options.parse(args)
}

/// `getopts::Options::usage`: the brief, an empty line, the heading
/// `Options:` and the table of the options, each followed by a line end.
#[verifier::external_body]
pub(crate) fn usage(options: &getopts::Options, brief: &str) -> (text: String)
    ensures
        text@ == brief@ + "\n\nOptions:\n"@ + option_table(
            option_groups(*options),
            option_modes(*options).1,
        ) + "\n"@,
{
    options.usage(brief)
}

/// `getopts::Matches::opt_present`: whether the option occurred.  It panics
/// on a name that the schema does not know.
#[verifier::external_body]
pub(crate) fn opt_present(matches: &getopts::Matches, name: &str) -> (present: bool)
    requires
        matches_view(*matches).defines(name@),
    ensures
        present == matches_view(*matches).present(name@),
{
    matches.opt_present(name)
}

/// `getopts::Matches::opt_str`: the argument of the first occurrence of the
/// option, if it occurred and had one.  It panics on a name that the schema
/// does not know.
#[verifier::external_body]
pub(crate) fn opt_str(matches: &getopts::Matches, name: &str) -> (value: Option<String>)
    requires
        matches_view(*matches).defines(name@),
    ensures
        crate::util::text_of(value) == matches_view(*matches).value(name@),
{
    matches.opt_str(name)
}

/// The field `free` of `getopts::Matches`: a copy of the free arguments.
#[verifier::external_body]
pub(crate) fn free_args(matches: &getopts::Matches) -> (free: Vec<String>)
    ensures
        texts(free@) == matches_free(*matches),
{
    matches.free.clone()
}

/// `Display` of `getopts::Fail`: a sentence for each variant, in which the
/// name of the option stands between single quotes.
#[verifier::external_body]
pub(crate) fn fail_text(fail: &getopts::Fail) -> (text: String)
    ensures
        text@ == message(rejection(*fail)),
{
    fail.to_string()
}

} // verus!
