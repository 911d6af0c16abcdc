//! Command-line front end of a small compiler and virtual-machine toolkit.
//!
//! The crate holds the decisions of the front end and none of its input or
//! output: which notation a file is written in, how the command line of a
//! tool resolves into the streams it works on, in which order those streams
//! are opened and released, and how the top-level program hands a subcommand
//! to the executable that implements it.  A driver performs the actions that
//! the crate asks for and reports back what came of them.

use vstd::prelude::*;
use vstd::string::*;

pub mod command;
pub mod dispatch;
pub mod options;
pub mod session;
pub mod tools;
pub mod util;

verus! {

pub const VERSION_MAJOR: usize = 0;

pub const VERSION_MINOR: usize = 1;

pub const VERSION_TINY: usize = 0;

pub const PRE_RELEASE: bool = true;

/// The decimal digits, in order.
pub open spec fn digits() -> Seq<char> {
    "0123456789"@
}

/// The decimal numeral of `n`.
pub open spec fn decimal(n: nat) -> Seq<char>
    decreases n,
{
    if n < 10 {
        seq![digits()[n as int]]
    } else {
        decimal(n / 10).push(digits()[(n % 10) as int])
    }
}

/// The version of the program: three numbers with dots between them, and
/// the mark of a release that is not final.
pub open spec fn version_text() -> Seq<char> {
    decimal(VERSION_MAJOR as nat) + "."@ + decimal(VERSION_MINOR as nat) + "."@ + decimal(
        VERSION_TINY as nat,
    ) + if PRE_RELEASE {
        "-pre"@
    } else {
        ""@
    }
}

/// The numeral of a number below ten.
fn digit(d: usize) -> (r: &'static str)
    requires
        d < 10,
    ensures
        r@ == seq![digits()[d as int]],
{
    proof {
        reveal_strlit("0123456789");
        reveal_strlit("0");
        reveal_strlit("1");
        reveal_strlit("2");
        reveal_strlit("3");
        reveal_strlit("4");
        reveal_strlit("5");
        reveal_strlit("6");
        reveal_strlit("7");
        reveal_strlit("8");
        reveal_strlit("9");
    }
    let r = if d == 0 {
        "0"
    } else if d == 1 {
        "1"
    } else if d == 2 {
        "2"
    } else if d == 3 {
        "3"
    } else if d == 4 {
        "4"
    } else if d == 5 {
        "5"
    } else if d == 6 {
        "6"
    } else if d == 7 {
        "7"
    } else if d == 8 {
        "8"
    } else {
        "9"
    };
    assert(r@ =~= seq![digits()[d as int]]);
    r
}

/// Writes `n` in decimal.
pub fn numeral(n: usize) -> (r: String)
    ensures
        r@ == decimal(n as nat),
    decreases n,
{
    if n < 10 {
        String::from_str(digit(n))
    } else {
        let mut r = numeral(n / 10);
        r.append(digit(n % 10));
        assert(r@ =~= decimal(n as nat));
        r
    }
}

/// The version of the program.
pub fn version() -> (r: String)
    ensures
        r@ == version_text(),
{
    let mut r = numeral(VERSION_MAJOR);
    r.append(".");
    r.append(numeral(VERSION_MINOR).as_str());
    r.append(".");
    r.append(numeral(VERSION_TINY).as_str());
    if PRE_RELEASE {
        r.append("-pre");
    } else {
        r.append("");
    }
    r
}

} // verus!
