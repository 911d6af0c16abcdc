//! The notations of the toolkit, and how one is chosen for a file.

use vstd::prelude::*;

verus! {

/// A notation that the toolkit can read or write.
#[derive(Debug, Clone, Copy, PartialEq, Eq, Structural)]
pub enum Target {
    Assembly,
    Brainfuck,
    DT,
    Ook,
    Whitespace,
}

/// The notation that goes by `name`, if there is one.
pub open spec fn named(name: Seq<char>) -> Option<Target> {
    if name == "asm"@ {
        Some(Target::Assembly)
    } else if name == "bf"@ {
        Some(Target::Brainfuck)
    } else if name == "dt"@ {
        Some(Target::DT)
    } else if name == "ook"@ {
        Some(Target::Ook)
    } else if name == "ws"@ {
        Some(Target::Whitespace)
    } else {
        None
    }
}

/// The length of `name` up to and including its last dot; zero where it has
/// no dot.
pub open spec fn stem_len(name: Seq<char>) -> nat
    decreases name.len(),
{
    if name.len() == 0 {
        0
    } else if name.last() == '.' {
        name.len()
    } else {
        stem_len(name.drop_last())
    }
}

/// What follows the last dot of `name`; `None` where it has no dot.
pub open spec fn extension(name: Seq<char>) -> Option<Seq<char>> {
    if stem_len(name) == 0 {
        None
    } else {
        Some(name.skip(stem_len(name) as int))
    }
}

/// The notation of a file called `filename` for which the user asked for
/// the notation `option`.
///
/// A name that the user gives must be one of the known names.  Without one
/// the extension of the file decides, and every file has a notation: the
/// default where the extension is missing or unknown.
pub open spec fn detected(option: Option<Seq<char>>, filename: Seq<char>) -> Option<Target> {
    match option {
        Some(name) => named(name),
        None => match extension(filename) {
            Some(ext) => match named(ext) {
                Some(target) => Some(target),
                None => Some(Target::Whitespace),
            },
            None => Some(Target::Whitespace),
        },
    }
}

/// Each known name stands for a notation of its own.
pub proof fn lemma_known_names()
    ensures
        named("asm"@) == Some(Target::Assembly),
        named("bf"@) == Some(Target::Brainfuck),
        named("dt"@) == Some(Target::DT),
        named("ook"@) == Some(Target::Ook),
        named("ws"@) == Some(Target::Whitespace),
        !"asm"@.contains('.'),
        !"bf"@.contains('.'),
        !"dt"@.contains('.'),
        !"ook"@.contains('.'),
        !"ws"@.contains('.'),
{
    reveal_strlit("asm");
    reveal_strlit("bf");
    reveal_strlit("dt");
    reveal_strlit("ook");
    reveal_strlit("ws");
    assert("bf"@[0] == 'b' && "dt"@[0] == 'd' && "ws"@[0] == 'w');
    assert("asm"@[0] == 'a' && "ook"@[0] == 'o');
}

/// A name that the user gives decides alone, whatever the file is called,
/// and a name that is none of the known ones gives no notation.
pub proof fn lemma_name_decides(name: Seq<char>, filename: Seq<char>)
    ensures
        detected(Some(name), filename) == named(name),
        named(name) is None <==> name != "asm"@ && name != "bf"@ && name != "dt"@ && name
            != "ook"@ && name != "ws"@,
{
}

/// A name made of `stem`, a dot and `ext` ends its stem at that dot, and has
/// the extension `ext`, where `ext` holds no dot.
pub proof fn lemma_extension(stem: Seq<char>, ext: Seq<char>)
    requires
        !ext.contains('.'),
    ensures
        stem_len(stem + seq!['.'] + ext) == stem.len() + 1,
        extension(stem + seq!['.'] + ext) == Some(ext),
    decreases ext.len(),
{
    let name = stem + seq!['.'] + ext;
    if ext.len() == 0 {
        assert(name.last() == '.');
    } else {
        let shorter = ext.drop_last();
        assert(ext.contains(ext.last()));
        assert forall|c: char| shorter.contains(c) implies ext.contains(c) by {
            let i = choose|i: int| 0 <= i < shorter.len() && shorter[i] == c;
            assert(ext[i] == c);
        }
        lemma_extension(stem, shorter);
        assert(name.drop_last() =~= stem + seq!['.'] + shorter);
        assert(name.last() == ext.last());
    }
    assert(name.skip(stem.len() as int + 1) =~= ext);
}

/// A name without a dot has no extension.
pub proof fn lemma_no_extension(name: Seq<char>)
    requires
        !name.contains('.'),
    ensures
        extension(name) is None,
    decreases name.len(),
{
    if name.len() > 0 {
        assert(name.contains(name.last()));
        assert forall|c: char| name.drop_last().contains(c) implies name.contains(c) by {
            let i = choose|i: int| 0 <= i < name.drop_last().len() && name.drop_last()[i] == c;
            assert(name[i] == c);
        }
        lemma_no_extension(name.drop_last());
    }
}

/// Where the user names no notation, a file whose extension is a known name
/// has the notation of that name.
pub proof fn lemma_extension_decides(stem: Seq<char>, ext: Seq<char>)
    requires
        named(ext) is Some,
    ensures
        detected(None, stem + seq!['.'] + ext) == named(ext),
{
    lemma_known_names();
    lemma_extension(stem, ext);
}

/// Where the user names no notation, every file has one: the default where
/// its name has no dot, and where what follows the last dot is no known
/// name.
pub proof fn lemma_default(filename: Seq<char>)
    ensures
        detected(None, filename) is Some,
        !filename.contains('.') ==> detected(None, filename) == Some(Target::Whitespace),
        extension(filename) matches Some(ext) && named(ext) is None ==> detected(None, filename)
            == Some(Target::Whitespace),
{
    if !filename.contains('.') {
        lemma_no_extension(filename);
    }
}

/// The view of an optional string.
pub open spec fn text_of(option: Option<String>) -> Option<Seq<char>> {
    match option {
        Some(s) => Some(s@),
        None => None,
    }
}

/// The characters of `s`, one by one.
pub fn chars_of(s: &str) -> (chars: Vec<char>)
    ensures
        chars@ == s@,
{
    broadcast use vstd::string::group_string_axioms;

    let mut chars: Vec<char> = Vec::new();
    for c in it: s.chars()
        invariant
            it.seq() == s@,
            chars@ == it.seq().take(it.index() as int),
    {
        chars.push(c);
    }
    chars
}

/// Whether `chars`, from position `from` on, spells `word`.
fn spells(chars: &Vec<char>, from: usize, word: &str) -> (r: bool)
    requires
        from <= chars.len(),
    ensures
        r == (chars@.skip(from as int) == word@),
{
    let letters = chars_of(word);
    if chars.len() - from != letters.len() {
        return false;
    }
    let mut i: usize = 0;
    while i < letters.len()
        invariant
            from <= chars.len(),
            chars.len() - from == letters.len(),
            i <= letters.len(),
            letters@ == word@,
            forall|j: int| 0 <= j < i ==> chars@[from + j] == letters@[j],
        decreases letters.len() - i,
    {
        if chars[from + i] != letters[i] {
            assert(chars@.skip(from as int)[i as int] != word@[i as int]);
            return false;
        }
        i += 1;
    }
    assert(chars@.skip(from as int) =~= word@);
    true
}

/// The notation that goes by the name spelled by `chars` from `from` on.
fn lookup(chars: &Vec<char>, from: usize) -> (r: Option<Target>)
    requires
        from <= chars.len(),
    ensures
        r == named(chars@.skip(from as int)),
{
    if spells(chars, from, "asm") {
        Some(Target::Assembly)
    } else if spells(chars, from, "bf") {
        Some(Target::Brainfuck)
    } else if spells(chars, from, "dt") {
        Some(Target::DT)
    } else if spells(chars, from, "ook") {
        Some(Target::Ook)
    } else if spells(chars, from, "ws") {
        Some(Target::Whitespace)
    } else {
        None
    }
}

/// Chooses the notation for `filename`, or the one that `option` names.
pub fn detect_target(option: Option<String>, filename: &String) -> (r: Option<Target>)
    ensures
        r == detected(text_of(option), filename@),
{
    match option {
        Some(name) => {
            let chars = chars_of(name.as_str());
            assert(chars@.skip(0) =~= name@);
            lookup(&chars, 0)
        },
        None => {
            let chars = chars_of(filename.as_str());
            let mut i: usize = chars.len();
            assert(chars@.take(i as int) =~= chars@);
            while i > 0 && chars[i - 1] != '.'
                invariant
                    i <= chars.len(),
                    stem_len(chars@) == stem_len(chars@.take(i as int)),
                decreases i,
            {
                assert(chars@.take(i as int).drop_last() =~= chars@.take(i - 1));
                i -= 1;
            }
            if i == 0 {
                Some(Target::Whitespace)
            } else {
                match lookup(&chars, i) {
                    Some(target) => Some(target),
                    None => Some(Target::Whitespace),
                }
            }
        },
    }
}

} // verus!
