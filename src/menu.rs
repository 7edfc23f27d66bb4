use vstd::prelude::*;

verus! {

/// What the one line typed at the menu selects.
#[derive(Clone, Copy, Debug, PartialEq, Eq, Structural)]
pub enum MenuChoice {
    /// `0`: move the DLL to its disabled name.
    DisableMod,
    /// `1`: move the DLL back to its live name.
    EnableMod,
    /// `2`: leave at once.
    Exit,
    /// Anything else.
    Invalid,
}

/// The text that `str::trim` leaves of a line.
pub uninterp spec fn trimmed(s: Seq<char>) -> Seq<char>;

/// Relies on `str::trim`: the line without leading and trailing whitespace.
#[verifier::external_body]
fn trim(s: &str) -> (r: &str)
    ensures
        r@ == trimmed(s@),
        s@.len() == 0 ==> r@.len() == 0,
{
    s.trim()
}

/// The selection that an already trimmed line names.
pub open spec fn choice_of(t: Seq<char>) -> MenuChoice {
    if t == "0"@ {
        MenuChoice::DisableMod
    } else if t == "1"@ {
        MenuChoice::EnableMod
    } else if t == "2"@ {
        MenuChoice::Exit
    } else {
        MenuChoice::Invalid
    }
}

/// Reads an already trimmed line as a selection: exactly `0`, `1` or `2`.
pub fn choice_from_trimmed(t: &str) -> (r: MenuChoice)
    ensures
        r == choice_of(t@),
{
    proof {
        reveal_strlit("0");
        reveal_strlit("1");
        reveal_strlit("2");
    }
    if t.unicode_len() != 1 {
        return MenuChoice::Invalid;
    }
    let c = t.get_char(0);
    assert(t@ =~= seq![c]);
    assert("0"@ =~= seq!['0'] && "1"@ =~= seq!['1'] && "2"@ =~= seq!['2']);
    if c == '0' {
        MenuChoice::DisableMod
    } else if c == '1' {
        MenuChoice::EnableMod
    } else if c == '2' {
        MenuChoice::Exit
    } else {
        MenuChoice::Invalid
    }
}

/// Reads one line typed at the menu, ignoring surrounding whitespace.
pub fn parse_choice(line: &str) -> (r: MenuChoice)
    ensures
        r == choice_of(trimmed(line@)),
{
    choice_from_trimmed(trim(line))
}

} // verus!
