//! The text of the `export` statements.
//!
//! A profile is modelled by its contents, a sequence of characters that only
//! ever grows at its end. Each statement begins with a line break, so that it
//! starts a line of its own whatever the profile ended with, and ends with
//! one.

use vstd::prelude::*;

verus! {

/// The statement that gives `var` the value `value`:
/// `export VAR=VALUE`.
pub open spec fn set_line(var: Seq<char>, value: Seq<char>) -> Seq<char> {
    "\nexport "@ + var + "="@ + value + "\n"@
}

/// The statement that puts `value` in front of what `var` holds, with a
/// colon between the two: `export VAR="VALUE:$VAR"`.
pub open spec fn append_line(var: Seq<char>, value: Seq<char>) -> Seq<char> {
    "\nexport "@ + var + "=\""@ + value + ":$"@ + var + "\"\n"@
}

/// The statement that puts `value` behind what `var` holds, with a colon
/// between the two: `export VAR="$VAR:VALUE"`.
pub open spec fn append_to_end_line(var: Seq<char>, value: Seq<char>) -> Seq<char> {
    "\nexport "@ + var + "=\"$"@ + var + ":"@ + value + "\"\n"@
}

/// `append` writes the statement that `set` writes for the quoted value
/// `"VALUE:$VAR"`.
pub proof fn law_append_is_set(var: Seq<char>, value: Seq<char>)
    ensures
        append_line(var, value) == set_line(var, "\""@ + value + ":$"@ + var + "\""@),
{
    reveal_strlit("=");
    reveal_strlit("\"");
    reveal_strlit("=\"");
    reveal_strlit("\n");
    reveal_strlit("\"\n");
    assert(append_line(var, value) =~= set_line(var, "\""@ + value + ":$"@ + var + "\""@));
}

/// `append_to_end` writes the statement that `set` writes for the quoted
/// value `"$VAR:VALUE"`.
pub proof fn law_append_to_end_is_set(var: Seq<char>, value: Seq<char>)
    ensures
        append_to_end_line(var, value) == set_line(var, "\"$"@ + var + ":"@ + value + "\""@),
{
    reveal_strlit("=");
    reveal_strlit("\"");
    reveal_strlit("\"$");
    reveal_strlit("=\"$");
    reveal_strlit("\n");
    reveal_strlit("\"\n");
    assert(append_to_end_line(var, value) =~= set_line(
        var,
        "\"$"@ + var + ":"@ + value + "\""@,
    ));
}

} // verus!
