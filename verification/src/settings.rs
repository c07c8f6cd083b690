//! What the bot's environment settings select.

use vstd::prelude::*;

verus! {

/// The `DEBUG` setting turns on the debug mode: it is exactly `"1"`.
pub fn debug_enabled(debug: &String) -> (on: bool)
    ensures
        on == (debug@ == "1"@),
{
    proof {
        reveal_strlit("1");
    }
    let text = debug.as_str();
    if text.unicode_len() != 1 {
        return false;
    }
    let on = text.get_char(0) == '1';
    assert(on ==> debug@ =~= "1"@);
    on
}

/// The name of the bot's database: a separate one in debug mode.
pub fn database_name(debug: bool) -> (name: &'static str)
    ensures
        name@ == (if debug {
            "rexmit-dev"@
        } else {
            "rexmit"@
        }),
{
    if debug {
        "rexmit-dev"
    } else {
        "rexmit"
    }
}

/// The prefix of the bot's chat commands: `>` in debug mode, `~` otherwise.
pub fn command_prefix(debug: bool) -> (prefix: &'static str)
    ensures
        prefix@ == (if debug {
            ">"@
        } else {
            "~"@
        }),
{
    if debug {
        ">"
    } else {
        "~"
    }
}

} // verus!
