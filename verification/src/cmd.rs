use vstd::prelude::*;

use crate::strutil::str_eq;

verus! {

/// A parsed line of user input: either a control directive or a chat
/// message for the assistant.
pub enum Cmd {
    Quit,
    Chat(String),
    RefreshAll,
    RefreshConv,
    RefreshInst,
    RefreshFiles,
    Help,
}

/// The command an input line denotes: the recognized control tokens in
/// the order they are tried, and anything else as a chat message.
pub open spec fn cmd_of(s: Seq<char>, r: Cmd) -> bool {
    if s == ":q"@ {
        r is Quit
    } else if s == ":ra"@ || s == ":RA"@ {
        r is RefreshAll
    } else if s == ":ri"@ || s == ":RI"@ {
        r is RefreshInst
    } else if s == ":rf"@ || s == ":RF"@ {
        r is RefreshFiles
    } else if s == ":rc"@ || s == ":RC"@ {
        r is RefreshConv
    } else if s == ":h"@ || s == ":H"@ {
        r is Help
    } else {
        r matches Cmd::Chat(m) && m@ == s
    }
}

impl Cmd {
    /// Parses one line of user input into a command.
    pub fn from_input(input: String) -> (r: Cmd)
        ensures
            cmd_of(input@, r),
    {
        if str_eq(input.as_str(), ":q") {
            Cmd::Quit
        } else if str_eq(input.as_str(), ":ra") || str_eq(input.as_str(), ":RA") {
            Cmd::RefreshAll
        } else if str_eq(input.as_str(), ":ri") || str_eq(input.as_str(), ":RI") {
            Cmd::RefreshInst
        } else if str_eq(input.as_str(), ":rf") || str_eq(input.as_str(), ":RF") {
            Cmd::RefreshFiles
        } else if str_eq(input.as_str(), ":rc") || str_eq(input.as_str(), ":RC") {
            Cmd::RefreshConv
        } else if str_eq(input.as_str(), ":h") || str_eq(input.as_str(), ":H") {
            Cmd::Help
        } else {
            Cmd::Chat(input)
        }
    }
}

} // verus!
