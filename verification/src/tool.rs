//! Which program is run, and with which argument.

use vstd::prelude::*;

verus! {

/// The environment variable whose value, when set and not empty, names the program to run.
pub const OVERRIDE_VARIABLE: &'static str = "CARGO";

/// The program that is run when nothing overrides it.
pub const DEFAULT_TOOL: &'static str = "cargo";

/// The one argument that the program is run with.
pub const SUBCOMMAND: &'static str = "locate-project";

/// The program to run, given the value of the override if there is one: that value unless it
/// is absent or empty, and the default program otherwise.
pub open spec fn resolved_tool(override_value: Option<Seq<char>>) -> Seq<char> {
    match override_value {
        Some(name) if name.len() > 0 => name,
        _ => DEFAULT_TOOL@,
    }
}

/// The view of an optional string.
pub open spec fn text_of(value: Option<String>) -> Option<Seq<char>> {
    match value {
        Some(text) => Some(text@),
        None => None,
    }
}

/// Chooses the program to run from the value of [`OVERRIDE_VARIABLE`], `None` standing for a
/// variable that is not set.
pub fn tool_name(override_value: Option<String>) -> (name: String)
    ensures
        name@ == resolved_tool(text_of(override_value)),
{
    match override_value {
        Some(chosen) => {
            if chosen.as_str().is_empty() {
                DEFAULT_TOOL.to_owned()
            } else {
                chosen
            }
        },
        None => DEFAULT_TOOL.to_owned(),
    }
}

/// Choosing the program has no memory: equal values of the override name the same program.
pub proof fn lemma_same_override_same_tool(
    first_value: Option<String>,
    second_value: Option<String>,
    first: String,
    second: String,
)
    requires
        text_of(first_value) == text_of(second_value),
        first@ == resolved_tool(text_of(first_value)),
        second@ == resolved_tool(text_of(second_value)),
    ensures
        first@ == second@,
{
}

} // verus!
