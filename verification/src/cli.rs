//! Argument handling and the messages the tool prints: the usage
//! gate, the already-exists report, and the success report.

use vstd::prelude::*;
use vstd::string::StringExecFns;
use crate::strutil::str_eq;

verus! {

/// Whether the positional arguments (those after the program name)
/// form a well-shaped invocation: an `add` sub-command followed by a
/// name.
pub open spec fn well_shaped_args(args: Seq<String>) -> bool {
    args.len() >= 2 && args[0]@ == "add"@
}

/// The context name of a well-shaped invocation, or nothing on a
/// malformed one. `args` are the positional arguments after the
/// program name.
pub fn parse_invocation(args: &Vec<String>) -> (r: Option<String>)
    ensures
        well_shaped_args(args@) ==> (r matches Option::Some(name) && name@ == args@[1]@),
        !well_shaped_args(args@) ==> r is None,
{
    if args.len() < 2 {
        return Option::None;
    }
    let sub: &String = &args[0];
    if str_eq(sub.as_str(), "add") {
        let name: &String = &args[1];
        Option::Some(name.clone())
    } else {
        Option::None
    }
}

/// The usage text of a malformed invocation.
pub open spec fn usage_text() -> Seq<char> {
    "Usage: bounded-context add <name>"@
}

/// The report of a pre-existing target named `name`.
pub open spec fn already_exists_text(name: Seq<char>) -> Seq<char> {
    "The bounded context '"@ + name + "' already exists"@
}

/// The confirmation of a successful run for `name`.
pub open spec fn success_text(name: Seq<char>) -> Seq<char> {
    "Bounded context '"@ + name + "' created successfully"@
}

/// The usage message, printed to the error stream on a usage error.
pub fn usage_message() -> (r: String)
    ensures
        r@ == usage_text(),
{
    String::from_str("Usage: bounded-context add <name>")
}

/// The error message for a target that already exists.
pub fn already_exists_message(name: &str) -> (r: String)
    ensures
        r@ == already_exists_text(name@),
{
    let mut s = String::from_str("The bounded context '");
    s.append(name);
    s.append("' already exists");
    proof {
        assert(s@ =~= already_exists_text(name@));
    }
    s
}

/// The confirmation message for a successful run.
pub fn success_message(name: &str) -> (r: String)
    ensures
        r@ == success_text(name@),
{
    let mut s = String::from_str("Bounded context '");
    s.append(name);
    s.append("' created successfully");
    proof {
        assert(s@ =~= success_text(name@));
    }
    s
}

} // verus!
