//! The whole decision of one run: from the positional arguments and
//! the one fact only the filesystem can give (whether the target path
//! already exists), to either a terminating error with its message or
//! the scaffold plan with the success message.

use vstd::prelude::*;
use crate::cli::already_exists_message;
use crate::cli::already_exists_text;
use crate::cli::parse_invocation;
use crate::cli::success_message;
use crate::cli::success_text;
use crate::cli::usage_message;
use crate::cli::usage_text;
use crate::cli::well_shaped_args;
use crate::plan::plan_matches;
use crate::plan::scaffold_plan;
use crate::plan::ScaffoldPlan;

verus! {

/// What one run does. The error variants terminate with a failure
/// status and print their message to the error stream; `Proceed`
/// carries everything to materialize and the confirmation to print.
pub enum RunOutcome {
    Usage { message: String },
    AlreadyExists { message: String },
    Proceed { plan: ScaffoldPlan, message: String },
}

/// The run's decision. `args` are the positional arguments after the
/// program name; `target_exists` says whether a filesystem entry
/// already stands at the path named by the second argument. A
/// malformed invocation is a usage error; a pre-existing target is an
/// already-exists error; otherwise the run proceeds with the full
/// scaffold plan for the name.
pub fn decide_run(args: &Vec<String>, target_exists: bool) -> (r: RunOutcome)
    ensures
        !well_shaped_args(args@) ==> (r matches RunOutcome::Usage { message } && message@
            == usage_text()),
        well_shaped_args(args@) && target_exists ==> (r matches RunOutcome::AlreadyExists {
            message,
        } && message@ == already_exists_text(args@[1]@)),
        well_shaped_args(args@) && !target_exists ==> (r matches RunOutcome::Proceed {
            plan,
            message,
        } && plan_matches(plan, args@[1]@) && message@ == success_text(args@[1]@)),
{
    match parse_invocation(args) {
        Option::None => RunOutcome::Usage { message: usage_message() },
        Option::Some(name) => {
            if target_exists {
                RunOutcome::AlreadyExists { message: already_exists_message(name.as_str()) }
            } else {
                RunOutcome::Proceed {
                    plan: scaffold_plan(name.as_str()),
                    message: success_message(name.as_str()),
                }
            }
        },
    }
}

} // verus!
