//! The greeting shown to a user who has entered their name.

use vstd::prelude::*;
use vstd::string::StringExecFns;

verus! {

/// The greeting for `name`: the name set between a fixed opening and a fixed
/// closing, with nothing added or removed.
pub open spec fn greeting(name: Seq<char>) -> Seq<char> {
    "Hello, "@ + name + "! You've been greeted!"@
}

/// Greets `name`. Every name is accepted, the empty one too.
pub fn greet(name: &str) -> (text: String)
    ensures
        text@ == greeting(name@),
{
    String::from_str("Hello, ").concat(name).concat("! You've been greeted!")
}

} // verus!
