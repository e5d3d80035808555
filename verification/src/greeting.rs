use vstd::prelude::*;
use vstd::string::*;

verus! {

/// Returns the greeting "Good morning " followed by the given name,
/// verbatim: an empty name yields exactly "Good morning ".
pub fn greet(name: &str) -> (r: String)
    ensures
        r@ == "Good morning "@ + name@,
{
    let prefix = String::from_str("Good morning ");
    prefix.concat(name)
}

} // verus!
