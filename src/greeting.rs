use vstd::prelude::*;

verus! {

/// The greeting returned for `name`.
pub open spec fn greeting_text(name: Seq<char>) -> Seq<char> {
    "Hello, "@ + name + "! You've been greeted from Rust!"@
}

/// Greets `name` by its name.
pub fn greet(name: &str) -> (r: String)
    ensures
        r@ == greeting_text(name@),
{
    let r = String::from_str("Hello, ");
    let r = r.concat(name);
    r.concat("! You've been greeted from Rust!")
}

} // verus!
