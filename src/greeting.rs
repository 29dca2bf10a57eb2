use vstd::prelude::*;

verus! {

/// The fixed text that every greeting starts with.
pub open spec fn greeting_prefix() -> Seq<char> {
    "Hello, "@
}

/// The message that greets `name`: the prefix followed by `name` verbatim,
/// with no check or escaping of its text.
pub fn greeting(name: &str) -> (r: String)
    ensures
        r@ == greeting_prefix() + name@,
{
    proof {
        reveal_strlit("Hello, ");
    }
    let mut r = String::from_str("Hello, ");
    r.append(name);
    r
}

} // verus!
