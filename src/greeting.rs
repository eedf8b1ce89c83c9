use vstd::prelude::*;

verus! {

/// The greeting that the host runtime shows, around the given name.
pub open spec fn greeting_of(name: Seq<char>) -> Seq<char> {
    "Hello, "@ + name + "! Greetings from the Rust Engine Room (Via nodejs)"@
}

/// Greets `name` on behalf of the engine.
pub fn say_hello(name: String) -> (r: String)
    ensures
        r@ == greeting_of(name@),
{
    let mut r = String::from_str("Hello, ");
    r.append(name.as_str());
    r.append("! Greetings from the Rust Engine Room (Via nodejs)");
    r
}

} // verus!
