//! The greeting command: a pure, total formatter that substitutes a name
//! into a fixed template.

use vstd::prelude::*;
use vstd::string::StringExecFns;

verus! {

/// The characters of the greeting for `name`: the fixed template with the
/// name substituted verbatim between the two fixed parts, and nothing else.
pub open spec fn greeting_of(name: Seq<char>) -> Seq<char> {
    "Hello, "@ + name + "! You've been greeted from Rust!"@
}

/// Formats the fixed greeting around `name`. Accepts arbitrary text,
/// including the empty string and strings with embedded control characters:
/// the name passes into the template unchanged.
pub fn greet(name: &str) -> (greeting: String)
    ensures
        greeting@ == greeting_of(name@),
{
    let mut greeting = String::from_str("Hello, ");
    greeting.append(name);
    greeting.append("! You've been greeted from Rust!");
    greeting
}

/// The name is substituted verbatim and nothing else changes: the greeting
/// is exactly the fixed prefix, then the name's characters unchanged, then
/// the fixed suffix.
pub proof fn lemma_name_verbatim(name: Seq<char>)
    ensures
        greeting_of(name).len() == "Hello, "@.len() + name.len()
            + "! You've been greeted from Rust!"@.len(),
        greeting_of(name).subrange(
            "Hello, "@.len() as int,
            "Hello, "@.len() as int + name.len(),
        ) == name,
{
    assert(greeting_of(name).subrange(
        "Hello, "@.len() as int,
        "Hello, "@.len() as int + name.len(),
    ) =~= name);
}

} // verus!
