//! The greeting command.

use vstd::prelude::*;

verus! {

/// The text that greets `name`: a fixed opening, the name exactly as given,
/// and a fixed close.
pub open spec fn greeting(name: Seq<char>) -> Seq<char> {
    "Hello, "@ + name + "! You've been greeted from Rust!"@
}

/// Greets `name`. Every name is accepted as it stands: nothing is trimmed,
/// escaped or checked, and the call cannot fail.
pub fn greet(name: &str) -> (text: String)
    ensures
        text@ == greeting(name@),
{
    String::from_str("Hello, ").concat(name).concat("! You've been greeted from Rust!")
}

/// A greeting is as long as its name and the 39 fixed characters around it,
/// and holds the name unchanged right behind the opening.
pub proof fn lemma_greeting_holds_name(name: Seq<char>)
    ensures
        greeting(name).len() == name.len() + 39,
        greeting(name).subrange(7, 7 + name.len() as int) == name,
{
    reveal_strlit("Hello, ");
    reveal_strlit("! You've been greeted from Rust!");
}

/// Two names are greeted with the same text only if they are the same name.
pub proof fn lemma_greeting_injective(a: Seq<char>, b: Seq<char>)
    requires
        greeting(a) == greeting(b),
    ensures
        a == b,
{
    lemma_greeting_holds_name(a);
    lemma_greeting_holds_name(b);
}

} // verus!
