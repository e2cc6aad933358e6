//! The text of a greeting.

use vstd::prelude::*;
use vstd::string::StringExecFns;

verus! {

/// The greeting for `name`: `Hello, `, the name as it was given, and `!`.
pub open spec fn greeting(name: Seq<char>) -> Seq<char> {
    "Hello, "@ + name + "!"@
}

/// Writes the greeting for `name`.
pub fn greet(name: &str) -> (message: String)
    ensures
        message@ == greeting(name@),
{
    let mut message = String::from_str("Hello, ");
    message.append(name);
    message.append("!");
    message
}

/// A greeting, character by character: seven characters of salutation, the
/// name unchanged, and an exclamation mark.
pub proof fn lemma_greeting_layout(name: Seq<char>)
    ensures
        greeting(name).len() == name.len() + 8,
        greeting(name).subrange(0, 7) == seq!['H', 'e', 'l', 'l', 'o', ',', ' '],
        greeting(name).subrange(7, 7 + name.len() as int) == name,
        greeting(name).last() == '!',
{
    reveal_strlit("Hello, ");
    reveal_strlit("!");
}

/// With nobody named, the greeting is `Hello, !`.
pub proof fn lemma_greeting_of_nobody()
    ensures
        greeting(Seq::<char>::empty()) == "Hello, !"@,
{
    reveal_strlit("Hello, ");
    reveal_strlit("!");
    reveal_strlit("Hello, !");
    assert(greeting(Seq::<char>::empty()) =~= "Hello, !"@);
}

} // verus!
