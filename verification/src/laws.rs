//! What holds of the greeting of every name.

use vstd::prelude::*;
use crate::greeting::{greeting_for, salutation, sign_off};

verus! {

/// The salutation has seven characters and the sign-off thirty-two, so a
/// greeting is thirty-nine characters longer than its name.
pub proof fn lemma_greeting_len(name: Seq<char>)
    ensures
        salutation().len() == 7,
        sign_off().len() == 32,
        greeting_for(name).len() == name.len() + 39,
{
    reveal_strlit("Hello, ");
    reveal_strlit("! You've been greeted from Rust!");
}

/// A greeting falls into three parts: the salutation, the name as it was
/// given, character for character and whatever the characters are, and the
/// sign-off.
pub proof fn lemma_name_passes_through(name: Seq<char>)
    ensures
        greeting_for(name).subrange(0, 7) == salutation(),
        greeting_for(name).subrange(7, 7 + name.len() as int) == name,
        greeting_for(name).subrange(7 + name.len() as int, 39 + name.len() as int) == sign_off(),
{
    lemma_greeting_len(name);
    let greeting = greeting_for(name);
    assert(greeting.subrange(0, 7) =~= salutation());
    assert(greeting.subrange(7, 7 + name.len() as int) =~= name);
    assert(greeting.subrange(7 + name.len() as int, 39 + name.len() as int) =~= sign_off());
}

/// Greeting is repeatable: two answers to the same name are the same text,
/// however many calls lie between them.
pub proof fn lemma_greet_is_repeatable(name: Seq<char>, first: Seq<char>, second: Seq<char>)
    requires
        first == greeting_for(name),
        second == greeting_for(name),
    ensures
        first == second,
{
}

/// Two names with the same greeting are the same name.
pub proof fn lemma_greeting_tells_names_apart(name: Seq<char>, other: Seq<char>)
    requires
        greeting_for(name) == greeting_for(other),
    ensures
        name == other,
{
    lemma_greeting_len(name);
    lemma_greeting_len(other);
    lemma_name_passes_through(name);
    lemma_name_passes_through(other);
}

} // verus!
