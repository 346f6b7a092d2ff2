use vstd::prelude::*;

verus! {

/// The text handed to the host's display routine for `name`:
/// `"Hello, "`, then `name` as it is, then `"!"`.
pub open spec fn greeting(name: Seq<char>) -> Seq<char> {
    "Hello, "@ + name + "!"@
}

/// Builds the greeting for `name`. The host shows this text, once, for each call.
pub fn greet(name: &str) -> (text: String)
    ensures
        text@ == greeting(name@),
{
    let mut text = String::from_str("Hello, ");
    text.append(name);
    text.append("!");
    text
}

/// The name stands in the greeting unchanged: the seven characters of
/// `"Hello, "`, then every character of `name` in its place, then one `'!'`.
/// Nothing in the name is escaped, dropped or re-encoded.
pub proof fn lemma_greeting_verbatim(name: Seq<char>)
    ensures
        greeting(name).len() == name.len() + 8,
        greeting(name).subrange(0, 7) == seq!['H', 'e', 'l', 'l', 'o', ',', ' '],
        greeting(name).subrange(7, 7 + name.len() as int) == name,
        greeting(name)[7 + name.len() as int] == '!',
{
    reveal_strlit("Hello, ");
    reveal_strlit("!");
    assert(greeting(name).subrange(0, 7) =~= seq!['H', 'e', 'l', 'l', 'o', ',', ' ']);
    assert(greeting(name).subrange(7, 7 + name.len() as int) =~= name);
}

} // verus!
