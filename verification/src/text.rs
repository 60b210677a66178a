//! Texts as sequences of characters.

use vstd::prelude::*;
use vstd::std_specs::iter::IteratorSpec;
use vstd::string::{axiom_spec_iter, next_postcondition};

verus! {

/// `String::push`: the character is appended.
pub assume_specification[ String::push ](text: &mut String, c: char)
    ensures
        final(text)@ == old(text)@.push(c),
;

/// The characters of a text, in order.
pub fn chars_of(text: &str) -> (r: Vec<char>)
    ensures
        r@ == text@,
{
    broadcast use {axiom_spec_iter, next_postcondition};

    let mut rest = text.chars();
    let mut out: Vec<char> = Vec::new();
    loop
        invariant
            rest.obeys_prophetic_iter_laws(),
            rest.decrease() is Some,
            out@ + rest.remaining() == text@,
        decreases rest.decrease()->0,
    {
        let ghost before = rest.remaining();
        match rest.next() {
            Some(c) => {
                out.push(c);
                assert(out@ + rest.remaining() =~= text@) by {
                    assert(before =~= seq![c] + before.drop_first());
                }
            },
            None => {
                assert(out@ =~= text@);
                return out;
            },
        }
    }
}

/// The text that a sequence of characters spells.
pub fn string_of(chars: &Vec<char>) -> (r: String)
    ensures
        r@ == chars@,
{
    let mut out = String::new();
    let mut i: usize = 0;
    while i < chars.len()
        invariant
            i <= chars@.len(),
            out@ == chars@.take(i as int),
        decreases chars@.len() - i,
    {
        out.push(chars[i]);
        i += 1;
        assert(out@ =~= chars@.take(i as int));
    }
    assert(chars@.take(i as int) =~= chars@);
    out
}

} // verus!
