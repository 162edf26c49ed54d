//! The text of the line on which the guess is typed.

use crate::lines::WORD_LEN;
use crate::strings::chars_of;
use vstd::prelude::*;

verus! {

/// `input` followed by as many underscores as it lacks to `WORD_LEN` letters.
pub open spec fn padded(input: Seq<char>) -> Seq<char> {
    if input.len() < WORD_LEN {
        input + Seq::new((WORD_LEN - input.len()) as nat, |i: int| '_')
    } else {
        input
    }
}

/// The characters of `text` with one space between each two of them.
pub open spec fn spaced(text: Seq<char>) -> Seq<char> {
    Seq::new(
        if text.len() == 0 {
            0
        } else {
            (2 * text.len() - 1) as nat
        },
        |i: int|
            if i % 2 == 0 {
                text[i / 2]
            } else {
                ' '
            },
    )
}

/// The line that shows the guess being typed: its letters, then an
/// underscore for each letter still to come, spaced out.
pub fn input_line(input: &str) -> (line: String)
    ensures
        line@ == spaced(padded(input@)),
{
    let mut chars = chars_of(input);
    let ghost typed = chars@;
    while chars.len() < WORD_LEN
        invariant
            typed.len() <= chars@.len(),
            typed.len() < WORD_LEN ==> chars@.len() <= WORD_LEN,
            typed.len() >= WORD_LEN ==> chars@.len() == typed.len(),
            chars@ == typed + Seq::new((chars@.len() - typed.len()) as nat, |i: int| '_'),
        decreases WORD_LEN - chars.len(),
    {
        chars.push('_');
    }
    assert(chars@ =~= padded(typed));
    let mut line = String::new();
    let mut i: usize = 0;
    while i < chars.len()
        invariant
            i <= chars.len(),
            line@ == spaced(chars@.take(i as int)),
        decreases chars.len() - i,
    {
        if i > 0 {
            line.push(' ');
        }
        line.push(chars[i]);
        assert(line@ =~= spaced(chars@.take(i as int + 1)));
        i += 1;
    }
    assert(chars@.take(chars.len() as int) =~= chars@);
    line
}

} // verus!
