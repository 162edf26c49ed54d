//! Per-letter feedback on a guess, with exact counting of repeated letters.
//!
//! The feedback is specified position by position over two counts, and
//! computed by the usual two passes over a table of letters still available.

use crate::words::LetterMatch;
use std::collections::HashMap;
use vstd::prelude::*;

verus! {

broadcast use vstd::std_specs::hash::group_hash_axioms;

/// How often `c` occurs among the first `upto` letters of `w`.
pub open spec fn occurrences(w: Seq<char>, c: char, upto: int) -> nat
    decreases upto,
{
    if upto <= 0 {
        0
    } else {
        occurrences(w, c, upto - 1) + if w[upto - 1] == c {
            1nat
        } else {
            0nat
        }
    }
}

/// Among the first `upto` positions, how many hold `c` in both words.
pub open spec fn in_place(secret: Seq<char>, guess: Seq<char>, c: char, upto: int) -> nat
    decreases upto,
{
    if upto <= 0 {
        0
    } else {
        in_place(secret, guess, c, upto - 1) + if secret[upto - 1] == c && guess[upto - 1] == c {
            1nat
        } else {
            0nat
        }
    }
}

/// Among the first `upto` positions, how many hold `c` in the secret and
/// another letter in the guess: the occurrences that a misplaced `c` of the
/// guess can be credited against.
pub open spec fn unmatched(secret: Seq<char>, guess: Seq<char>, c: char, upto: int) -> nat
    decreases upto,
{
    if upto <= 0 {
        0
    } else {
        unmatched(secret, guess, c, upto - 1) + if secret[upto - 1] == c && guess[upto - 1] != c {
            1nat
        } else {
            0nat
        }
    }
}

/// Among the first `upto` positions, how many hold `c` in the guess and
/// another letter in the secret.
pub open spec fn misplaced(secret: Seq<char>, guess: Seq<char>, c: char, upto: int) -> nat
    decreases upto,
{
    if upto <= 0 {
        0
    } else {
        misplaced(secret, guess, c, upto - 1) + if guess[upto - 1] == c && secret[upto - 1] != c {
            1nat
        } else {
            0nat
        }
    }
}

/// The feedback on position `i` of `guess`, for words of equal length.
///
/// A letter in place is `Correct`. A letter out of place is `Partial` as long
/// as the out-of-place copies of it to its left have not used up the copies
/// that the secret holds at positions where the guess has another letter.
pub open spec fn letter_match(secret: Seq<char>, guess: Seq<char>, i: int) -> LetterMatch {
    if guess[i] == secret[i] {
        LetterMatch::Correct
    } else if misplaced(secret, guess, guess[i], i) < unmatched(
        secret,
        guess,
        guess[i],
        secret.len() as int,
    ) {
        LetterMatch::Partial
    } else {
        LetterMatch::Incorrect
    }
}

/// The feedback on every position of `guess`.
pub open spec fn match_result(secret: Seq<char>, guess: Seq<char>) -> Seq<LetterMatch> {
    Seq::new(guess.len(), |i: int| letter_match(secret, guess, i))
}

/// Whether every position of a feedback is `Correct`.
pub open spec fn all_correct(result: Seq<LetterMatch>) -> bool {
    forall|i: int| 0 <= i < result.len() ==> result[i] == LetterMatch::Correct
}

/// Among the first `upto` positions of the guess, how many hold `c` and got
/// a feedback other than `Incorrect`.
pub open spec fn credited(secret: Seq<char>, guess: Seq<char>, c: char, upto: int) -> nat
    decreases upto,
{
    if upto <= 0 {
        0
    } else {
        credited(secret, guess, c, upto - 1) + if guess[upto - 1] == c && letter_match(
            secret,
            guess,
            upto - 1,
        ) != LetterMatch::Incorrect {
            1nat
        } else {
            0nat
        }
    }
}

/// What is left of `have` after `used` were taken, never below zero.
pub open spec fn left_over(have: nat, used: nat) -> nat {
    if used < have {
        (have - used) as nat
    } else {
        0
    }
}

/// The smaller of two counts.
pub open spec fn smaller(a: nat, b: nat) -> nat {
    if a <= b {
        a
    } else {
        b
    }
}

/// Every occurrence of a letter is either in place or not: the counts add up,
/// in the secret and in the guess.
pub proof fn lemma_occurrences_split(secret: Seq<char>, guess: Seq<char>, c: char, upto: int)
    ensures
        occurrences(secret, c, upto) == in_place(secret, guess, c, upto) + unmatched(
            secret,
            guess,
            c,
            upto,
        ),
        occurrences(guess, c, upto) == in_place(secret, guess, c, upto) + misplaced(
            secret,
            guess,
            c,
            upto,
        ),
    decreases upto,
{
    if upto > 0 {
        lemma_occurrences_split(secret, guess, c, upto - 1);
    }
}

/// A count over a prefix is at most the length of the prefix.
pub proof fn lemma_occurrences_bound(w: Seq<char>, c: char, upto: int)
    requires
        0 <= upto,
    ensures
        occurrences(w, c, upto) <= upto,
    decreases upto,
{
    if upto > 0 {
        lemma_occurrences_bound(w, c, upto - 1);
    }
}

/// Counting further positions never lowers the count of letters in place.
pub proof fn lemma_in_place_grows(
    secret: Seq<char>,
    guess: Seq<char>,
    c: char,
    from: int,
    upto: int,
)
    requires
        from <= upto,
    ensures
        in_place(secret, guess, c, from) <= in_place(secret, guess, c, upto),
    decreases upto - from,
{
    if from < upto {
        lemma_in_place_grows(secret, guess, c, from, upto - 1);
    }
}

/// A guess that equals the secret is `Correct` at every position, and no
/// other guess of the secret's length is.
pub proof fn lemma_all_correct_iff_same(secret: Seq<char>, guess: Seq<char>)
    requires
        secret.len() == guess.len(),
    ensures
        all_correct(match_result(secret, guess)) <==> guess == secret,
{
    let result = match_result(secret, guess);
    if all_correct(result) {
        assert forall|i: int| 0 <= i < guess.len() implies guess[i] == secret[i] by {
            assert(result[i] == LetterMatch::Correct);
        }
        assert(guess =~= secret);
    }
}

/// Up to any position, the credit given to a letter is made of its copies
/// in place and of as many of its misplaced copies as the secret has copies
/// left for.
pub proof fn lemma_credit_so_far(secret: Seq<char>, guess: Seq<char>, c: char, upto: int)
    requires
        secret.len() == guess.len(),
        0 <= upto <= guess.len(),
    ensures
        credited(secret, guess, c, upto) == in_place(secret, guess, c, upto) + smaller(
            misplaced(secret, guess, c, upto),
            unmatched(secret, guess, c, secret.len() as int),
        ),
    decreases upto,
{
    if upto > 0 {
        lemma_credit_so_far(secret, guess, c, upto - 1);
    }
}

/// A letter of the guess is credited, as `Correct` or `Partial`, exactly as
/// often as both words hold it: never more often than the secret holds it,
/// however often the guess repeats it.
pub proof fn lemma_credit_is_exact(secret: Seq<char>, guess: Seq<char>, c: char)
    requires
        secret.len() == guess.len(),
    ensures
        credited(secret, guess, c, guess.len() as int) == smaller(
            occurrences(secret, c, secret.len() as int),
            occurrences(guess, c, guess.len() as int),
        ),
        credited(secret, guess, c, guess.len() as int) <= occurrences(
            secret,
            c,
            secret.len() as int,
        ),
{
    lemma_credit_so_far(secret, guess, c, guess.len() as int);
    lemma_occurrences_split(secret, guess, c, guess.len() as int);
}

/// The letters still available, by letter: the table that the two passes
/// of `match_letters` count down.
struct LetterCounts {
    counts: HashMap<u32, usize>,
}

impl LetterCounts {
    /// How many copies of `c` the table holds.
    closed spec fn count(&self, c: char) -> nat {
        if self.counts@.contains_key(c as u32) {
            self.counts@[c as u32] as nat
        } else {
            0
        }
    }

    fn new() -> (table: Self)
        ensures
            forall|c: char| (#[trigger] table.count(c)) == 0,
    {
        LetterCounts { counts: HashMap::new() }
    }

    fn get(&self, c: char) -> (n: usize)
        ensures
            n == self.count(c),
    {
        match self.counts.get(&(c as u32)) {
            Some(n) => *n,
            None => 0,
        }
    }

    fn put(&mut self, c: char, n: usize)
        ensures
            final(self).count(c) == n,
            forall|d: char| d != c ==> (#[trigger] final(self).count(d)) == old(self).count(d),
    {
        self.counts.insert(c as u32, n);
        proof {
            assert forall|d: char| d != c implies (#[trigger] self.count(d)) == old(self).count(
                d,
            ) by {
                vstd::utf8::char_u32_cast(d, d as u32);
                vstd::utf8::char_u32_cast(c, c as u32);
            }
        }
    }
}

/// Computes the feedback on `guess` against `secret` in two passes: the first
/// marks the letters in place, the second credits each remaining letter of
/// the guess against a copy of it that the first pass left in the table.
pub fn match_letters(secret: &Vec<char>, guess: &Vec<char>) -> (result: Vec<LetterMatch>)
    requires
        secret@.len() == guess@.len(),
    ensures
        result@ == match_result(secret@, guess@),
{
    let n = guess.len();
    let ghost s = secret@;
    let ghost g = guess@;
    let mut table = LetterCounts::new();
    let mut k: usize = 0;
    while k < n
        invariant
            k <= n,
            n == s.len(),
            s == secret@,
            forall|c: char| (#[trigger] table.count(c)) == occurrences(s, c, k as int),
        decreases n - k,
    {
        let c = secret[k];
        let have = table.get(c);
        proof {
            lemma_occurrences_bound(s, c, k as int);
        }
        table.put(c, have + 1);
        k += 1;
    }
    let mut result: Vec<LetterMatch> = Vec::new();
    let mut i: usize = 0;
    while i < n
        invariant
            i <= n,
            n == s.len(),
            n == g.len(),
            s == secret@,
            g == guess@,
            result@.len() == i,
            forall|j: int|
                0 <= j < i ==> (#[trigger] result@[j]) == if g[j] == s[j] {
                    LetterMatch::Correct
                } else {
                    LetterMatch::Incorrect
                },
            forall|c: char|
                (#[trigger] table.count(c)) + in_place(s, g, c, i as int) == occurrences(
                    s,
                    c,
                    n as int,
                ),
        decreases n - i,
    {
        let c = guess[i];
        if c == secret[i] {
            let have = table.get(c);
            proof {
                lemma_in_place_grows(s, g, c, i as int + 1, n as int);
                lemma_occurrences_split(s, g, c, n as int);
            }
            table.put(c, have - 1);
            result.push(LetterMatch::Correct);
        } else {
            result.push(LetterMatch::Incorrect);
        }
        i += 1;
    }
    proof {
        assert forall|c: char| (#[trigger] table.count(c)) == unmatched(s, g, c, n as int) by {
            lemma_occurrences_split(s, g, c, n as int);
        }
    }
    let mut i: usize = 0;
    while i < n
        invariant
            i <= n,
            n == s.len(),
            n == g.len(),
            s == secret@,
            g == guess@,
            result@.len() == n,
            forall|j: int| 0 <= j < i ==> (#[trigger] result@[j]) == letter_match(s, g, j),
            forall|j: int|
                i <= j < n ==> (#[trigger] result@[j]) == if g[j] == s[j] {
                    LetterMatch::Correct
                } else {
                    LetterMatch::Incorrect
                },
            forall|c: char|
                (#[trigger] table.count(c)) == left_over(
                    unmatched(s, g, c, n as int),
                    misplaced(s, g, c, i as int),
                ),
        decreases n - i,
    {
        let c = guess[i];
        if c != secret[i] {
            let have = table.get(c);
            if have > 0 {
                table.put(c, have - 1);
                result[i] = LetterMatch::Partial;
            }
        }
        i += 1;
    }
    assert(result@ =~= match_result(s, g));
    result
}

} // verus!
