//! The word source: text with one word to a line.

use crate::strings::{string_of, views};
use vstd::prelude::*;

verus! {

/// The number of letters in every word of the game.
pub const WORD_LEN: usize = 5;

/// A line without the carriage return that may end it.
pub open spec fn strip_cr(line: Seq<char>) -> Seq<char> {
    if line.len() > 0 && line.last() == '\r' {
        line.drop_last()
    } else {
        line
    }
}

/// Reads `text` from the left: the lines that a line feed has closed so far,
/// and the characters of the line still open.
pub open spec fn scan(text: Seq<char>) -> (Seq<Seq<char>>, Seq<char>)
    decreases text.len(),
{
    if text.len() == 0 {
        (Seq::empty(), Seq::empty())
    } else {
        let (closed, open) = scan(text.drop_last());
        if text.last() == '\n' {
            (closed.push(strip_cr(open)), Seq::empty())
        } else {
            (closed, open.push(text.last()))
        }
    }
}

/// The lines of `text`. A line ends at a line feed, which is not part of it,
/// nor is a carriage return just before the line feed. What follows the last
/// line feed is a line too, unless it is empty.
pub open spec fn lines(text: Seq<char>) -> Seq<Seq<char>> {
    let (closed, open) = scan(text);
    if open.len() > 0 {
        closed.push(open)
    } else {
        closed
    }
}

/// Whether a line can serve as a word: it has exactly `WORD_LEN` characters.
pub open spec fn is_word(line: Seq<char>) -> bool {
    line.len() == WORD_LEN
}

/// The lines that can serve as words, in order.
pub open spec fn keep_words(lines: Seq<Seq<char>>) -> Seq<Seq<char>> {
    lines.filter(|line: Seq<char>| is_word(line))
}

/// The pool of words that a source text gives: its lines of exactly
/// `WORD_LEN` characters, in order, as they stand.
pub open spec fn word_pool(text: Seq<char>) -> Seq<Seq<char>> {
    keep_words(lines(text))
}

/// Text without a line feed is still one open line.
pub proof fn lemma_scan_one_line(text: Seq<char>)
    requires
        !text.contains('\n'),
    ensures
        scan(text) == (Seq::<Seq<char>>::empty(), text),
    decreases text.len(),
{
    if text.len() == 0 {
        assert(text =~= Seq::<char>::empty());
    } else {
        let front = text.drop_last();
        assert forall|i: int| 0 <= i < front.len() implies front[i] != '\n' by {
            assert(front[i] == text[i]);
            assert(text.contains(text[i]));
        }
        assert(text.contains(text.last()));
        lemma_scan_one_line(front);
        assert(front.push(text.last()) =~= text);
    }
}

/// Reading past a first line and its line feed: the line is closed, and the
/// rest is read as if the text began there.
pub proof fn lemma_scan_after_line(first: Seq<char>, rest: Seq<char>)
    requires
        !first.contains('\n'),
    ensures
        scan(first + seq!['\n'] + rest) == (
            seq![strip_cr(first)] + scan(rest).0,
            scan(rest).1,
        ),
    decreases rest.len(),
{
    let text = first + seq!['\n'] + rest;
    if rest.len() == 0 {
        assert(text.drop_last() =~= first);
        lemma_scan_one_line(first);
        assert(Seq::<Seq<char>>::empty().push(strip_cr(first)) =~= seq![strip_cr(first)]
            + scan(rest).0);
    } else {
        assert(text.drop_last() =~= first + seq!['\n'] + rest.drop_last());
        assert(text.last() == rest.last());
        lemma_scan_after_line(first, rest.drop_last());
        let (closed, open) = scan(rest.drop_last());
        if rest.last() == '\n' {
            assert((seq![strip_cr(first)] + closed).push(strip_cr(open)) =~= seq![
                strip_cr(first),
            ] + closed.push(strip_cr(open)));
        }
    }
}

/// The lines of a text, from the left: empty text has none; text without a
/// line feed is one line, as it stands; and text with a line feed is the
/// line before the first of them, without the carriage return that may end
/// it, followed by the lines of what comes after that line feed.
pub proof fn lemma_lines_from_the_left(first: Seq<char>, rest: Seq<char>)
    requires
        !first.contains('\n'),
    ensures
        lines(Seq::<char>::empty()) == Seq::<Seq<char>>::empty(),
        first.len() > 0 ==> lines(first) == seq![first],
        lines(first + seq!['\n'] + rest) == seq![strip_cr(first)] + lines(rest),
{
    lemma_scan_one_line(first);
    lemma_scan_after_line(first, rest);
    assert(Seq::<Seq<char>>::empty().push(first) =~= seq![first]);
    let (closed, open) = scan(rest);
    assert((seq![strip_cr(first)] + closed).push(open) =~= seq![strip_cr(first)] + closed.push(
        open,
    ));
}

/// Keeping the words of a sequence of lines that has grown by one line.
pub proof fn lemma_keep_words_push(lines: Seq<Seq<char>>, line: Seq<char>)
    ensures
        keep_words(lines.push(line)) == if is_word(line) {
            keep_words(lines).push(line)
        } else {
            keep_words(lines)
        },
{
    reveal(Seq::filter);
    assert(lines.push(line).drop_last() =~= lines);
}

/// Every word of a pool has `WORD_LEN` characters.
pub proof fn lemma_word_pool_lengths(text: Seq<char>)
    ensures
        forall|i: int| 0 <= i < word_pool(text).len() ==> is_word(#[trigger] word_pool(text)[i]),
{
    assert forall|i: int| 0 <= i < word_pool(text).len() implies is_word(
        #[trigger] word_pool(text)[i],
    ) by {
        lines(text).lemma_filter_pred(|line: Seq<char>| is_word(line), i);
    }
}

/// A word is in the pool of a text exactly if it is one of its lines and has
/// `WORD_LEN` characters.
pub proof fn lemma_word_pool_members(text: Seq<char>, word: Seq<char>)
    ensures
        word_pool(text).contains(word) <==> lines(text).contains(word) && is_word(word),
{
    let keep = |line: Seq<char>| is_word(line);
    if word_pool(text).contains(word) {
        let i = choose|i: int| 0 <= i < word_pool(text).len() && word_pool(text)[i] == word;
        lines(text).lemma_filter_pred(keep, i);
        lines(text).lemma_filter_contains_rev(keep, word);
    }
    if lines(text).contains(word) && is_word(word) {
        let i = choose|i: int| 0 <= i < lines(text).len() && lines(text)[i] == word;
        lines(text).lemma_filter_contains(keep, i);
    }
}

/// Appends to `pool` the words of `source`.
pub fn collect_words(pool: &mut Vec<String>, source: &str)
    ensures
        views(final(pool)@) == views(old(pool)@) + word_pool(source@),
{
    let ghost text = source@;
    let ghost before = views(pool@);
    let mut open: Vec<char> = Vec::new();
    proof {
        reveal(Seq::filter);
        assert(text.take(0) =~= Seq::<char>::empty());
        assert(views(pool@) =~= before + keep_words(Seq::empty()));
    }
    for c in it: source.chars()
        invariant
            it.seq() == text,
            views(pool@) == before + keep_words(scan(text.take(it.index() as int)).0),
            open@ == scan(text.take(it.index() as int)).1,
    {
        let ghost read = text.take(it.index() as int);
        let ghost next = text.take(it.index() as int + 1);
        proof {
            assert(next.drop_last() =~= read);
            assert(next.last() == c);
        }
        if c == '\n' {
            if open.len() > 0 && open[open.len() - 1] == '\r' {
                open.pop();
            }
            proof {
                lemma_keep_words_push(scan(read).0, strip_cr(scan(read).1));
            }
            if open.len() == WORD_LEN {
                let word = string_of(&open);
                let ghost held = pool@;
                pool.push(word);
                assert(views(pool@) =~= views(held).push(word@));
            }
            open = Vec::new();
        } else {
            open.push(c);
        }
    }
    proof {
        assert(text.take(text.len() as int) =~= text);
        lemma_keep_words_push(scan(text).0, scan(text).1);
    }
    if open.len() == WORD_LEN {
        let word = string_of(&open);
        let ghost held = pool@;
        pool.push(word);
        assert(views(pool@) =~= views(held).push(word@));
    }
}

} // verus!
