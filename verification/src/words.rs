//! The word pool and the secret word of the round.

use crate::feedback::{match_letters, match_result};
use crate::lines::{collect_words, lemma_word_pool_lengths, word_pool, WORD_LEN};
use crate::strings::{chars_of, views};
use crate::word_list::{FIRST_WORD, WORDS_A_TO_C, WORDS_D_TO_L, WORDS_M_TO_R, WORDS_S, WORDS_T_TO_Z};
use rand::Rng;
use vstd::prelude::*;

verus! {

/// How one letter of a guess compares with the secret word.
#[derive(Clone, Copy, Debug, PartialEq, Eq, Structural)]
pub enum LetterMatch {
    /// The secret holds this letter at this position.
    Correct,
    /// The secret holds this letter elsewhere, and that occurrence is not
    /// already accounted for by another letter of the guess.
    Partial,
    /// The secret does not hold this letter, or every occurrence of it is
    /// accounted for by other letters of the guess.
    Incorrect,
}

/// Why a word source could not be loaded.
#[derive(Clone, Copy, Debug, PartialEq, Eq, Structural)]
pub enum LoadError {
    /// No line of the source has exactly `WORD_LEN` characters.
    EmptyPool,
}

/// The pool of words to guess from, and the word to be guessed in the
/// current round.
pub struct Words {
    /// The words of the pool, in the order of their source.
    all_words: Vec<String>,
    /// The secret word of the round, once one has been chosen.
    pub chosen_word: Option<String>,
}

/// The pool that `Words::new` loads: the first word, then the words of
/// each list.
pub open spec fn builtin_pool() -> Seq<Seq<char>> {
    seq![FIRST_WORD@] + word_pool(WORDS_A_TO_C@) + word_pool(WORDS_D_TO_L@) + word_pool(
        WORDS_M_TO_R@,
    ) + word_pool(WORDS_S@) + word_pool(WORDS_T_TO_Z@)
}

/// `rand::thread_rng().gen_range(0..bound)`: a number drawn from the
/// thread's generator. All that is claimed of it is that it lies below
/// `bound`; an empty range, on which `gen_range` panics, is left out.
#[verifier::external_body]
fn random_index(bound: usize) -> (index: usize)
    requires
        bound > 0,
    ensures
        index < bound,
{
    rand::thread_rng().gen_range(0..bound)
}

impl Words {
    /// The words of the pool, in the order of their source.
    pub closed spec fn pool(&self) -> Seq<Seq<char>> {
        views(self.all_words@)
    }

    /// The secret word, if one has been chosen.
    pub closed spec fn secret(&self) -> Option<Seq<char>> {
        match self.chosen_word {
            Some(word) => Some(word@),
            None => None,
        }
    }

    /// The pool is not empty, each of its words has `WORD_LEN` characters,
    /// and the secret, if there is one, is a word of the pool.
    pub open spec fn wf(&self) -> bool {
        &&& self.pool().len() > 0
        &&& forall|i: int| 0 <= i < self.pool().len() ==> (#[trigger] self.pool()[i]).len() == WORD_LEN
        &&& self.secret() matches Some(word) ==> self.pool().contains(word)
    }

    /// The built-in pool, with no secret chosen yet.
    pub fn new() -> (words: Self)
        ensures
            words.wf(),
            words.pool() == builtin_pool(),
            words.secret().is_none(),
    {
        let mut all_words: Vec<String> = Vec::new();
        all_words.push(FIRST_WORD.to_owned());
        assert(views(all_words@) =~= seq![FIRST_WORD@]);
        collect_words(&mut all_words, WORDS_A_TO_C);
        collect_words(&mut all_words, WORDS_D_TO_L);
        collect_words(&mut all_words, WORDS_M_TO_R);
        collect_words(&mut all_words, WORDS_S);
        collect_words(&mut all_words, WORDS_T_TO_Z);
        proof {
            reveal_strlit("about");
            lemma_word_pool_lengths(WORDS_A_TO_C@);
            lemma_word_pool_lengths(WORDS_D_TO_L@);
            lemma_word_pool_lengths(WORDS_M_TO_R@);
            lemma_word_pool_lengths(WORDS_S@);
            lemma_word_pool_lengths(WORDS_T_TO_Z@);
        }
        Words { all_words, chosen_word: None }
    }

    /// The pool of the words of `source`, with no secret chosen yet. A source
    /// without any line of `WORD_LEN` characters is refused.
    pub fn load(source: &str) -> (loaded: Result<Self, LoadError>)
        ensures
            loaded.is_ok() <==> word_pool(source@).len() > 0,
            loaded matches Ok(words) ==> words.wf() && words.pool() == word_pool(source@)
                && words.secret().is_none(),
            loaded matches Err(error) ==> error == LoadError::EmptyPool,
    {
        let mut all_words: Vec<String> = Vec::new();
        collect_words(&mut all_words, source);
        proof {
            lemma_word_pool_lengths(source@);
            assert(views(Seq::<String>::empty()) + word_pool(source@) =~= word_pool(source@));
        }
        if all_words.len() == 0 {
            Err(LoadError::EmptyPool)
        } else {
            Ok(Words { all_words, chosen_word: None })
        }
    }

    /// Whether the pool and the secret are as `wf` asks.
    pub fn is_well_formed(&self) -> (ok: bool)
        ensures
            ok == self.wf(),
    {
        if self.all_words.len() == 0 {
            return false;
        }
        let mut i: usize = 0;
        while i < self.all_words.len()
            invariant
                i <= self.all_words.len(),
                forall|j: int| 0 <= j < i ==> (#[trigger] self.pool()[j]).len() == WORD_LEN,
            decreases self.all_words.len() - i,
        {
            if self.all_words[i].as_str().unicode_len() != WORD_LEN {
                assert(self.pool()[i as int].len() != WORD_LEN);
                return false;
            }
            i += 1;
        }
        match &self.chosen_word {
            Some(word) => self.is_word_valid(word.as_str()),
            None => true,
        }
    }

    /// The secret word, if one has been chosen.
    pub fn chosen(&self) -> (word: Option<&String>)
        ensures
            word.is_some() == self.secret().is_some(),
            word matches Some(text) ==> self.secret() == Some(text@),
    {
        self.chosen_word.as_ref()
    }

    /// The number of words in the pool.
    pub fn pool_size(&self) -> (size: usize)
        ensures
            size == self.pool().len(),
    {
        self.all_words.len()
    }

    /// Makes the word at `index` of the pool the secret, and returns it.
    pub fn choose_word_at(&mut self, index: usize) -> (word: String)
        requires
            index < old(self).pool().len(),
        ensures
            final(self).pool() == old(self).pool(),
            final(self).secret() == Some(word@),
            word@ == old(self).pool()[index as int],
    {
        let word = self.all_words[index].clone();
        self.chosen_word = Some(word.clone());
        word
    }

    /// Draws a word of the pool at random, makes it the secret, and returns it.
    pub fn choose_word(&mut self) -> (word: String)
        requires
            old(self).pool().len() > 0,
        ensures
            final(self).pool() == old(self).pool(),
            final(self).secret() == Some(word@),
            old(self).pool().contains(word@),
    {
        let index = random_index(self.all_words.len());
        self.choose_word_at(index)
    }

    /// Whether `word` has `WORD_LEN` characters and is a word of the pool,
    /// character for character.
    pub fn is_word_valid(&self, word: &str) -> (valid: bool)
        ensures
            valid == (word@.len() == WORD_LEN && self.pool().contains(word@)),
            word@.len() != WORD_LEN ==> !valid,
            self.wf() ==> valid == self.pool().contains(word@),
    {
        if word.unicode_len() != WORD_LEN {
            return false;
        }
        let wanted = word.to_owned();
        let mut i: usize = 0;
        while i < self.all_words.len()
            invariant
                i <= self.all_words.len(),
                wanted@ == word@,
                word@.len() == WORD_LEN,
                forall|j: int| 0 <= j < i ==> self.pool()[j] != word@,
            decreases self.all_words.len() - i,
        {
            if self.all_words[i] == wanted {
                assert(self.pool()[i as int] == word@);
                return true;
            }
            i += 1;
        }
        false
    }

    /// The feedback on `word` against the secret, letter by letter.
    pub fn check_word(&self, word: &str) -> (result: [LetterMatch; 5])
        requires
            self.secret() matches Some(secret) && secret.len() == WORD_LEN,
            word@.len() == WORD_LEN,
        ensures
            result@ == match_result(self.secret().unwrap(), word@),
    {
        let secret = match &self.chosen_word {
            Some(chosen) => chars_of(chosen.as_str()),
            None => Vec::new(),
        };
        let guess = chars_of(word);
        let found = match_letters(&secret, &guess);
        let result = [found[0], found[1], found[2], found[3], found[4]];
        assert(result@ =~= found@);
        result
    }
}

} // verus!
