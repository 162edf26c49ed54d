//! The game: its state, and how each event changes it.

use crate::feedback::{all_correct, lemma_all_correct_iff_same, match_result};
use crate::game::{conclude, draws_from, fresh, game_wf, is_valid, play, run_with, runs_to, step};
use crate::game::{lemma_exit_ends_run, lemma_pool_word_len, Game};
use crate::keys::{classify, event_of, is_lower, Event, KeyPress};
use crate::lines::WORD_LEN;
use crate::strings::chars_of;
use crate::words::{builtin_pool, LetterMatch, Words};
use vstd::prelude::*;

verus! {

/// The number of guesses that a round allows.
pub const MAX_ATTEMPTS: usize = 6;

/// The screen that the game shows, which is the phase that it is in.
#[derive(Clone, Copy, Debug, PartialEq, Eq, Structural)]
pub enum ScreenStates {
    /// The round is on: the player edits and submits guesses.
    Playing,
    /// The round is over, won or lost, and the player is asked whether to
    /// play another.
    GameEnd(bool),
}

/// A submitted guess with its feedback.
#[derive(Clone, Debug)]
pub struct Attempt {
    /// The word that was guessed.
    pub letters: String,
    /// The feedback on each of its letters, against the secret of the round.
    pub matches: [LetterMatch; 5],
}

/// The game as the front end sees it.
pub struct App {
    /// Whether the player has asked to leave the game.
    pub exit: bool,
    /// The word pool, and the secret of the round.
    pub words: Words,
    /// The screen that the game shows.
    pub screen_state: ScreenStates,
    /// The guess that the player is typing.
    pub input: String,
    /// Whether the guess being typed is a word of the pool.
    pub current_input_valid: bool,
    /// The guesses submitted in this round that missed the secret.
    pub attempts: Vec<Attempt>,
    /// Whether the secret may be shown while the round is on.
    pub debug_mode: bool,
}

/// Whether every letter of a feedback is `Correct`.
pub fn is_all_correct(matches: &[LetterMatch; 5]) -> (all: bool)
    ensures
        all == all_correct(matches@),
{
    let mut i: usize = 0;
    while i < 5
        invariant
            i <= 5,
            forall|j: int| 0 <= j < i ==> matches@[j] == LetterMatch::Correct,
        decreases 5 - i,
    {
        if matches[i] != LetterMatch::Correct {
            return false;
        }
        i += 1;
    }
    true
}

impl View for App {
    type V = Game;

    open spec fn view(&self) -> Game {
        Game {
            pool: self.words.pool(),
            secret: self.words.secret().unwrap(),
            screen: self.screen_state,
            attempts: Seq::new(self.attempts@.len(), |i: int| self.attempts@[i].letters@),
            input: self.input@,
            input_valid: self.current_input_valid,
            debug_mode: self.debug_mode,
            exit: self.exit,
        }
    }
}

impl App {
    /// The parts of the game agree with each other: a secret is chosen, and
    /// each recorded guess carries its feedback against that secret.
    pub open spec fn consistent(&self) -> bool {
        &&& self.words.secret().is_some()
        &&& forall|i: int|
            0 <= i < self.attempts@.len() ==> (#[trigger] self.attempts@[i]).matches@
                == match_result(self@.secret, self.attempts@[i].letters@)
    }

    /// The game is in a state that it can get into.
    pub open spec fn wf(&self) -> bool {
        game_wf(self@) && self.consistent()
    }

    /// Whether the game is in a state that it can get into.
    pub fn is_well_formed(&self) -> (ok: bool)
        ensures
            ok == self.wf(),
    {
        if !self.words.is_well_formed() {
            return false;
        }
        let secret = match self.words.chosen() {
            Some(word) => word,
            None => {
                return false;
            },
        };
        proof {
            let pool = self.words.pool();
            let k = choose|k: int| 0 <= k < pool.len() && pool[k] == secret@;
            assert(pool[k].len() == WORD_LEN);
        }
        if self.attempts.len() > MAX_ATTEMPTS {
            return false;
        }
        let mut i: usize = 0;
        while i < self.attempts.len()
            invariant
                i <= self.attempts.len(),
                self.words.secret() == Some(secret@),
                secret@.len() == WORD_LEN,
                forall|j: int|
                    0 <= j < i ==> {
                        let attempt = #[trigger] self.attempts@[j];
                        &&& is_valid(self.words.pool(), attempt.letters@)
                        &&& attempt.letters@ != secret@
                        &&& attempt.matches@ == match_result(secret@, attempt.letters@)
                    },
            decreases self.attempts.len() - i,
        {
            let attempt = &self.attempts[i];
            if !self.words.is_word_valid(attempt.letters.as_str()) || attempt.letters == *secret {
                assert(!(is_valid(self@.pool, self@.attempts[i as int]) && self@.attempts[i as int]
                    != self@.secret));
                return false;
            }
            let matches = self.words.check_word(attempt.letters.as_str());
            let mut k: usize = 0;
            while k < 5
                invariant
                    k <= 5,
                    i < self.attempts@.len(),
                    *attempt == self.attempts@[i as int],
                    self.words.secret() == Some(secret@),
                    matches@ == match_result(secret@, attempt.letters@),
                    forall|j: int| 0 <= j < k ==> attempt.matches@[j] == matches@[j],
                decreases 5 - k,
            {
                if attempt.matches[k] != matches[k] {
                    assert(attempt.matches@[k as int] != matches@[k as int]);
                    return false;
                }
                k += 1;
            }
            assert(attempt.matches@ =~= matches@);
            i += 1;
        }
        let input = chars_of(self.input.as_str());
        if input.len() > WORD_LEN {
            return false;
        }
        let mut i: usize = 0;
        while i < input.len()
            invariant
                i <= input.len(),
                input@ == self@.input,
                input@.len() <= WORD_LEN,
                forall|j: int| 0 <= j < i ==> is_lower(#[trigger] input@[j]),
            decreases input.len() - i,
        {
            if !('a' <= input[i] && input[i] <= 'z') {
                assert(!is_lower(self@.input[i as int]));
                return false;
            }
            i += 1;
        }
        if self.current_input_valid != self.words.is_word_valid(self.input.as_str()) {
            return false;
        }
        let ok = match self.screen_state {
            ScreenStates::Playing => self.attempts.len() < MAX_ATTEMPTS,
            ScreenStates::GameEnd(true) => self.attempts.len() < MAX_ATTEMPTS && self.input
                == *secret,
            ScreenStates::GameEnd(false) => self.attempts.len() == MAX_ATTEMPTS && input.len()
                == 0,
        };
        proof {
            if ok {
                assert forall|j: int| 0 <= j < self@.attempts.len() implies is_valid(
                    self@.pool,
                    #[trigger] self@.attempts[j],
                ) && self@.attempts[j] != self@.secret by {
                    let attempt = self.attempts@[j];
                }
            }
        }
        ok
    }

    /// A game on the given words, at the start of a round.
    pub fn with_words(words: Words, debug_mode: bool) -> (app: Self)
        requires
            words.wf(),
            words.secret().is_some(),
        ensures
            app.wf(),
            app@ == fresh(words.pool(), words.secret().unwrap(), debug_mode),
    {
        let app = App {
            exit: false,
            words,
            screen_state: ScreenStates::Playing,
            input: String::new(),
            current_input_valid: false,
            attempts: Vec::new(),
            debug_mode,
        };
        assert(app@.attempts =~= Seq::empty());
        app
    }

    /// A game on the built-in words, with a secret drawn at random.
    pub fn new(debug_mode: bool) -> (app: Self)
        ensures
            app.wf(),
            app@ == fresh(builtin_pool(), app@.secret, debug_mode),
    {
        let mut words = Words::new();
        words.choose_word();
        App::with_words(words, debug_mode)
    }

    /// Applies an event while the round is on.
    pub fn handle_playing(&mut self, event: Event)
        requires
            old(self).wf(),
            old(self)@.screen == ScreenStates::Playing,
        ensures
            final(self).wf(),
            final(self)@ == play(old(self)@, event),
    {
        proof {
            lemma_pool_word_len(self@, self@.secret);
        }
        match event {
            Event::Letter(c) => {
                if 'a' <= c && c <= 'z' && self.input.as_str().unicode_len() < WORD_LEN {
                    self.input.push(c);
                }
            },
            Event::Backspace => {
                self.input.pop();
            },
            Event::Submit => {
                if self.current_input_valid && self.attempts.len() < MAX_ATTEMPTS {
                    let matches = self.words.check_word(self.input.as_str());
                    proof {
                        lemma_all_correct_iff_same(self@.secret, self@.input);
                    }
                    if is_all_correct(&matches) {
                        self.screen_state = ScreenStates::GameEnd(true);
                    } else {
                        let letters = self.input.clone();
                        self.attempts.push(Attempt { letters, matches });
                        self.input = String::new();
                        if self.attempts.len() >= MAX_ATTEMPTS {
                            self.screen_state = ScreenStates::GameEnd(false);
                        }
                        assert(self@.attempts =~= old(self)@.attempts.push(old(self)@.input));
                    }
                }
            },
            _ => {},
        }
        self.current_input_valid = self.words.is_word_valid(self.input.as_str());
    }

    /// Applies an event once the round is over. To play again draws the
    /// secret of the next round at random from the pool.
    pub fn handle_gameend_screen(&mut self, event: Event)
        requires
            old(self).wf(),
            old(self)@.screen is GameEnd,
        ensures
            final(self).wf(),
            final(self)@ == conclude(old(self)@, event, final(self)@.secret),
    {
        match event {
            Event::Confirm => {
                self.attempts = Vec::new();
                self.input = String::new();
                self.current_input_valid = false;
                self.words.choose_word();
                self.screen_state = ScreenStates::Playing;
                assert(self@.attempts =~= Seq::empty());
            },
            Event::Decline => {
                self.exit = true;
            },
            _ => {},
        }
    }

    /// Applies a key press: reads it as an event on the current screen, and
    /// lets the event change the state.
    pub fn handle_key(&mut self, key: KeyPress)
        requires
            old(self).wf(),
        ensures
            final(self).wf(),
            final(self)@ == step(
                old(self)@,
                event_of(old(self)@.screen, key),
                final(self)@.secret,
            ),
    {
        let event = classify(self.screen_state, key);
        match event {
            Event::Quit => {
                self.exit = true;
            },
            _ => match self.screen_state {
                ScreenStates::Playing => self.handle_playing(event),
                ScreenStates::GameEnd(_) => self.handle_gameend_screen(event),
            },
        }
    }

    /// Applies key presses in order, until all are applied or the player has
    /// asked to leave.
    pub fn run(&mut self, keys: &Vec<KeyPress>)
        requires
            old(self).wf(),
        ensures
            final(self).wf(),
            runs_to(old(self)@, keys@, final(self)@),
    {
        let ghost before = self@;
        let ghost mut draws: Seq<Seq<char>> = Seq::empty();
        let mut i: usize = 0;
        assert(keys@.take(0) =~= Seq::<KeyPress>::empty());
        while i < keys.len() && !self.exit
            invariant
                i <= keys.len(),
                self.wf(),
                self@.pool == before.pool,
                draws_from(before.pool, draws, i as nat),
                self@ == run_with(before, keys@.take(i as int), draws),
            decreases keys.len() - i,
        {
            self.handle_key(keys[i]);
            proof {
                let ghost drawn = self@.secret;
                assert(before.pool.contains(drawn));
                assert(keys@.take(i as int + 1).drop_last() =~= keys@.take(i as int));
                assert(draws.push(drawn).drop_last() =~= draws);
                draws = draws.push(drawn);
            }
            i += 1;
        }
        proof {
            let rest = Seq::new((keys.len() - i) as nat, |k: int| before.secret);
            let all = draws + rest;
            assert(before.pool.contains(before.secret));
            assert(all.take(i as int) =~= draws);
            if self@.exit {
                lemma_exit_ends_run(before, keys@, all, i as int);
            } else {
                assert(keys@.take(i as int) =~= keys@);
                assert(all =~= draws);
            }
            assert(draws_from(before.pool, all, keys@.len()));
        }
    }

    /// The secret, where the player may see it: once the round is over, and
    /// in debug mode at any time.
    pub fn shown_secret(&self) -> (word: Option<&String>)
        requires
            self.wf(),
        ensures
            word.is_some() == (self@.debug_mode || self@.screen is GameEnd),
            word matches Some(text) ==> text@ == self@.secret,
    {
        let over = match self.screen_state {
            ScreenStates::Playing => false,
            ScreenStates::GameEnd(_) => true,
        };
        if self.debug_mode || over {
            self.words.chosen()
        } else {
            None
        }
    }

    /// Whether the player has asked to leave the game.
    pub fn should_exit(&self) -> (exit: bool)
        ensures
            exit == self@.exit,
    {
        self.exit
    }
}

} // verus!
