//! The game as a state machine over plain values: what each event does to
//! the state, and what holds of every state and every run.

use crate::app::{ScreenStates, MAX_ATTEMPTS};
use crate::feedback::{all_correct, lemma_all_correct_iff_same, match_result};
use crate::keys::{event_of, is_lower, Event, KeyPress};
use crate::lines::WORD_LEN;
use vstd::prelude::*;

verus! {

/// The state of a game, as plain values.
pub struct Game {
    /// The words that can be guessed, and that the secret is drawn from.
    pub pool: Seq<Seq<char>>,
    /// The word to guess in this round.
    pub secret: Seq<char>,
    /// Whether the round is on, or over and how.
    pub screen: ScreenStates,
    /// The guesses of this round that missed, oldest first.
    pub attempts: Seq<Seq<char>>,
    /// The guess being typed.
    pub input: Seq<char>,
    /// Whether the guess being typed can be submitted.
    pub input_valid: bool,
    /// Whether the secret may be shown while the round is on.
    pub debug_mode: bool,
    /// Whether the player has asked to leave.
    pub exit: bool,
}

/// Whether `word` can be submitted: it has `WORD_LEN` letters and is in the pool.
pub open spec fn is_valid(pool: Seq<Seq<char>>, word: Seq<char>) -> bool {
    word.len() == WORD_LEN && pool.contains(word)
}

/// What holds of every state that a game can get into.
pub open spec fn game_wf(g: Game) -> bool {
    &&& g.pool.len() > 0
    &&& forall|i: int| 0 <= i < g.pool.len() ==> (#[trigger] g.pool[i]).len() == WORD_LEN
    &&& g.pool.contains(g.secret)
    &&& g.attempts.len() <= MAX_ATTEMPTS
    &&& forall|i: int|
        0 <= i < g.attempts.len() ==> is_valid(g.pool, #[trigger] g.attempts[i]) && g.attempts[i]
            != g.secret
    &&& g.input.len() <= WORD_LEN
    &&& forall|i: int| 0 <= i < g.input.len() ==> is_lower(#[trigger] g.input[i])
    &&& g.input_valid == is_valid(g.pool, g.input)
    &&& match g.screen {
        ScreenStates::Playing => g.attempts.len() < MAX_ATTEMPTS,
        ScreenStates::GameEnd(true) => g.attempts.len() < MAX_ATTEMPTS && g.input == g.secret,
        ScreenStates::GameEnd(false) => g.attempts.len() == MAX_ATTEMPTS && g.input.len() == 0,
    }
}

/// The state at the start of a round with the given secret.
pub open spec fn fresh(pool: Seq<Seq<char>>, secret: Seq<char>, debug_mode: bool) -> Game {
    Game {
        pool,
        secret,
        screen: ScreenStates::Playing,
        attempts: Seq::empty(),
        input: Seq::empty(),
        input_valid: false,
        debug_mode,
        exit: false,
    }
}

/// The state with the guess being typed replaced, and its validity with it.
pub open spec fn with_input(g: Game, input: Seq<char>) -> Game {
    Game { input, input_valid: is_valid(g.pool, input), ..g }
}

/// The state after the guess being typed is submitted.
///
/// Nothing happens unless the guess is valid and a guess is left. A guess
/// that equals the secret wins the round, and stays as typed. Any other is
/// recorded and cleared, and the sixth of them loses the round.
pub open spec fn submit(g: Game) -> Game {
    if !g.input_valid || g.attempts.len() >= MAX_ATTEMPTS {
        g
    } else if all_correct(match_result(g.secret, g.input)) {
        Game { screen: ScreenStates::GameEnd(true), ..g }
    } else {
        let attempts = g.attempts.push(g.input);
        Game {
            attempts,
            input: Seq::empty(),
            input_valid: false,
            screen: if attempts.len() >= MAX_ATTEMPTS {
                ScreenStates::GameEnd(false)
            } else {
                g.screen
            },
            ..g
        }
    }
}

/// The state after an event while the round is on.
pub open spec fn play(g: Game, event: Event) -> Game {
    match event {
        Event::Letter(c) => if is_lower(c) && g.input.len() < WORD_LEN {
            with_input(g, g.input.push(c))
        } else {
            g
        },
        Event::Backspace => if g.input.len() > 0 {
            with_input(g, g.input.drop_last())
        } else {
            g
        },
        Event::Submit => submit(g),
        _ => g,
    }
}

/// The state at the start of another round, with `drawn` as its secret.
pub open spec fn new_round(g: Game, drawn: Seq<char>) -> Game {
    fresh(g.pool, drawn, g.debug_mode)
}

/// The state after an event once the round is over.
pub open spec fn conclude(g: Game, event: Event, drawn: Seq<char>) -> Game {
    match event {
        Event::Confirm => Game { exit: g.exit, ..new_round(g, drawn) },
        Event::Decline => Game { exit: true, ..g },
        _ => g,
    }
}

/// The state after an event; `drawn` is the secret of the next round, should
/// the event start one.
pub open spec fn step(g: Game, event: Event, drawn: Seq<char>) -> Game {
    match event {
        Event::Quit => Game { exit: true, ..g },
        _ => match g.screen {
            ScreenStates::Playing => play(g, event),
            ScreenStates::GameEnd(_) => conclude(g, event, drawn),
        },
    }
}

/// The state after a key press; `drawn` is the secret of the next round,
/// should the key press start one. Once the player has asked to leave, a
/// key press changes nothing.
pub open spec fn apply_key(g: Game, key: KeyPress, drawn: Seq<char>) -> Game {
    if g.exit {
        g
    } else {
        step(g, event_of(g.screen, key), drawn)
    }
}

/// The state after the key presses have been applied in order; `draws`
/// holds, for each key press, the secret of the next round should that key
/// press start one.
pub open spec fn run_with(before: Game, keys: Seq<KeyPress>, draws: Seq<Seq<char>>) -> Game
    decreases keys.len(),
{
    if keys.len() == 0 {
        before
    } else {
        apply_key(run_with(before, keys.drop_last(), draws.drop_last()), keys.last(), draws.last())
    }
}

/// Whether `draws` holds one word of the pool for each of `count` key presses.
pub open spec fn draws_from(pool: Seq<Seq<char>>, draws: Seq<Seq<char>>, count: nat) -> bool {
    draws.len() == count && forall|i: int| 0 <= i < draws.len() ==> pool.contains(#[trigger] draws[i])
}

/// Whether a game in state `before` can be in state `after` once the key
/// presses have been applied in order: it can if words drawn from the pool
/// for the rounds started on the way lead there.
pub open spec fn runs_to(before: Game, keys: Seq<KeyPress>, after: Game) -> bool {
    exists|draws: Seq<Seq<char>>|
        (#[trigger] draws_from(before.pool, draws, keys.len())) && after == run_with(
            before,
            keys,
            draws,
        )
}

/// A word that the keyboard can type into the guess: letters `a` to `z` only.
pub open spec fn is_typable(word: Seq<char>) -> bool {
    forall|i: int| 0 <= i < word.len() ==> is_lower(#[trigger] word[i])
}

/// The state after the letters of `word` have been typed, one event each.
pub open spec fn typed(g: Game, word: Seq<char>) -> Game
    decreases word.len(),
{
    if word.len() == 0 {
        g
    } else {
        step(typed(g, word.drop_last()), Event::Letter(word.last()), g.secret)
    }
}

/// The state after `word` has been typed and submitted.
pub open spec fn guessed(g: Game, word: Seq<char>) -> Game {
    step(typed(g, word), Event::Submit, g.secret)
}

/// The state after each of `words` has been typed and submitted, in order.
pub open spec fn guessed_all(g: Game, words: Seq<Seq<char>>) -> Game
    decreases words.len(),
{
    if words.len() == 0 {
        g
    } else {
        guessed(guessed_all(g, words.drop_last()), words.last())
    }
}

/// Every word of the pool of a well-formed game has `WORD_LEN` letters, the
/// secret among them.
pub proof fn lemma_pool_word_len(g: Game, word: Seq<char>)
    requires
        game_wf(g),
        g.pool.contains(word),
    ensures
        word.len() == WORD_LEN,
{
    let k = choose|k: int| 0 <= k < g.pool.len() && g.pool[k] == word;
    assert(g.pool[k].len() == WORD_LEN);
}

/// No event leads out of the well-formed states, and none changes the pool
/// or the debug mode. In particular the guess being typed never grows
/// beyond `WORD_LEN` letters, nor the attempts beyond `MAX_ATTEMPTS`.
pub proof fn lemma_step_keeps_wf(g: Game, event: Event, drawn: Seq<char>)
    requires
        game_wf(g),
        g.pool.contains(drawn),
    ensures
        game_wf(step(g, event, drawn)),
        step(g, event, drawn).pool == g.pool,
        step(g, event, drawn).debug_mode == g.debug_mode,
        step(g, event, drawn).input.len() <= WORD_LEN,
        step(g, event, drawn).attempts.len() <= MAX_ATTEMPTS,
{
    lemma_pool_word_len(g, g.secret);
    if g.input_valid {
        lemma_all_correct_iff_same(g.secret, g.input);
    }
    let after = step(g, event, drawn);
    match event {
        Event::Quit => {},
        _ => match g.screen {
            ScreenStates::Playing => match event {
                Event::Letter(c) => {},
                Event::Backspace => {},
                Event::Submit => {
                    if g.input_valid && g.attempts.len() < MAX_ATTEMPTS && !all_correct(
                        match_result(g.secret, g.input),
                    ) {
                        assert forall|i: int| 0 <= i < after.attempts.len() implies is_valid(
                            after.pool,
                            #[trigger] after.attempts[i],
                        ) && after.attempts[i] != after.secret by {
                            if i < g.attempts.len() {
                                assert(after.attempts[i] == g.attempts[i]);
                            }
                        }
                    }
                },
                _ => {},
            },
            ScreenStates::GameEnd(_) => {},
        },
    }
}

/// No run leads out of the well-formed states: however many key presses
/// are applied, the guess being typed holds at most `WORD_LEN` letters, and
/// at most `MAX_ATTEMPTS` guesses are recorded.
pub proof fn lemma_run_keeps_wf(before: Game, keys: Seq<KeyPress>, draws: Seq<Seq<char>>)
    requires
        game_wf(before),
        draws_from(before.pool, draws, keys.len()),
    ensures
        game_wf(run_with(before, keys, draws)),
        run_with(before, keys, draws).pool == before.pool,
        run_with(before, keys, draws).debug_mode == before.debug_mode,
        run_with(before, keys, draws).input.len() <= WORD_LEN,
        run_with(before, keys, draws).attempts.len() <= MAX_ATTEMPTS,
    decreases keys.len(),
{
    if keys.len() > 0 {
        let mid = run_with(before, keys.drop_last(), draws.drop_last());
        assert forall|i: int| 0 <= i < draws.drop_last().len() implies before.pool.contains(
            #[trigger] draws.drop_last()[i],
        ) by {
            assert(draws.drop_last()[i] == draws[i]);
        }
        lemma_run_keeps_wf(before, keys.drop_last(), draws.drop_last());
        assert(before.pool.contains(draws[draws.len() - 1]));
        if !mid.exit {
            lemma_step_keeps_wf(mid, event_of(mid.screen, keys.last()), draws.last());
        }
    }
}

/// A run that has reached a request to leave stays where it is, whatever
/// key presses follow.
pub proof fn lemma_exit_ends_run(
    before: Game,
    keys: Seq<KeyPress>,
    draws: Seq<Seq<char>>,
    upto: int,
)
    requires
        0 <= upto <= keys.len(),
        draws.len() == keys.len(),
        run_with(before, keys.take(upto), draws.take(upto)).exit,
    ensures
        run_with(before, keys, draws) == run_with(before, keys.take(upto), draws.take(upto)),
    decreases keys.len() - upto,
{
    if upto == keys.len() {
        assert(keys.take(upto) =~= keys);
        assert(draws.take(upto) =~= draws);
    } else {
        assert(keys.take(upto + 1).drop_last() =~= keys.take(upto));
        assert(draws.take(upto + 1).drop_last() =~= draws.take(upto));
        lemma_exit_ends_run(before, keys, draws, upto + 1);
    }
}

/// Submitting the secret wins the round: the feedback is `Correct` at every
/// position, and the screen turns to `GameEnd(true)`.
pub proof fn lemma_secret_wins(g: Game, drawn: Seq<char>)
    requires
        game_wf(g),
        g.screen == ScreenStates::Playing,
        g.input == g.secret,
    ensures
        all_correct(match_result(g.secret, g.input)),
        step(g, Event::Submit, drawn).screen == ScreenStates::GameEnd(true),
{
    lemma_pool_word_len(g, g.secret);
    lemma_all_correct_iff_same(g.secret, g.input);
}

/// Typing a word into an empty guess, while the round is on, leaves the
/// word as the guess.
pub proof fn lemma_typed(g: Game, word: Seq<char>)
    requires
        g.screen == ScreenStates::Playing,
        g.input.len() == 0,
        0 < word.len() <= WORD_LEN,
        is_typable(word),
    ensures
        typed(g, word) == with_input(g, word),
    decreases word.len(),
{
    let front = word.drop_last();
    assert(is_lower(word[word.len() - 1]));
    if front.len() == 0 {
        assert(typed(g, front) == g);
        assert(g.input.push(word.last()) =~= word);
    } else {
        assert forall|i: int| 0 <= i < front.len() implies is_lower(#[trigger] front[i]) by {
            assert(front[i] == word[i]);
        }
        lemma_typed(g, front);
        assert(front.push(word.last()) =~= word);
    }
}

/// Guesses that miss are recorded in order, as long as the round allows:
/// after them the round is lost if they have used up the attempts, and
/// still on if not.
pub proof fn lemma_misses(g: Game, words: Seq<Seq<char>>)
    requires
        game_wf(g),
        g.screen == ScreenStates::Playing,
        g.input.len() == 0,
        g.attempts.len() + words.len() <= MAX_ATTEMPTS,
        forall|i: int|
            0 <= i < words.len() ==> is_valid(g.pool, #[trigger] words[i]) && is_typable(words[i])
                && words[i] != g.secret,
    ensures
        guessed_all(g, words) == (Game {
            attempts: g.attempts + words,
            screen: if g.attempts.len() + words.len() == MAX_ATTEMPTS {
                ScreenStates::GameEnd(false)
            } else {
                ScreenStates::Playing
            },
            ..g
        }),
    decreases words.len(),
{
    if words.len() == 0 {
        assert(g.attempts + words =~= g.attempts);
    } else {
        let front = words.drop_last();
        let word = words.last();
        assert forall|i: int| 0 <= i < front.len() implies is_valid(g.pool, #[trigger] front[i])
            && is_typable(front[i]) && front[i] != g.secret by {
            assert(front[i] == words[i]);
        }
        lemma_misses(g, front);
        let mid = guessed_all(g, front);
        assert(g.input =~= Seq::empty());
        assert(words[words.len() - 1] != g.secret);
        assert(is_valid(g.pool, words[words.len() - 1]));
        lemma_typed(mid, word);
        lemma_pool_word_len(g, g.secret);
        lemma_all_correct_iff_same(g.secret, word);
        assert((g.attempts + front).push(word) =~= g.attempts + words);
    }
}

/// Six guesses in a row that miss lose the round, with all six recorded.
pub proof fn lemma_six_misses_lose(
    pool: Seq<Seq<char>>,
    secret: Seq<char>,
    debug_mode: bool,
    words: Seq<Seq<char>>,
)
    requires
        game_wf(fresh(pool, secret, debug_mode)),
        words.len() == MAX_ATTEMPTS,
        forall|i: int|
            0 <= i < words.len() ==> is_valid(pool, #[trigger] words[i]) && is_typable(words[i])
                && words[i] != secret,
    ensures
        guessed_all(fresh(pool, secret, debug_mode), words).screen == ScreenStates::GameEnd(false),
        guessed_all(fresh(pool, secret, debug_mode), words).attempts == words,
        guessed_all(fresh(pool, secret, debug_mode), words).attempts.len() == MAX_ATTEMPTS,
{
    let g = fresh(pool, secret, debug_mode);
    lemma_misses(g, words);
    assert(g.attempts + words =~= words);
}

/// To play again, once the round is over, starts from the state that a new
/// game starts from, but for the secret, which is the word drawn.
pub proof fn lemma_confirm_starts_fresh(g: Game, drawn: Seq<char>)
    requires
        g.screen is GameEnd,
        !g.exit,
    ensures
        step(g, Event::Confirm, drawn) == fresh(g.pool, drawn, g.debug_mode),
{
}

/// To quit, on any screen, and to decline another round, once the round is
/// over, ask to leave and change nothing else.
pub proof fn lemma_leaving_changes_nothing_else(g: Game, drawn: Seq<char>)
    ensures
        step(g, Event::Quit, drawn) == (Game { exit: true, ..g }),
        g.screen is GameEnd ==> step(g, Event::Decline, drawn) == (Game { exit: true, ..g }),
{
}

/// Once the player has asked to leave, no key press changes the state.
pub proof fn lemma_nothing_after_exit(before: Game, keys: Seq<KeyPress>, draws: Seq<Seq<char>>)
    requires
        before.exit,
    ensures
        run_with(before, keys, draws) == before,
    decreases keys.len(),
{
    if keys.len() > 0 {
        lemma_nothing_after_exit(before, keys.drop_last(), draws.drop_last());
    }
}

/// An event that the game does not react to changes nothing, on any screen.
pub proof fn lemma_other_is_ignored(g: Game, drawn: Seq<char>)
    ensures
        step(g, Event::Other, drawn) == g,
{
}

} // verus!
