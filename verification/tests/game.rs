use termdle::app::{is_all_correct, App, ScreenStates, MAX_ATTEMPTS};
use termdle::keys::{classify, Event, KeyCode, KeyPress};
use termdle::words::{LetterMatch, Words};

const SOURCE: &str = "tests\nabout\nother\nwhich\nthere\nwords\nwrite\nfirst\n";

fn game(secret: usize) -> App {
    let mut words = Words::load(SOURCE).unwrap();
    words.choose_word_at(secret);
    App::with_words(words, false)
}

fn key(code: KeyCode) -> KeyPress {
    KeyPress { code, ctrl: false }
}

fn letter(c: char) -> KeyPress {
    key(KeyCode::Char(c))
}

fn type_word(app: &mut App, word: &str) {
    for c in word.chars() {
        app.handle_key(letter(c));
    }
}

fn guess(app: &mut App, word: &str) {
    type_word(app, word);
    app.handle_key(key(KeyCode::Enter));
}

fn lose(app: &mut App) {
    for word in ["about", "other", "which", "there", "words", "write"] {
        guess(app, word);
    }
}

fn same_but_for_exit(a: &App, b: &App) -> bool {
    a.screen_state == b.screen_state
        && a.input == b.input
        && a.current_input_valid == b.current_input_valid
        && a.attempts.len() == b.attempts.len()
        && a.attempts.iter().zip(b.attempts.iter()).all(|(x, y)| {
            x.letters == y.letters && x.matches == y.matches
        })
        && a.words.chosen_word == b.words.chosen_word
        && a.debug_mode == b.debug_mode
}

fn copy_of(app: &App) -> App {
    let mut words = Words::load(SOURCE).unwrap();
    words.chosen_word = app.words.chosen_word.clone();
    let mut copy = App::with_words(words, app.debug_mode);
    copy.screen_state = app.screen_state;
    copy.input = app.input.clone();
    copy.current_input_valid = app.current_input_valid;
    copy.attempts = app.attempts.clone();
    copy
}

#[test]
fn a_new_game_starts_a_round() {
    for debug_mode in [false, true] {
        let app = App::new(debug_mode);
        assert_eq!(app.screen_state, ScreenStates::Playing);
        assert_eq!(app.input, "");
        assert!(!app.current_input_valid);
        assert!(app.attempts.is_empty());
        assert_eq!(app.debug_mode, debug_mode);
        assert!(!app.should_exit());
        let secret = app.words.chosen_word.clone().unwrap();
        assert!(app.words.is_word_valid(&secret));
    }
}

#[test]
fn a_game_on_given_words_starts_a_round() {
    let app = game(3);
    assert_eq!(app.screen_state, ScreenStates::Playing);
    assert_eq!(app.input, "");
    assert!(!app.current_input_valid);
    assert!(app.attempts.is_empty());
    assert!(!app.debug_mode);
    assert!(!app.should_exit());
    assert_eq!(app.words.chosen_word, Some("which".to_string()));
}

#[test]
fn keys_are_read_by_screen() {
    let playing = ScreenStates::Playing;
    assert_eq!(classify(playing, letter('a')), Event::Letter('a'));
    assert_eq!(classify(playing, letter('z')), Event::Letter('z'));
    assert_eq!(classify(playing, letter('y')), Event::Letter('y'));
    assert_eq!(classify(playing, letter('n')), Event::Letter('n'));
    assert_eq!(classify(playing, letter('c')), Event::Letter('c'));
    assert_eq!(classify(playing, letter('A')), Event::Other);
    assert_eq!(classify(playing, letter('Y')), Event::Other);
    assert_eq!(classify(playing, letter('1')), Event::Other);
    assert_eq!(classify(playing, letter(' ')), Event::Other);
    assert_eq!(classify(playing, letter('`')), Event::Other);
    assert_eq!(classify(playing, letter('{')), Event::Other);
    assert_eq!(classify(playing, letter('\u{e9}')), Event::Other);
    assert_eq!(classify(playing, key(KeyCode::Backspace)), Event::Backspace);
    assert_eq!(classify(playing, key(KeyCode::Enter)), Event::Submit);
    assert_eq!(classify(playing, key(KeyCode::Other)), Event::Other);
    assert_eq!(classify(playing, key(KeyCode::Esc)), Event::Quit);
    for won in [false, true] {
        let over = ScreenStates::GameEnd(won);
        assert_eq!(classify(over, letter('y')), Event::Confirm);
        assert_eq!(classify(over, letter('Y')), Event::Confirm);
        assert_eq!(classify(over, letter('n')), Event::Decline);
        assert_eq!(classify(over, letter('N')), Event::Decline);
        assert_eq!(classify(over, letter('a')), Event::Other);
        assert_eq!(classify(over, letter('c')), Event::Other);
        assert_eq!(classify(over, key(KeyCode::Backspace)), Event::Other);
        assert_eq!(classify(over, key(KeyCode::Enter)), Event::Other);
        assert_eq!(classify(over, key(KeyCode::Other)), Event::Other);
        assert_eq!(classify(over, key(KeyCode::Esc)), Event::Quit);
    }
}

#[test]
fn control_c_quits_on_every_screen() {
    let control_c = KeyPress { code: KeyCode::Char('c'), ctrl: true };
    assert_eq!(classify(ScreenStates::Playing, control_c), Event::Quit);
    assert_eq!(classify(ScreenStates::GameEnd(true), control_c), Event::Quit);
    assert_eq!(classify(ScreenStates::GameEnd(false), control_c), Event::Quit);
    let control_esc = KeyPress { code: KeyCode::Esc, ctrl: true };
    assert_eq!(classify(ScreenStates::Playing, control_esc), Event::Quit);
    let control_a = KeyPress { code: KeyCode::Char('a'), ctrl: true };
    assert_eq!(classify(ScreenStates::Playing, control_a), Event::Letter('a'));
    let control_upper_c = KeyPress { code: KeyCode::Char('C'), ctrl: true };
    assert_eq!(classify(ScreenStates::Playing, control_upper_c), Event::Other);
    let control_y = KeyPress { code: KeyCode::Char('y'), ctrl: true };
    assert_eq!(classify(ScreenStates::GameEnd(true), control_y), Event::Confirm);
}

#[test]
fn letters_fill_the_guess() {
    let mut app = game(0);
    app.handle_key(letter('a'));
    assert_eq!(app.input, "a");
    assert!(!app.current_input_valid);
    type_word(&mut app, "bou");
    assert_eq!(app.input, "abou");
    assert!(!app.current_input_valid);
    app.handle_key(letter('t'));
    assert_eq!(app.input, "about");
    assert!(app.current_input_valid);
    assert_eq!(app.screen_state, ScreenStates::Playing);
    assert!(app.attempts.is_empty());
}

#[test]
fn the_guess_never_grows_beyond_five_letters() {
    let mut app = game(0);
    for _ in 0..40 {
        app.handle_key(letter('q'));
        assert!(app.input.chars().count() <= 5);
    }
    assert_eq!(app.input, "qqqqq");
    assert!(!app.current_input_valid);
    let mut app = game(0);
    type_word(&mut app, "aboutabout");
    assert_eq!(app.input, "about");
    assert!(app.current_input_valid);
}

#[test]
fn backspace_takes_the_last_letter_back() {
    let mut app = game(0);
    app.handle_key(key(KeyCode::Backspace));
    assert_eq!(app.input, "");
    assert!(!app.current_input_valid);
    type_word(&mut app, "about");
    assert!(app.current_input_valid);
    app.handle_key(key(KeyCode::Backspace));
    assert_eq!(app.input, "abou");
    assert!(!app.current_input_valid);
    app.handle_key(letter('t'));
    assert!(app.current_input_valid);
    for _ in 0..9 {
        app.handle_key(key(KeyCode::Backspace));
    }
    assert_eq!(app.input, "");
    assert!(!app.current_input_valid);
}

#[test]
fn keys_that_type_no_lowercase_letter_are_ignored_while_playing() {
    let mut app = game(0);
    type_word(&mut app, "ab");
    for c in ['A', 'Z', '0', ' ', '-', '\u{e9}', '\n'] {
        app.handle_key(letter(c));
    }
    app.handle_key(key(KeyCode::Other));
    assert_eq!(app.input, "ab");
    assert_eq!(app.screen_state, ScreenStates::Playing);
    assert!(!app.should_exit());
}

#[test]
fn a_guess_that_is_no_word_is_not_submitted() {
    let mut app = game(0);
    app.handle_key(key(KeyCode::Enter));
    assert!(app.attempts.is_empty());
    guess(&mut app, "abou");
    assert!(app.attempts.is_empty());
    assert_eq!(app.input, "abou");
    app.handle_key(letter('x'));
    app.handle_key(key(KeyCode::Enter));
    assert!(app.attempts.is_empty());
    assert_eq!(app.input, "aboux");
    assert!(!app.current_input_valid);
    assert_eq!(app.screen_state, ScreenStates::Playing);
}

#[test]
fn a_miss_is_recorded_with_its_feedback() {
    let mut app = game(0);
    guess(&mut app, "there");
    assert_eq!(app.attempts.len(), 1);
    assert_eq!(app.attempts[0].letters, "there");
    assert_eq!(
        app.attempts[0].matches,
        [
            LetterMatch::Correct,
            LetterMatch::Incorrect,
            LetterMatch::Partial,
            LetterMatch::Incorrect,
            LetterMatch::Incorrect,
        ]
    );
    assert_eq!(app.input, "");
    assert!(!app.current_input_valid);
    assert_eq!(app.screen_state, ScreenStates::Playing);
    guess(&mut app, "first");
    assert_eq!(app.attempts.len(), 2);
    assert_eq!(app.attempts[0].letters, "there");
    assert_eq!(app.attempts[1].letters, "first");
    assert_eq!(
        app.attempts[1].matches,
        [
            LetterMatch::Incorrect,
            LetterMatch::Incorrect,
            LetterMatch::Incorrect,
            LetterMatch::Partial,
            LetterMatch::Partial,
        ]
    );
}

#[test]
fn the_secret_wins_the_round() {
    let mut app = game(0);
    guess(&mut app, "tests");
    assert_eq!(app.screen_state, ScreenStates::GameEnd(true));
    assert!(app.attempts.is_empty());
    assert_eq!(app.input, "tests");
    assert!(app.current_input_valid);
    assert!(!app.should_exit());
}

#[test]
fn the_secret_wins_at_the_last_attempt() {
    let mut app = game(0);
    for word in ["about", "other", "which", "there", "words"] {
        guess(&mut app, word);
        assert_eq!(app.screen_state, ScreenStates::Playing);
    }
    guess(&mut app, "tests");
    assert_eq!(app.screen_state, ScreenStates::GameEnd(true));
    assert_eq!(app.attempts.len(), 5);
}

#[test]
fn six_misses_lose_the_round() {
    let mut app = game(0);
    let misses = ["about", "other", "which", "there", "words", "write"];
    for (done, word) in misses.iter().enumerate() {
        assert_eq!(app.screen_state, ScreenStates::Playing);
        assert_eq!(app.attempts.len(), done);
        guess(&mut app, word);
    }
    assert_eq!(app.screen_state, ScreenStates::GameEnd(false));
    assert_eq!(app.attempts.len(), 6);
    assert_eq!(app.attempts.len(), MAX_ATTEMPTS);
    for (attempt, word) in app.attempts.iter().zip(misses.iter()) {
        assert_eq!(attempt.letters, *word);
        assert!(!is_all_correct(&attempt.matches));
    }
    assert_eq!(app.input, "");
    assert!(!app.current_input_valid);
}

#[test]
fn the_same_miss_counts_each_time() {
    let mut app = game(0);
    for _ in 0..6 {
        guess(&mut app, "about");
    }
    assert_eq!(app.screen_state, ScreenStates::GameEnd(false));
    assert_eq!(app.attempts.len(), 6);
}

#[test]
fn nothing_is_typed_or_submitted_once_the_round_is_over() {
    let mut app = game(0);
    lose(&mut app);
    guess(&mut app, "tests");
    app.handle_key(key(KeyCode::Backspace));
    assert_eq!(app.screen_state, ScreenStates::GameEnd(false));
    assert_eq!(app.attempts.len(), 6);
    assert_eq!(app.input, "");
    let mut app = game(0);
    guess(&mut app, "tests");
    guess(&mut app, "about");
    app.handle_key(key(KeyCode::Backspace));
    assert_eq!(app.screen_state, ScreenStates::GameEnd(true));
    assert!(app.attempts.is_empty());
    assert_eq!(app.input, "tests");
}

#[test]
fn to_play_again_starts_a_fresh_round() {
    for answer in ['y', 'Y'] {
        for won in [false, true] {
            let mut app = game(0);
            if won {
                guess(&mut app, "about");
                guess(&mut app, "tests");
            } else {
                lose(&mut app);
            }
            assert_eq!(app.screen_state, ScreenStates::GameEnd(won));
            app.handle_key(letter(answer));
            assert_eq!(app.screen_state, ScreenStates::Playing);
            assert!(app.attempts.is_empty());
            assert_eq!(app.input, "");
            assert!(!app.current_input_valid);
            assert!(!app.debug_mode);
            assert!(!app.should_exit());
            let secret = app.words.chosen_word.clone().unwrap();
            assert!(app.words.is_word_valid(&secret));
            let mut fresh = game(0);
            fresh.words.chosen_word = Some(secret);
            assert!(same_but_for_exit(&app, &fresh));
        }
    }
}

#[test]
fn a_round_can_be_played_after_another() {
    let mut app = game(0);
    lose(&mut app);
    app.handle_key(letter('y'));
    let secret = app.words.chosen_word.clone().unwrap();
    guess(&mut app, &secret);
    assert_eq!(app.screen_state, ScreenStates::GameEnd(true));
    app.handle_key(letter('y'));
    assert_eq!(app.screen_state, ScreenStates::Playing);
    let secret = app.words.chosen_word.clone().unwrap();
    let miss = if secret == "about" { "other" } else { "about" };
    guess(&mut app, miss);
    assert_eq!(app.attempts.len(), 1);
}

#[test]
fn to_decline_another_round_asks_to_leave_and_changes_nothing_else() {
    for answer in ['n', 'N'] {
        for won in [false, true] {
            let mut app = game(0);
            if won {
                guess(&mut app, "tests");
            } else {
                lose(&mut app);
            }
            let before = copy_of(&app);
            app.handle_key(letter(answer));
            assert!(app.should_exit());
            assert!(same_but_for_exit(&app, &before));
        }
    }
}

#[test]
fn to_quit_asks_to_leave_and_changes_nothing_else() {
    let quits = [
        key(KeyCode::Esc),
        KeyPress { code: KeyCode::Char('c'), ctrl: true },
    ];
    for quit in quits {
        let mut app = game(0);
        guess(&mut app, "about");
        type_word(&mut app, "oth");
        let before = copy_of(&app);
        app.handle_key(quit);
        assert!(app.should_exit());
        assert!(same_but_for_exit(&app, &before));

        let mut app = game(0);
        lose(&mut app);
        let before = copy_of(&app);
        app.handle_key(quit);
        assert!(app.should_exit());
        assert!(same_but_for_exit(&app, &before));

        let mut app = game(0);
        guess(&mut app, "tests");
        let before = copy_of(&app);
        app.handle_key(quit);
        assert!(app.should_exit());
        assert!(same_but_for_exit(&app, &before));
    }
}

#[test]
fn keys_without_meaning_change_nothing() {
    let mut app = game(0);
    guess(&mut app, "about");
    type_word(&mut app, "other");
    let before = copy_of(&app);
    for _ in 0..3 {
        app.handle_key(key(KeyCode::Other));
        app.handle_key(letter('X'));
        app.handle_key(letter('5'));
    }
    assert!(same_but_for_exit(&app, &before));
    assert!(!app.should_exit());

    for won in [false, true] {
        let mut app = game(0);
        if won {
            guess(&mut app, "tests");
        } else {
            lose(&mut app);
        }
        let before = copy_of(&app);
        for press in [
            key(KeyCode::Other),
            letter('a'),
            letter('x'),
            key(KeyCode::Enter),
            key(KeyCode::Backspace),
        ] {
            app.handle_key(press);
        }
        assert!(same_but_for_exit(&app, &before));
        assert!(!app.should_exit());
    }
}

#[test]
fn events_are_applied_by_screen() {
    let mut app = game(0);
    app.handle_playing(Event::Letter('a'));
    app.handle_playing(Event::Letter('B'));
    app.handle_playing(Event::Confirm);
    app.handle_playing(Event::Decline);
    app.handle_playing(Event::Other);
    assert_eq!(app.input, "a");
    app.handle_playing(Event::Backspace);
    assert_eq!(app.input, "");
    for c in "tests".chars() {
        app.handle_playing(Event::Letter(c));
    }
    app.handle_playing(Event::Submit);
    assert_eq!(app.screen_state, ScreenStates::GameEnd(true));
    app.handle_gameend_screen(Event::Letter('y'));
    app.handle_gameend_screen(Event::Submit);
    app.handle_gameend_screen(Event::Backspace);
    app.handle_gameend_screen(Event::Other);
    assert_eq!(app.screen_state, ScreenStates::GameEnd(true));
    assert_eq!(app.input, "tests");
    app.handle_gameend_screen(Event::Confirm);
    assert_eq!(app.screen_state, ScreenStates::Playing);
    assert_eq!(app.input, "");
    assert!(!app.should_exit());
    let secret = app.words.chosen_word.clone().unwrap();
    for c in secret.chars() {
        app.handle_playing(Event::Letter(c));
    }
    app.handle_playing(Event::Submit);
    app.handle_gameend_screen(Event::Decline);
    assert!(app.should_exit());
}

#[test]
fn a_run_applies_key_presses_in_order() {
    let mut app = game(0);
    let mut keys: Vec<KeyPress> = Vec::new();
    for word in ["about", "other"] {
        keys.extend(word.chars().map(letter));
        keys.push(key(KeyCode::Enter));
    }
    keys.extend("whi".chars().map(letter));
    app.run(&keys);
    assert_eq!(app.attempts.len(), 2);
    assert_eq!(app.attempts[0].letters, "about");
    assert_eq!(app.attempts[1].letters, "other");
    assert_eq!(app.input, "whi");
    assert!(!app.should_exit());
    app.run(&Vec::new());
    assert_eq!(app.input, "whi");
    assert_eq!(app.attempts.len(), 2);
}

#[test]
fn a_run_stops_when_the_player_asks_to_leave() {
    let mut app = game(0);
    let mut keys: Vec<KeyPress> = "ab".chars().map(letter).collect();
    keys.push(key(KeyCode::Esc));
    keys.extend("out".chars().map(letter));
    keys.push(key(KeyCode::Enter));
    app.run(&keys);
    assert!(app.should_exit());
    assert_eq!(app.input, "ab");
    assert!(app.attempts.is_empty());
    app.run(&keys);
    assert!(app.should_exit());
    assert_eq!(app.input, "ab");
    assert!(app.attempts.is_empty());
}

#[test]
fn a_run_through_a_lost_round_and_into_the_next() {
    let mut app = game(0);
    let mut keys: Vec<KeyPress> = Vec::new();
    for word in ["about", "other", "which", "there", "words", "write"] {
        keys.extend(word.chars().map(letter));
        keys.push(key(KeyCode::Enter));
    }
    keys.push(letter('y'));
    keys.extend("fir".chars().map(letter));
    app.run(&keys);
    assert_eq!(app.screen_state, ScreenStates::Playing);
    assert!(app.attempts.is_empty());
    assert_eq!(app.input, "fir");
    assert!(!app.should_exit());
}

#[test]
fn all_correct_is_told_from_the_rest() {
    assert!(is_all_correct(&[LetterMatch::Correct; 5]));
    assert!(!is_all_correct(&[LetterMatch::Partial; 5]));
    assert!(!is_all_correct(&[LetterMatch::Incorrect; 5]));
    for at in 0..5 {
        let mut matches = [LetterMatch::Correct; 5];
        matches[at] = LetterMatch::Partial;
        assert!(!is_all_correct(&matches));
        matches[at] = LetterMatch::Incorrect;
        assert!(!is_all_correct(&matches));
    }
}
