use termdle::feedback::match_letters;
use termdle::words::{LetterMatch, LoadError, Words};

fn pool_of(source: &str, secret: usize) -> Words {
    let mut words = Words::load(source).unwrap();
    words.choose_word_at(secret);
    words
}

#[test]
fn valid_words() {
    let words = Words::new();
    assert_eq!(words.is_word_valid("tests"), true);
    assert_eq!(words.is_word_valid("test"), false);
    assert_eq!(words.is_word_valid("testing"), false);
    assert_eq!(words.is_word_valid(""), false);
}

#[test]
fn check_words() {
    let mut words = Words::new();
    words.chosen_word = Some("tests".to_string());

    let expected = [LetterMatch::Correct; 5];
    assert_eq!(words.check_word("tests"), expected);

    let expected = [LetterMatch::Incorrect; 5];
    assert_eq!(words.check_word("abcdf"), expected);

    let expected = [
        LetterMatch::Correct,
        LetterMatch::Partial,
        LetterMatch::Correct,
        LetterMatch::Incorrect,
        LetterMatch::Correct,
    ];
    assert_eq!(words.check_word("ttscs"), expected);
}

#[test]
fn builtin_pool_starts_with_the_first_word() {
    let mut words = Words::new();
    assert!(words.pool_size() > 2000);
    assert_eq!(words.choose_word_at(0), "about");
    assert!(words.is_word_valid("about"));
    assert!(words.is_word_valid("which"));
    assert!(words.is_word_valid("zonal"));
    assert!(words.chosen_word.is_some());
}

#[test]
fn builtin_pool_has_no_secret_at_first() {
    let words = Words::new();
    assert_eq!(words.chosen_word, None);
}

#[test]
fn validity_is_case_sensitive_and_exact() {
    let words = Words::new();
    assert!(!words.is_word_valid("TESTS"));
    assert!(!words.is_word_valid("Tests"));
    assert!(!words.is_word_valid("zzzzz"));
    assert!(!words.is_word_valid("test "));
    assert!(!words.is_word_valid(" test"));
}

#[test]
fn validity_counts_characters() {
    let words = Words::load("na\u{ef}ve\nabcde\n").unwrap();
    assert_eq!(words.pool_size(), 2);
    assert!(words.is_word_valid("na\u{ef}ve"));
    assert!(!words.is_word_valid("naive"));
    assert!(words.is_word_valid("abcde"));
}

#[test]
fn load_keeps_lines_of_five_characters_in_order() {
    let mut words = Words::load("one\nthree\n\nsevens\nseven\neight").unwrap();
    assert_eq!(words.pool_size(), 3);
    assert_eq!(words.choose_word_at(0), "three");
    assert_eq!(words.choose_word_at(1), "seven");
    assert_eq!(words.choose_word_at(2), "eight");
    assert!(!words.is_word_valid("one"));
    assert!(!words.is_word_valid("sevens"));
}

#[test]
fn load_keeps_repeated_lines() {
    let words = Words::load("seven\nseven\n").unwrap();
    assert_eq!(words.pool_size(), 2);
}

#[test]
fn load_reads_lines_that_end_in_carriage_return_and_line_feed() {
    let mut words = Words::load("three\r\nfour\r\nseven\r\n").unwrap();
    assert_eq!(words.pool_size(), 2);
    assert_eq!(words.choose_word_at(0), "three");
    assert_eq!(words.choose_word_at(1), "seven");
}

#[test]
fn load_keeps_a_carriage_return_that_no_line_feed_follows() {
    let mut words = Words::load("four\r").unwrap();
    assert_eq!(words.pool_size(), 1);
    assert_eq!(words.choose_word_at(0), "four\r");
    assert!(Words::load("three\r").is_err());
}

#[test]
fn load_strips_one_carriage_return_only() {
    let mut words = Words::load("four\r\r\n").unwrap();
    assert_eq!(words.choose_word_at(0), "four\r");
}

#[test]
fn load_does_not_trim_spaces() {
    assert!(Words::load("three \n four\n").is_ok());
    let mut words = Words::load("three \n four\n").unwrap();
    assert_eq!(words.pool_size(), 1);
    assert_eq!(words.choose_word_at(0), " four");
}

#[test]
fn load_keeps_the_case_of_the_source() {
    let words = Words::load("ROBOT\nOpera\n").unwrap();
    assert!(words.is_word_valid("ROBOT"));
    assert!(words.is_word_valid("Opera"));
    assert!(!words.is_word_valid("robot"));
    assert!(!words.is_word_valid("opera"));
}

#[test]
fn load_refuses_a_source_without_words() {
    assert_eq!(Words::load("").err(), Some(LoadError::EmptyPool));
    assert_eq!(Words::load("\n\n\n").err(), Some(LoadError::EmptyPool));
    assert_eq!(Words::load("four\nsevens\n").err(), Some(LoadError::EmptyPool));
}

#[test]
fn loaded_pool_has_no_secret_at_first() {
    let words = Words::load("three\n").unwrap();
    assert_eq!(words.chosen_word, None);
}

#[test]
fn choose_word_at_sets_the_secret() {
    let mut words = Words::load("three\nseven\neight\n").unwrap();
    let word = words.choose_word_at(1);
    assert_eq!(word, "seven");
    assert_eq!(words.chosen_word, Some("seven".to_string()));
    assert_eq!(words.pool_size(), 3);
}

#[test]
fn choose_word_draws_from_the_pool() {
    let mut words = Words::load("three\nseven\neight\n").unwrap();
    for _ in 0..200 {
        let word = words.choose_word();
        assert!(words.is_word_valid(&word));
        assert_eq!(words.chosen_word, Some(word));
        assert_eq!(words.pool_size(), 3);
    }
}

#[test]
fn choose_word_from_a_pool_of_one() {
    let mut words = Words::load("three\n").unwrap();
    for _ in 0..20 {
        assert_eq!(words.choose_word(), "three");
    }
}

#[test]
fn choose_word_reaches_every_word() {
    let mut words = Words::load("three\nseven\n").unwrap();
    let mut three = false;
    let mut seven = false;
    for _ in 0..500 {
        let word = words.choose_word();
        three = three || word == "three";
        seven = seven || word == "seven";
    }
    assert!(three && seven);
}

#[test]
fn choose_word_on_the_builtin_pool() {
    let mut words = Words::new();
    for _ in 0..50 {
        let word = words.choose_word();
        assert_eq!(word.chars().count(), 5);
        assert!(words.is_word_valid(&word));
    }
}

#[test]
fn repeated_letters_are_credited_by_count() {
    let words = pool_of("ROBOT\n", 0);
    assert_eq!(
        words.check_word("OPERA"),
        [
            LetterMatch::Partial,
            LetterMatch::Incorrect,
            LetterMatch::Incorrect,
            LetterMatch::Partial,
            LetterMatch::Incorrect,
        ]
    );
}

#[test]
fn a_letter_is_not_credited_more_often_than_the_secret_holds_it() {
    let words = pool_of("ROBOT\n", 0);
    assert_eq!(
        words.check_word("ERROR"),
        [
            LetterMatch::Incorrect,
            LetterMatch::Partial,
            LetterMatch::Incorrect,
            LetterMatch::Correct,
            LetterMatch::Incorrect,
        ]
    );
}

#[test]
fn a_letter_in_place_is_credited_before_a_misplaced_one() {
    let words = pool_of("abbey\n", 0);
    assert_eq!(
        words.check_word("bobby"),
        [
            LetterMatch::Partial,
            LetterMatch::Incorrect,
            LetterMatch::Correct,
            LetterMatch::Incorrect,
            LetterMatch::Correct,
        ]
    );
    let words = pool_of("speed\n", 0);
    assert_eq!(
        words.check_word("erase"),
        [
            LetterMatch::Partial,
            LetterMatch::Incorrect,
            LetterMatch::Incorrect,
            LetterMatch::Partial,
            LetterMatch::Partial,
        ]
    );
    assert_eq!(
        words.check_word("eeeee"),
        [
            LetterMatch::Incorrect,
            LetterMatch::Incorrect,
            LetterMatch::Correct,
            LetterMatch::Correct,
            LetterMatch::Incorrect,
        ]
    );
}

#[test]
fn the_secret_itself_is_all_correct() {
    let mut words = Words::new();
    for index in [0, 1, 17, 500, 2899] {
        let secret = words.choose_word_at(index);
        assert_eq!(words.check_word(&secret), [LetterMatch::Correct; 5]);
    }
}

#[test]
fn an_anagram_is_all_partial() {
    let words = pool_of("abcde\n", 0);
    assert_eq!(words.check_word("bcdea"), [LetterMatch::Partial; 5]);
}

#[test]
fn feedback_reads_characters_beyond_ascii() {
    let words = pool_of("\u{e9}t\u{e9}s!\n", 0);
    assert_eq!(
        words.check_word("t\u{e9}\u{e9}\u{e9}!"),
        [
            LetterMatch::Partial,
            LetterMatch::Partial,
            LetterMatch::Correct,
            LetterMatch::Incorrect,
            LetterMatch::Correct,
        ]
    );
}

#[test]
fn match_letters_on_words_of_other_lengths() {
    let secret: Vec<char> = "banana".chars().collect();
    let guess: Vec<char> = "ananas".chars().collect();
    assert_eq!(
        match_letters(&secret, &guess),
        vec![
            LetterMatch::Partial,
            LetterMatch::Partial,
            LetterMatch::Partial,
            LetterMatch::Partial,
            LetterMatch::Partial,
            LetterMatch::Incorrect,
        ]
    );
    assert_eq!(match_letters(&Vec::new(), &Vec::new()), Vec::new());
    assert_eq!(match_letters(&vec!['a'], &vec!['a']), vec![LetterMatch::Correct]);
    assert_eq!(match_letters(&vec!['a'], &vec!['b']), vec![LetterMatch::Incorrect]);
}
