use hangman::game::{new_game, GameStatus, GuessOutcome};

#[test]
fn winning_game_in_order() {
    // secret "cat", guesses "c", "a", "t": the phrase builds up and the game is won.
    let mut g = new_game(String::from("cat"));
    assert_eq!(g.get_user_answer(), "---");

    assert_eq!(g.sort_guess(String::from("c")), GuessOutcome::Hit);
    assert_eq!(g.get_user_answer(), "c--");
    assert_eq!(g.get_failed_attempts(), 0);
    assert_eq!(g.finish_turn(), GameStatus::Playing);

    assert_eq!(g.sort_guess(String::from("a")), GuessOutcome::Hit);
    assert_eq!(g.get_user_answer(), "ca-");
    assert_eq!(g.get_failed_attempts(), 0);
    assert_eq!(g.finish_turn(), GameStatus::Playing);

    assert_eq!(g.sort_guess(String::from("t")), GuessOutcome::Hit);
    assert_eq!(g.get_user_answer(), "cat");
    assert_eq!(g.get_failed_attempts(), 0);
    assert_eq!(g.finish_turn(), GameStatus::Won);
}

#[test]
fn losing_game_after_five_misses() {
    // secret "cat", five wrong guesses: the count climbs 1..5 and the game is lost.
    let mut g = new_game(String::from("cat"));
    let misses = ["x", "y", "z", "q", "w"];
    for (k, m) in misses.iter().enumerate() {
        assert_eq!(g.sort_guess(m.to_string()), GuessOutcome::Miss);
        assert_eq!(g.get_failed_attempts(), (k + 1) as i32);
        let expected = if k + 1 < 5 { GameStatus::Playing } else { GameStatus::Lost };
        assert_eq!(g.finish_turn(), expected);
    }
    assert_eq!(g.get_user_answer(), "---");
    assert_eq!(g.count_missing(), 3);
    assert_eq!(hangman::text::get_unique_characters(g.get_user_answer()), 1);
}

#[test]
fn uppercase_guess_is_normalized() {
    let mut g = new_game(String::from("cat"));
    assert_eq!(g.sort_guess(String::from("C")), GuessOutcome::Hit);
    assert_eq!(g.get_user_answer(), "c--");
    assert_eq!(g.get_failed_attempts(), 0);
}

#[test]
fn non_letter_guess_is_rejected() {
    let mut g = new_game(String::from("cat"));
    assert_eq!(g.sort_guess(String::from("5")), GuessOutcome::Invalid);
    assert_eq!(g.sort_guess(String::from("!")), GuessOutcome::Invalid);
    assert_eq!(g.get_failed_attempts(), 0);
    assert_eq!(g.get_used_letters(), "");
    assert_eq!(g.get_user_answer(), "---");
}

#[test]
fn non_ascii_guess_is_rejected() {
    let mut g = new_game(String::from("cat"));
    assert_eq!(g.sort_guess(String::from("é")), GuessOutcome::Invalid);
    assert_eq!(g.get_failed_attempts(), 0);
    assert_eq!(g.get_used_letters(), "");
}

#[test]
fn multi_letter_guess_is_rejected() {
    // A guess is one letter: a longer token is rejected outright and changes nothing.
    let mut g = new_game(String::from("cat"));
    assert_eq!(g.sort_guess(String::from("ca")), GuessOutcome::Invalid);
    assert_eq!(g.sort_guess(String::from("")), GuessOutcome::Invalid);
    assert_eq!(g.get_failed_attempts(), 0);
    assert_eq!(g.get_used_letters(), "");
}

#[test]
fn repeated_guess_changes_nothing() {
    let mut g = new_game(String::from("cat"));
    assert_eq!(g.sort_guess(String::from("c")), GuessOutcome::Hit);
    assert_eq!(g.sort_guess(String::from("x")), GuessOutcome::Miss);
    let fails = g.get_failed_attempts();
    let used = g.get_used_letters();

    assert_eq!(g.sort_guess(String::from("c")), GuessOutcome::Repeat);
    assert_eq!(g.get_failed_attempts(), fails);
    assert_eq!(g.get_used_letters(), used);

    assert_eq!(g.sort_guess(String::from("X")), GuessOutcome::Repeat);
    assert_eq!(g.get_failed_attempts(), fails);
    assert_eq!(g.get_used_letters(), used);
}

#[test]
fn hit_reveals_every_matching_position() {
    let mut g = new_game(String::from("banana"));
    assert_eq!(g.sort_guess(String::from("a")), GuessOutcome::Hit);
    assert_eq!(g.get_user_answer(), "-a-a-a");
    assert_eq!(g.sort_guess(String::from("n")), GuessOutcome::Hit);
    assert_eq!(g.get_user_answer(), "-anana");
    assert_eq!(g.get_failed_attempts(), 0);
}

#[test]
fn revealed_length_tracks_secret() {
    let mut g = new_game(String::from("lantern"));
    assert_eq!(g.get_user_answer().chars().count(), 7);
    for guess in ["a", "x", "8", "n", "zz", "e"] {
        g.sort_guess(guess.to_string());
        assert_eq!(g.get_user_answer().chars().count(), 7);
        assert_eq!(g.get_answer(), "lantern");
    }
}

#[test]
fn win_checked_before_loss() {
    // Four misses, then the completing hit: the game is won, not lost.
    let mut g = new_game(String::from("a"));
    for m in ["x", "y", "z", "q"] {
        assert_eq!(g.sort_guess(m.to_string()), GuessOutcome::Miss);
        assert_eq!(g.finish_turn(), GameStatus::Playing);
    }
    assert_eq!(g.get_failed_attempts(), 4);
    assert_eq!(g.sort_guess(String::from("a")), GuessOutcome::Hit);
    assert_eq!(g.finish_turn(), GameStatus::Won);
}

#[test]
fn used_letters_are_sorted_for_display() {
    let mut g = new_game(String::from("dab"));
    for m in ["d", "x", "a", "c", "b"] {
        g.sort_guess(m.to_string());
    }
    assert_eq!(g.get_used_letters(), "abcdx");
}

#[test]
fn injured_only_after_a_miss() {
    let mut g = new_game(String::from("cat"));
    assert!(!g.was_injured());
    g.sort_guess(String::from("x"));
    assert!(g.was_injured());
    g.sort_guess(String::from("c"));
    assert!(!g.was_injured());
    g.sort_guess(String::from("!"));
    assert!(!g.was_injured());
}

#[test]
fn empty_secret_is_won_at_once() {
    let mut g = new_game(String::from(""));
    assert_eq!(g.get_user_answer(), "");
    assert_eq!(g.finish_turn(), GameStatus::Won);
}

#[test]
fn unique_characters_counts_distinct() {
    assert_eq!(hangman::text::get_unique_characters(String::from("banana")), 3);
    assert_eq!(hangman::text::get_unique_characters(String::from("---")), 1);
    assert_eq!(hangman::text::get_unique_characters(String::from("")), 0);
    assert_eq!(hangman::text::get_unique_characters(String::from("c-t")), 3);
}

#[test]
fn count_missing_counts_placeholders() {
    let mut g = new_game(String::from("cat"));
    assert_eq!(g.count_missing(), 3);
    g.sort_guess(String::from("a"));
    assert_eq!(g.count_missing(), 2);
    g.sort_guess(String::from("c"));
    g.sort_guess(String::from("t"));
    assert_eq!(g.count_missing(), 0);
}
