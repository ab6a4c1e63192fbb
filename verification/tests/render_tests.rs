use hangman::game::{new_game, GuessOutcome};
use hangman::render::{hangman_drawing, render_hangman};

const DRAWING: [&str; 6] = [
    "+---------+",
    "|   |    ,|",
    "| , (),",
    "|  \\|/",
    "|   ^",
    "|  | |     ",
];

#[test]
fn drawing_has_the_six_lines() {
    let lines = hangman_drawing();
    assert_eq!(lines.len(), 6);
    for (line, expected) in lines.iter().zip(DRAWING.iter()) {
        assert_eq!(line, expected);
    }
}

#[test]
fn partial_gallows_builds_bottom_up() {
    assert_eq!(render_hangman(0).len(), 0);

    let one = render_hangman(1);
    assert_eq!(one, vec!["|  | |     ".to_string()]);

    let three = render_hangman(3);
    assert_eq!(
        three,
        vec!["|  | |     ".to_string(), "|   ^".to_string(), "|  \\|/".to_string()]
    );
}

#[test]
fn full_gallows_is_drawn_top_down() {
    let full = render_hangman(5);
    assert_eq!(full.len(), 6);
    for (line, expected) in full.iter().zip(DRAWING.iter()) {
        assert_eq!(line, expected);
    }
}

#[test]
fn status_shows_phrase_letters_and_count() {
    let mut g = new_game(String::from("cat"));
    assert_eq!(g.sort_guess(String::from("x")), GuessOutcome::Miss);
    let lines = g.render_game_status();
    assert_eq!(
        lines,
        vec![
            "Phrase: ---".to_string(),
            "Used letters: x".to_string(),
            "Failed attempts: 1".to_string(),
            "|  | |     ".to_string(),
        ]
    );
}

#[test]
fn status_hides_gallows_when_not_injured() {
    let mut g = new_game(String::from("cat"));
    g.sort_guess(String::from("c"));
    let lines = g.render_game_status();
    assert_eq!(
        lines,
        vec![
            "Phrase: c--".to_string(),
            "Used letters: c".to_string(),
            "Failed attempts: 0".to_string(),
        ]
    );
}

#[test]
fn rendering_is_pure() {
    let mut g = new_game(String::from("cat"));
    g.sort_guess(String::from("x"));
    g.sort_guess(String::from("a"));
    let first = g.render_game_status();
    let second = g.render_game_status();
    assert_eq!(first, second);
    assert_eq!(render_hangman(2), render_hangman(2));
}
