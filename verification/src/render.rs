use vstd::prelude::*;
use vstd::string::StringExecFns;
use crate::game::{Hangman, MAX_FAILED_ATTEMPTS};
use crate::text::sorted_asc;

verus! {

/// The complete gallows drawing, top to bottom.
pub open spec fn gallows() -> Seq<Seq<char>> {
    seq![
        "+---------+"@,
        "|   |    ,|"@,
        "| , (),"@,
        "|  \\|/"@,
        "|   ^"@,
        "|  | |     "@,
    ]
}

/// The part of the gallows shown for a given number of failed attempts: below
/// the maximum, that many lines taken from the bottom of the drawing upward;
/// at the maximum, the whole drawing top to bottom.
pub open spec fn gallows_partial(bad: int) -> Seq<Seq<char>> {
    if bad < MAX_FAILED_ATTEMPTS {
        Seq::new(bad as nat, |i: int| gallows()[gallows().len() - 1 - i])
    } else {
        gallows()
    }
}

/// The one-character text of a failure count.
pub open spec fn digit_str(n: int) -> Seq<char> {
    if n == 0 {
        "0"@
    } else if n == 1 {
        "1"@
    } else if n == 2 {
        "2"@
    } else if n == 3 {
        "3"@
    } else if n == 4 {
        "4"@
    } else {
        "5"@
    }
}

/// The lines of the complete gallows drawing.
pub fn hangman_drawing() -> (r: Vec<String>)
    ensures
        r@.len() == gallows().len(),
        forall|i: int| #![auto] 0 <= i < r@.len() ==> r@[i]@ == gallows()[i],
{
    let mut r: Vec<String> = Vec::new();
    r.push(String::from_str("+---------+"));
    r.push(String::from_str("|   |    ,|"));
    r.push(String::from_str("| , (),"));
    r.push(String::from_str("|  \\|/"));
    r.push(String::from_str("|   ^"));
    r.push(String::from_str("|  | |     "));
    r
}

/// The gallows lines shown for a given number of failed attempts: the drawing
/// builds from its bottom line upward, one line per failure, and appears whole,
/// top to bottom, once the failures reach the maximum.
pub fn render_hangman(bad_guesses: i32) -> (r: Vec<String>)
    requires
        0 <= bad_guesses,
    ensures
        r@.len() == gallows_partial(bad_guesses as int).len(),
        forall|i: int| #![auto]
            0 <= i < r@.len() ==> r@[i]@ == gallows_partial(bad_guesses as int)[i],
{
    let lines = hangman_drawing();
    if bad_guesses < MAX_FAILED_ATTEMPTS {
        let n = bad_guesses as usize;
        let mut r: Vec<String> = Vec::new();
        let mut f: usize = 0;
        while f < n
            invariant
                f <= n,
                n < 6,
                lines@.len() == 6,
                forall|i: int| #![auto] 0 <= i < 6 ==> lines@[i]@ == gallows()[i],
                r@.len() == f,
                forall|i: int| #![auto] 0 <= i < f ==> r@[i]@ == gallows()[5 - i],
            decreases n - f,
        {
            r.push(lines[6 - 1 - f].clone());
            f = f + 1;
        }
        r
    } else {
        lines
    }
}

impl Hangman {
    /// The current status of the game as display lines: the revealed phrase,
    /// the guessed letters in ascending order, the failure count, and, only
    /// when the last turn was a miss, the gallows for the current count.
    pub fn render_game_status(&self) -> (r: Vec<String>)
        requires
            self.wf(),
        ensures
            r@.len() == 3 + if self.injured() {
                gallows_partial(self.fails()).len()
            } else {
                0
            },
            r@[0]@ == "Phrase: "@ + self.revealed(),
            exists|used: Seq<char>|
                sorted_asc(used) && used.to_multiset() == self.letters().to_multiset() && r@[1]@
                    == "Used letters: "@ + used,
            r@[2]@ == "Failed attempts: "@ + digit_str(self.fails()),
            self.injured() ==> forall|i: int| #![auto]
                0 <= i < gallows_partial(self.fails()).len() ==> r@[3 + i]@ == gallows_partial(
                    self.fails(),
                )[i],
    {
        let mut phrase = String::from_str("Phrase: ");
        let user = self.get_user_answer();
        phrase.append(user.as_str());

        let mut used_line = String::from_str("Used letters: ");
        let used = self.get_used_letters();
        used_line.append(used.as_str());

        let mut fails_line = String::from_str("Failed attempts: ");
        let fails = self.get_failed_attempts();
        let digit = match fails {
            0 => "0",
            1 => "1",
            2 => "2",
            3 => "3",
            4 => "4",
            _ => "5",
        };
        fails_line.append(digit);

        let mut r: Vec<String> = Vec::new();
        r.push(phrase);
        r.push(used_line);
        r.push(fails_line);
        if self.was_injured() {
            let mut drawing = render_hangman(fails);
            r.append(&mut drawing);
        }
        proof {
            assert(r@[1]@ == "Used letters: "@ + used@);
        }
        r
    }
}

} // verus!
