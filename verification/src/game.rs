use vstd::prelude::*;
use crate::text::{chars_to_string, contains_char, sorted_chars, sorted_asc, str_to_chars};

verus! {

/// The number of failed attempts at which the hangman is hung and the game is lost.
pub const MAX_FAILED_ATTEMPTS: i32 = 5;

/// The character standing for a position of the secret not yet revealed.
pub const PLACEHOLDER: char = '-';

/// Lowercase a single ASCII letter; any other character is unchanged.
pub open spec fn lower_char(c: char) -> char {
    if 'A' <= c && c <= 'Z' {
        ((c as u8) + 32) as char
    } else {
        c
    }
}

/// A guess normalized: every character lowercased.
pub open spec fn lower_seq(s: Seq<char>) -> Seq<char> {
    s.map_values(|c: char| lower_char(c))
}

/// A guessable character: one lowercase ASCII letter.
pub open spec fn is_guessable(c: char) -> bool {
    'a' <= c && c <= 'z'
}

/// A normalized guess that can be recorded: a single guessable letter.
pub open spec fn valid_guess(g: Seq<char>) -> bool {
    g.len() == 1 && is_guessable(g[0])
}

/// The revealed pattern after a hit: every position of the secret holding the
/// guessed letter is uncovered, every other position is unchanged.
pub open spec fn fill_matching(secret: Seq<char>, revealed: Seq<char>, g: char) -> Seq<char> {
    Seq::new(revealed.len(), |i: int| if secret[i] == g {
        g
    } else {
        revealed[i]
    })
}

/// How one guess was classified against the current state.
#[derive(Clone, Copy, Debug, PartialEq, Eq, Structural)]
pub enum GuessOutcome {
    /// The normalized guess is not a single ASCII letter; nothing is recorded.
    Invalid,
    /// The letter was guessed before; nothing is recorded.
    Repeat,
    /// The letter occurs in the secret; its positions are revealed.
    Hit,
    /// The letter does not occur in the secret; one more failed attempt.
    Miss,
}

/// Where the game stands after a turn.
#[derive(Clone, Copy, Debug, PartialEq, Eq, Structural)]
pub enum GameStatus {
    /// The game goes on.
    Playing,
    /// The revealed pattern matches the secret.
    Won,
    /// The failed attempts reached the maximum.
    Lost,
}

/// One game of hangman: a secret word, the pattern revealed so far, the
/// letters guessed so far, and the count of failed attempts. The hangman is
/// alive until the failed attempts reach the maximum.
pub struct Hangman {
    answer: Vec<char>,
    user_answer: Vec<char>,
    failed_attempts: i32,
    guessed: Vec<char>,
    alive: bool,
    injured_last_turn: bool,
}

impl Hangman {
    /// The secret word.
    pub closed spec fn secret(&self) -> Seq<char> {
        self.answer@
    }

    /// The revealed pattern, one character per position of the secret.
    pub closed spec fn revealed(&self) -> Seq<char> {
        self.user_answer@
    }

    /// The guessed letters, in the order they were recorded.
    pub closed spec fn letters(&self) -> Seq<char> {
        self.guessed@
    }

    /// The number of failed attempts so far.
    pub closed spec fn fails(&self) -> int {
        self.failed_attempts as int
    }

    /// Whether the hangman is still alive.
    pub closed spec fn is_alive(&self) -> bool {
        self.alive
    }

    /// Whether the last turn was a miss.
    pub closed spec fn injured(&self) -> bool {
        self.injured_last_turn
    }

    /// Well-formedness: the revealed pattern is as long as the secret, the
    /// failure count stays within its bound, and each letter is recorded at
    /// most once.
    pub open spec fn wf(&self) -> bool {
        &&& self.revealed().len() == self.secret().len()
        &&& 0 <= self.fails() <= MAX_FAILED_ATTEMPTS
        &&& self.letters().no_duplicates()
    }

    /// Whether the whole secret has been revealed.
    pub open spec fn won(&self) -> bool {
        self.revealed() == self.secret()
    }

    pub fn get_answer(&self) -> (r: String)
        ensures
            r@ == self.secret(),
    {
        chars_to_string(&self.answer)
    }

    pub fn get_user_answer(&self) -> (r: String)
        ensures
            r@ == self.revealed(),
    {
        chars_to_string(&self.user_answer)
    }

    /// The guessed letters, sorted in ascending order for display.
    pub fn get_used_letters(&self) -> (r: String)
        ensures
            r@.to_multiset() == self.letters().to_multiset(),
            sorted_asc(r@),
    {
        let s = sorted_chars(&self.guessed);
        chars_to_string(&s)
    }

    pub fn get_failed_attempts(&self) -> (r: i32)
        ensures
            r == self.fails(),
    {
        self.failed_attempts
    }

    pub fn was_injured(&self) -> (r: bool)
        ensures
            r == self.injured(),
    {
        self.injured_last_turn
    }

    /// Whether the revealed pattern matches the secret.
    pub fn is_won(&self) -> (r: bool)
        ensures
            r == self.won(),
    {
        if self.user_answer.len() != self.answer.len() {
            return false;
        }
        let n = self.answer.len();
        let mut i: usize = 0;
        while i < n
            invariant
                i <= n,
                n == self.answer@.len(),
                n == self.user_answer@.len(),
                forall|j: int| 0 <= j < i ==> self.user_answer@[j] == self.answer@[j],
            decreases n - i,
        {
            if self.user_answer[i] != self.answer[i] {
                return false;
            }
            i = i + 1;
        }
        proof {
            assert(self.user_answer@ =~= self.answer@);
        }
        true
    }

    /// Classifies one guess and applies it to the game: an invalid or repeated
    /// guess changes nothing, a hit uncovers every matching position of the
    /// secret, a miss counts one more failed attempt and injures the hangman.
    pub fn sort_guess(&mut self, guess: String) -> (out: GuessOutcome)
        requires
            old(self).wf(),
            old(self).fails() < MAX_FAILED_ATTEMPTS,
        ensures
            final(self).wf(),
            final(self).secret() == old(self).secret(),
            final(self).is_alive() == old(self).is_alive(),
            final(self).injured() == (out == GuessOutcome::Miss),
            ({
                let g = lower_seq(guess@);
                &&& (out == GuessOutcome::Invalid <==> !valid_guess(g))
                &&& (out == GuessOutcome::Repeat <==> valid_guess(g) && old(self).letters().contains(
                    g[0],
                ))
                &&& (out == GuessOutcome::Hit <==> valid_guess(g) && !old(self).letters().contains(
                    g[0],
                ) && old(self).secret().contains(g[0]))
                &&& (out == GuessOutcome::Miss <==> valid_guess(g) && !old(self).letters().contains(
                    g[0],
                ) && !old(self).secret().contains(g[0]))
                &&& ((out == GuessOutcome::Invalid || out == GuessOutcome::Repeat)
                    ==> final(self).letters() == old(self).letters()
                    && final(self).revealed() == old(self).revealed()
                    && final(self).fails() == old(self).fails())
                &&& ((out == GuessOutcome::Hit || out == GuessOutcome::Miss)
                    ==> final(self).letters() == old(self).letters().push(g[0]))
                &&& (out == GuessOutcome::Hit ==> final(self).revealed() == fill_matching(
                    old(self).secret(),
                    old(self).revealed(),
                    g[0],
                ) && final(self).fails() == old(self).fails())
                &&& (out == GuessOutcome::Miss ==> final(self).revealed() == old(self).revealed()
                    && final(self).fails() == old(self).fails() + 1)
            }),
            old(self).fails() <= final(self).fails() <= old(self).fails() + 1,
    {
        self.injured_last_turn = false;

        let raw = str_to_chars(guess.as_str());
        let mut g: Vec<char> = Vec::new();
        let mut i: usize = 0;
        while i < raw.len()
            invariant
                i <= raw@.len(),
                raw@ == guess@,
                g@.len() == i,
                forall|j: int| 0 <= j < i ==> g@[j] == lower_char(#[trigger] raw@[j]),
            decreases raw@.len() - i,
        {
            let c = raw[i];
            if 'A' <= c && c <= 'Z' {
                g.push((((c as u8) + 32) as char));
            } else {
                g.push(c);
            }
            i = i + 1;
        }
        proof {
            assert(g@ =~= lower_seq(guess@));
        }

        if g.len() != 1 {
            return GuessOutcome::Invalid;
        }
        let c = g[0];
        if !('a' <= c && c <= 'z') {
            return GuessOutcome::Invalid;
        }

        if contains_char(&self.guessed, c) {
            return GuessOutcome::Repeat;
        }

        self.guessed.push(c);

        if contains_char(&self.answer, c) {
            let ghost old_revealed = self.user_answer@;
            let n = self.answer.len();
            let mut k: usize = 0;
            while k < n
                invariant
                    k <= n,
                    n == self.answer@.len(),
                    self.answer@ == old(self).secret(),
                    self.user_answer@.len() == old_revealed.len(),
                    old_revealed.len() == n,
                    self.guessed@ == old(self).letters().push(c),
                    self.failed_attempts == old(self).failed_attempts,
                    self.alive == old(self).alive,
                    self.injured_last_turn == false,
                    forall|j: int| 0 <= j < k ==> self.user_answer@[j] == (if old(
                        self,
                    ).secret()[j] == c {
                        c
                    } else {
                        old_revealed[j]
                    }),
                    forall|j: int| k <= j < n ==> self.user_answer@[j] == old_revealed[j],
                decreases n - k,
            {
                if self.answer[k] == c {
                    self.user_answer[k] = c;
                }
                k = k + 1;
            }
            proof {
                assert(self.user_answer@ =~= fill_matching(
                    old(self).secret(),
                    old_revealed,
                    c,
                ));
            }
            GuessOutcome::Hit
        } else {
            self.failed_attempts = self.failed_attempts + 1;
            self.injured_last_turn = true;
            GuessOutcome::Miss
        }
    }

    /// The terminal check after a turn: the game is won when the revealed
    /// pattern matches the secret, else lost when the failed attempts have
    /// reached the maximum (the hangman then stops being alive), else it goes
    /// on. A win takes precedence over a loss.
    pub fn finish_turn(&mut self) -> (st: GameStatus)
        requires
            old(self).wf(),
        ensures
            final(self).wf(),
            final(self).secret() == old(self).secret(),
            final(self).revealed() == old(self).revealed(),
            final(self).letters() == old(self).letters(),
            final(self).fails() == old(self).fails(),
            final(self).injured() == old(self).injured(),
            (st == GameStatus::Won <==> old(self).won()),
            (st == GameStatus::Lost <==> !old(self).won() && old(self).fails()
                >= MAX_FAILED_ATTEMPTS),
            (st == GameStatus::Playing <==> !old(self).won() && old(self).fails()
                < MAX_FAILED_ATTEMPTS),
            final(self).is_alive() == (old(self).is_alive() && st != GameStatus::Lost),
    {
        if self.is_won() {
            return GameStatus::Won;
        }
        if self.failed_attempts >= MAX_FAILED_ATTEMPTS {
            self.alive = false;
            return GameStatus::Lost;
        }
        GameStatus::Playing
    }

    /// How many positions of the secret are still hidden in the revealed pattern.
    pub fn count_missing(&self) -> (r: usize)
        ensures
            r == self.revealed().filter(|c: char| c == PLACEHOLDER).len(),
    {
        let mut count: usize = 0;
        let mut i: usize = 0;
        while i < self.user_answer.len()
            invariant
                i <= self.user_answer@.len(),
                count == self.user_answer@.subrange(0, i as int).filter(
                    |c: char| c == PLACEHOLDER,
                ).len(),
                count <= i,
            decreases self.user_answer@.len() - i,
        {
            proof {
                let pred = |c: char| c == PLACEHOLDER;
                let elem = self.user_answer@[i as int];
                let pre = self.user_answer@.subrange(0, i as int);
                let full = self.user_answer@.subrange(0, i + 1);
                assert(full.drop_last() =~= pre);
                assert(full.last() == elem);
                reveal(Seq::filter);
                assert(full.filter(pred) == if pred(elem) {
                    pre.filter(pred).push(elem)
                } else {
                    pre.filter(pred)
                });
            }
            if self.user_answer[i] == PLACEHOLDER {
                count = count + 1;
            }
            i = i + 1;
        }
        proof {
            assert(self.user_answer@.subrange(0, self.user_answer@.len() as int)
                =~= self.user_answer@);
        }
        count
    }
}

/// A fresh game around a chosen secret: nothing revealed, nothing guessed, no
/// failed attempts, the hangman alive and unhurt.
pub fn new_game(secret: String) -> (game: Hangman)
    ensures
        game.wf(),
        game.secret() == secret@,
        game.revealed() == Seq::new(secret@.len(), |i: int| PLACEHOLDER),
        game.letters() == Seq::<char>::empty(),
        game.fails() == 0,
        game.is_alive(),
        !game.injured(),
{
    let answer = str_to_chars(secret.as_str());
    let n = answer.len();
    let mut user_answer: Vec<char> = Vec::new();
    let mut i: usize = 0;
    while i < n
        invariant
            i <= n,
            user_answer@.len() == i,
            forall|j: int| 0 <= j < i ==> user_answer@[j] == PLACEHOLDER,
        decreases n - i,
    {
        user_answer.push(PLACEHOLDER);
        i = i + 1;
    }
    let game = Hangman {
        answer,
        user_answer,
        failed_attempts: 0,
        guessed: Vec::new(),
        alive: true,
        injured_last_turn: false,
    };
    proof {
        assert(game.revealed() =~= Seq::new(secret@.len(), |i: int| PLACEHOLDER));
    }
    game
}

} // verus!

