//! What the game screen shows and how it reacts: the board derived from the
//! game mirror, which input becomes a guess, and which events end the game
//! screen.
use vstd::prelude::*;

use crate::game::{chars_of, contains_token, matches_at, occurs_at, occurs_in, attempts_left, GameState, Guess, HangmanEvent};
use crate::scene::Scenes;

verus! {

/// Unicode category "Letter, lowercase" (Ll) of a character.
pub uninterp spec fn lowercase_letter(c: char) -> bool;

/// Unicode category "Letter, uppercase" (Lu) of a character.
pub uninterp spec fn uppercase_letter(c: char) -> bool;

/// Relies on unicode_categories' `UnicodeCategories::is_letter_lowercase`
/// for `char`: a lookup of the character in the Ll table.
#[verifier::external_body]
fn is_lowercase_letter(c: char) -> (r: bool)
    ensures
        r == lowercase_letter(c),
{
    unicode_categories::UnicodeCategories::is_letter_lowercase(c)
}

/// Relies on unicode_categories' `UnicodeCategories::is_letter_uppercase`
/// for `char`: a lookup of the character in the Lu table.
#[verifier::external_body]
fn is_uppercase_letter(c: char) -> (r: bool)
    ensures
        r == uppercase_letter(c),
{
    unicode_categories::UnicodeCategories::is_letter_uppercase(c)
}

/// Relies on std's `ToString` for `char`: the string of that one character.
#[verifier::external_body]
fn char_string(c: char) -> (r: String)
    ensures
        r@ == seq![c],
{
    c.to_string()
}

/// Position `j` of `word` lies inside an occurrence of `tok`.
pub open spec fn covers(word: Seq<char>, tok: Seq<char>, j: int) -> bool {
    exists|i: int| #[trigger] occurs_at(word, tok, i) && i <= j < i + tok.len()
}

/// Position `j` of `word` is revealed by some recorded guess.
pub open spec fn revealed_at(word: Seq<char>, guesses: Seq<Guess>, j: int) -> bool {
    exists|k: int| 0 <= k < guesses.len() && covers(word, (#[trigger] guesses[k]).guess@, j)
}

/// The recorded guesses that missed, in order.
pub open spec fn misses(word: Seq<char>, guesses: Seq<Guess>) -> Seq<Guess>
    decreases guesses.len(),
{
    if guesses.len() == 0 {
        Seq::empty()
    } else if occurs_in(word, guesses.last().guess@) {
        misses(word, guesses.drop_last())
    } else {
        misses(word, guesses.drop_last()).push(guesses.last())
    }
}

/// The game screen's content.
pub struct Board {
    /// Attempts left.
    pub attempts: u64,
    /// For each position of the word, whether a guess has revealed it.
    pub revealed: Vec<bool>,
    /// The guesses that missed, in order.
    pub wrong: Vec<Guess>,
}

/// Whether position `j` of `word` lies inside an occurrence of `tok`.
pub fn covers_position(word: &Vec<char>, tok: &Vec<char>, j: usize) -> (r: bool)
    requires
        j < word@.len(),
    ensures
        r == covers(word@, tok@, j as int),
{
    let m = tok.len();
    let n = word.len();
    let mut i: usize = 0;
    while i <= j
        invariant
            i <= j + 1,
            j < n,
            n == word@.len(),
            m == tok@.len(),
            forall|x: int| 0 <= x < i ==> !(#[trigger] occurs_at(word@, tok@, x) && j < x + m),
        decreases j + 1 - i,
    {
        if matches_at(word, tok, i) && j - i < m {
            return true;
        }
        i = i + 1;
    }
    assert forall|x: int| !(#[trigger] occurs_at(word@, tok@, x) && x <= j && j < x + m) by {
        if 0 <= x < i {
        }
    }
    false
}

/// Whether position `j` of `word` is revealed by one of `guesses`.
fn position_revealed(word: &Vec<char>, guesses: &Vec<Guess>, j: usize) -> (r: bool)
    requires
        j < word@.len(),
    ensures
        r == revealed_at(word@, guesses@, j as int),
{
    let mut k: usize = 0;
    while k < guesses.len()
        invariant
            k <= guesses@.len(),
            j < word@.len(),
            forall|x: int| 0 <= x < k ==> !covers(word@, (#[trigger] guesses@[x]).guess@, j as int),
        decreases guesses@.len() - k,
    {
        let t = chars_of(guesses[k].guess.as_str());
        if covers_position(word, &t, j) {
            return true;
        }
        k = k + 1;
    }
    false
}

/// The board for a game: attempts left, revealed positions and misses.
pub fn board(game: &GameState) -> (r: Board)
    ensures
        r.attempts == attempts_left(game@),
        r.revealed@.len() == game@.word.len(),
        forall|j: int| 0 <= j < r.revealed@.len() ==> r.revealed@[j] == revealed_at(game@.word, game@.guesses, j),
        r.wrong@ == misses(game@.word, game@.guesses),
{
    let word = chars_of(game.word().as_str());
    let guesses = game.guesses();
    let mut revealed: Vec<bool> = Vec::new();
    let mut j: usize = 0;
    while j < word.len()
        invariant
            j <= word@.len(),
            word@ == game@.word,
            guesses@ == game@.guesses,
            revealed@.len() == j,
            forall|x: int| 0 <= x < j ==> revealed@[x] == revealed_at(word@, guesses@, x),
        decreases word@.len() - j,
    {
        revealed.push(position_revealed(&word, guesses, j));
        j = j + 1;
    }
    let mut wrong: Vec<Guess> = Vec::new();
    let mut k: usize = 0;
    while k < guesses.len()
        invariant
            k <= guesses@.len(),
            word@ == game@.word,
            guesses@ == game@.guesses,
            wrong@ == misses(word@, guesses@.subrange(0, k as int)),
        decreases guesses@.len() - k,
    {
        let t = chars_of(guesses[k].guess.as_str());
        proof {
            assert(guesses@.subrange(0, k + 1).drop_last() =~= guesses@.subrange(0, k as int));
        }
        if !contains_token(&word, &t) {
            wrong.push(guesses[k].duplicate());
        }
        k = k + 1;
    }
    assert(guesses@.subrange(0, k as int) =~= guesses@);
    Board { attempts: game.attempts_remaining(), revealed, wrong }
}

/// The game screen's own state: which screen comes next.
pub struct GameScene {
    next_scene: Scenes,
}

impl GameScene {
    pub fn new() -> (r: GameScene)
        ensures
            r.next() == Scenes::Stay,
    {
        GameScene { next_scene: Scenes::Stay }
    }

    pub closed spec fn next(&self) -> Scenes {
        self.next_scene
    }

    pub fn next_scene(&self) -> (r: Scenes)
        ensures
            r == self.next(),
    {
        self.next_scene
    }

    pub fn reset_next_scene(&mut self)
        ensures
            final(self).next() == Scenes::Stay,
    {
        self.next_scene = Scenes::Stay;
    }

    /// The guess that typing `c` submits: the character itself, if it is a
    /// lowercase or uppercase letter.
    pub fn guess_for_input(c: char) -> (r: Option<String>)
        ensures
            match r {
                Some(s) => (lowercase_letter(c) || uppercase_letter(c)) && s@ == seq![c],
                None => !lowercase_letter(c) && !uppercase_letter(c),
            },
    {
        if is_lowercase_letter(c) || is_uppercase_letter(c) {
            Some(char_string(c))
        } else {
            None
        }
    }

    /// Reacts to an event of `game`: returns whether it was a missed guess,
    /// which the screen answers with a red flash; a terminal event sends the
    /// player back to the opening screen.
    pub fn handle_hangman_event(&mut self, e: &HangmanEvent, game: &GameState) -> (missed: bool)
        ensures
            missed == match *e {
                HangmanEvent::Sync(_, g) => !occurs_in(game@.word, g.guess@),
                _ => false,
            },
            final(self).next() == match *e {
                HangmanEvent::GameWon(_) => Scenes::OpeningScene,
                HangmanEvent::GameDraw => Scenes::OpeningScene,
                _ => old(self).next(),
            },
    {
        match e {
            HangmanEvent::Sync(_, g) => {
                let word = chars_of(game.word().as_str());
                let t = chars_of(g.guess.as_str());
                !contains_token(&word, &t)
            },
            HangmanEvent::GameWon(_) => {
                self.next_scene = Scenes::OpeningScene;
                false
            },
            HangmanEvent::GameDraw => {
                self.next_scene = Scenes::OpeningScene;
                false
            },
            _ => false,
        }
    }

    /// How long the red flash lasts, in milliseconds: a miss of one's own is
    /// penalised with a longer pause than another player's.
    pub fn flash_millis(from_self: bool) -> (r: u64)
        ensures
            r == if from_self { 1000u64 } else { 100u64 },
    {
        if from_self {
            1000
        } else {
            100
        }
    }
}

} // verus!
