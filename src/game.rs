//! The locally held mirror of the authoritative game, and the reconciliation
//! routine that applies coordinator events to it.
use vstd::prelude::*;
use vstd::string::StrSliceExecFns;

verus! {

/// One recorded guess: a coordinator-assigned identifier, the participant who
/// made it, and the guessed token (a character or a substring).
#[derive(Clone, Debug)]
pub struct Guess {
    pub id: u64,
    pub player: u64,
    pub guess: String,
}

/// A unit of information sent by the coordinator.
#[derive(Clone, Debug)]
pub enum HangmanEvent {
    /// A participant made a guess.
    Sync(u64, Guess),
    /// A participant won the game.
    GameWon(u64),
    /// The game ended without a winner.
    GameDraw,
    /// A participant entered the game.
    PlayerJoined(u64),
    /// A notification kind this client does not act on.
    Other,
}

#[derive(Clone, Copy, Debug, PartialEq, Eq, Structural)]
pub enum Outcome {
    InProgress,
    Won(u64),
    Draw,
}

/// The mathematical model of a game state.
pub struct GameModel {
    pub word: Seq<char>,
    pub max_guesses: nat,
    pub guesses: Seq<Guess>,
    pub wrong: nat,
    pub players: Seq<u64>,
    pub outcome: Outcome,
}

pub struct GameState {
    word: String,
    max_guesses: u64,
    guesses: Vec<Guess>,
    wrong: usize,
    players: Vec<u64>,
    outcome: Outcome,
}

/// `tok` occurs in `word` starting at position `i`.
pub open spec fn occurs_at(word: Seq<char>, tok: Seq<char>, i: int) -> bool {
    &&& 0 <= i
    &&& i + tok.len() <= word.len()
    &&& word.subrange(i, i + tok.len()) == tok
}

/// `tok` occurs somewhere in `word`.
pub open spec fn occurs_in(word: Seq<char>, tok: Seq<char>) -> bool {
    exists|i: int| occurs_at(word, tok, i)
}

/// Some recorded guess carries the identifier `id`.
pub open spec fn has_guess_id(guesses: Seq<Guess>, id: u64) -> bool {
    exists|k: int| 0 <= k < guesses.len() && (#[trigger] guesses[k]).id == id
}

/// The number of recorded guesses whose token does not occur in `word`.
pub open spec fn count_wrong(word: Seq<char>, guesses: Seq<Guess>) -> nat
    decreases guesses.len(),
{
    if guesses.len() == 0 {
        0
    } else {
        count_wrong(word, guesses.drop_last()) + if occurs_in(word, guesses.last().guess@) {
            0nat
        } else {
            1nat
        }
    }
}

/// The wrong-guess counter agrees with the recorded guesses.
pub open spec fn model_wf(g: GameModel) -> bool {
    g.wrong == count_wrong(g.word, g.guesses)
}

/// Attempts left: the allowance minus the wrong guesses, never below zero.
pub open spec fn attempts_left(g: GameModel) -> nat {
    if g.wrong >= g.max_guesses {
        0
    } else {
        (g.max_guesses - g.wrong) as nat
    }
}

/// Reconciliation: the state after `e` is applied to `g`.
pub open spec fn apply_event(g: GameModel, e: HangmanEvent) -> GameModel {
    if g.outcome != Outcome::InProgress {
        g
    } else {
        match e {
            HangmanEvent::Sync(_, guess) => {
                if has_guess_id(g.guesses, guess.id) {
                    g
                } else {
                    GameModel {
                        guesses: g.guesses.push(guess),
                        wrong: g.wrong + if occurs_in(g.word, guess.guess@) {
                            0nat
                        } else {
                            1nat
                        },
                        ..g
                    }
                }
            },
            HangmanEvent::GameWon(p) => GameModel { outcome: Outcome::Won(p), ..g },
            HangmanEvent::GameDraw => GameModel { outcome: Outcome::Draw, ..g },
            HangmanEvent::PlayerJoined(p) => {
                if g.players.contains(p) {
                    g
                } else {
                    GameModel { players: g.players.push(p), ..g }
                }
            },
            HangmanEvent::Other => g,
        }
    }
}

/// Applies a sequence of events in order.
pub open spec fn apply_events(g: GameModel, es: Seq<HangmanEvent>) -> GameModel
    decreases es.len(),
{
    if es.len() == 0 {
        g
    } else {
        apply_event(apply_events(g, es.drop_last()), es.last())
    }
}

impl Guess {
    /// A copy of this guess.
    pub fn duplicate(&self) -> (r: Guess)
        ensures
            r == *self,
    {
        Guess { id: self.id, player: self.player, guess: self.guess.clone() }
    }
}

impl HangmanEvent {
    /// A copy of this event.
    pub fn duplicate(&self) -> (r: HangmanEvent)
        ensures
            r == *self,
    {
        match self {
            HangmanEvent::Sync(p, g) => HangmanEvent::Sync(*p, g.duplicate()),
            HangmanEvent::GameWon(p) => HangmanEvent::GameWon(*p),
            HangmanEvent::GameDraw => HangmanEvent::GameDraw,
            HangmanEvent::PlayerJoined(p) => HangmanEvent::PlayerJoined(*p),
            HangmanEvent::Other => HangmanEvent::Other,
        }
    }
}

impl View for GameState {
    type V = GameModel;

    closed spec fn view(&self) -> GameModel {
        GameModel {
            word: self.word@,
            max_guesses: self.max_guesses as nat,
            guesses: self.guesses@,
            wrong: self.wrong as nat,
            players: self.players@,
            outcome: self.outcome,
        }
    }
}

/// The characters of `s`, as a vector.
pub fn chars_of(s: &str) -> (r: Vec<char>)
    ensures
        r@ == s@,
{
    let n = s.unicode_len();
    let mut r: Vec<char> = Vec::new();
    let mut i: usize = 0;
    while i < n
        invariant
            n == s@.len(),
            i <= n,
            r@ == s@.subrange(0, i as int),
        decreases n - i,
    {
        r.push(s.get_char(i));
        i = i + 1;
        assert(r@ =~= s@.subrange(0, i as int));
    }
    assert(r@ =~= s@);
    r
}

/// Whether `tok` occurs in `word` starting at position `i`.
pub fn matches_at(word: &Vec<char>, tok: &Vec<char>, i: usize) -> (r: bool)
    ensures
        r == occurs_at(word@, tok@, i as int),
{
    if i > word.len() || tok.len() > word.len() - i {
        return false;
    }
    let n = tok.len();
    let wl = word.len();
    let mut j: usize = 0;
    while j < n
        invariant
            i + tok@.len() <= word@.len(),
            i <= word@.len(),
            n == tok@.len(),
            wl == word@.len(),
            j <= n,
            forall|k: int| 0 <= k < j ==> word@[i + k] == tok@[k],
        decreases n - j,
    {
        if word[i + j] != tok[j] {
            assert(word@.subrange(i as int, i + tok@.len())[j as int] != tok@[j as int]);
            return false;
        }
        j = j + 1;
    }
    assert(word@.subrange(i as int, i + tok@.len()) =~= tok@);
    true
}

/// Whether `tok` occurs anywhere in `word`.
pub fn contains_token(word: &Vec<char>, tok: &Vec<char>) -> (r: bool)
    ensures
        r == occurs_in(word@, tok@),
{
    if tok.len() == 0 {
        assert(word@.subrange(0, 0) =~= tok@);
        assert(occurs_at(word@, tok@, 0));
        return true;
    }
    if tok.len() > word.len() {
        return false;
    }
    let last = word.len() - tok.len();
    let mut i: usize = 0;
    while i <= last
        invariant
            last == word@.len() - tok@.len(),
            tok@.len() > 0,
            last < usize::MAX,
            i <= last + 1,
            forall|k: int| 0 <= k < i ==> !occurs_at(word@, tok@, k),
        decreases last + 1 - i,
    {
        if matches_at(word, tok, i) {
            return true;
        }
        i = i + 1;
    }
    false
}

proof fn lemma_count_wrong_bounded(word: Seq<char>, guesses: Seq<Guess>)
    ensures
        count_wrong(word, guesses) <= guesses.len(),
    decreases guesses.len(),
{
    if guesses.len() > 0 {
        lemma_count_wrong_bounded(word, guesses.drop_last());
    }
}

impl GameState {
    /// Well-formedness: the wrong-guess counter agrees with the recorded guesses.
    pub open spec fn wf(&self) -> bool {
        model_wf(self@)
    }

    /// A fresh game on `word` with an allowance of `max_guesses` wrong guesses.
    pub fn new(word: String, max_guesses: u64, players: Vec<u64>) -> (r: GameState)
        ensures
            r.wf(),
            r@.word == word@,
            r@.max_guesses == max_guesses,
            r@.guesses.len() == 0,
            r@.wrong == 0,
            r@.players == players@,
            r@.outcome == Outcome::InProgress,
    {
        GameState {
            word,
            max_guesses,
            guesses: Vec::new(),
            wrong: 0,
            players,
            outcome: Outcome::InProgress,
        }
    }

    /// Whether a guess with identifier `id` is already recorded.
    fn contains_guess_id(&self, id: u64) -> (r: bool)
        ensures
            r == has_guess_id(self@.guesses, id),
    {
        let mut k: usize = 0;
        while k < self.guesses.len()
            invariant
                k <= self.guesses@.len(),
                forall|j: int| 0 <= j < k ==> (#[trigger] self.guesses@[j]).id != id,
            decreases self.guesses@.len() - k,
        {
            if self.guesses[k].id == id {
                return true;
            }
            k = k + 1;
        }
        false
    }

    /// Whether participant `p` is on the roster.
    fn has_player(&self, p: u64) -> (r: bool)
        ensures
            r == self@.players.contains(p),
    {
        let mut k: usize = 0;
        while k < self.players.len()
            invariant
                k <= self.players@.len(),
                forall|j: int| 0 <= j < k ==> self.players@[j] != p,
            decreases self.players@.len() - k,
        {
            if self.players[k] == p {
                assert(self.players@[k as int] == p);
                return true;
            }
            k = k + 1;
        }
        false
    }

    /// Reconciliation: applies `e` to this state.
    ///
    /// A guess is recorded unless its identifier is already present; only a
    /// guess whose token does not occur in the word consumes an attempt. The
    /// first terminal event fixes the outcome, and every event after it is
    /// ignored. Event kinds the client does not act on change nothing.
    pub fn apply(&mut self, e: &HangmanEvent)
        requires
            old(self).wf(),
        ensures
            final(self).wf(),
            final(self)@ == apply_event(old(self)@, *e),
    {
        if self.outcome != Outcome::InProgress {
            return;
        }
        match e {
            HangmanEvent::Sync(_, g) => {
                if self.contains_guess_id(g.id) {
                    return;
                }
                let w = chars_of(self.word.as_str());
                let t = chars_of(g.guess.as_str());
                let hit = contains_token(&w, &t);
                let ghost before = self.guesses@;
                self.guesses.push(g.duplicate());
                let n = self.guesses.len();
                proof {
                    lemma_count_wrong_bounded(self.word@, before);
                    assert(self.guesses@.drop_last() =~= before);
                }
                if !hit {
                    self.wrong = self.wrong + 1;
                }
            },
            HangmanEvent::GameWon(p) => {
                self.outcome = Outcome::Won(*p);
            },
            HangmanEvent::GameDraw => {
                self.outcome = Outcome::Draw;
            },
            HangmanEvent::PlayerJoined(p) => {
                if !self.has_player(*p) {
                    self.players.push(*p);
                }
            },
            HangmanEvent::Other => {},
        }
    }

    /// Attempts left before the allowance is used up.
    pub fn attempts_remaining(&self) -> (r: u64)
        ensures
            r == attempts_left(self@),
    {
        if self.wrong as u64 >= self.max_guesses {
            0
        } else {
            self.max_guesses - self.wrong as u64
        }
    }

    /// The number of recorded guesses, right and wrong.
    pub fn guess_count(&self) -> (r: usize)
        ensures
            r == self@.guesses.len(),
    {
        self.guesses.len()
    }

    /// The number of recorded guesses that missed.
    pub fn wrong_count(&self) -> (r: usize)
        ensures
            r == self@.wrong,
    {
        self.wrong
    }

    pub fn outcome(&self) -> (r: Outcome)
        ensures
            r == self@.outcome,
    {
        self.outcome
    }

    pub fn word(&self) -> (r: &String)
        ensures
            r@ == self@.word,
    {
        &self.word
    }

    pub fn max_guesses(&self) -> (r: u64)
        ensures
            r == self@.max_guesses,
    {
        self.max_guesses
    }

    /// The recorded guesses, in the order the coordinator assigned.
    pub fn guesses(&self) -> (r: &Vec<Guess>)
        ensures
            r@ == self@.guesses,
    {
        &self.guesses
    }

    pub fn players(&self) -> (r: &Vec<u64>)
        ensures
            r@ == self@.players,
    {
        &self.players
    }
}

/// Applying any event a second time changes nothing: a repeated guess is
/// recognised by its identifier and neither recorded again nor counted again.
pub proof fn lemma_apply_idempotent(g: GameModel, e: HangmanEvent)
    ensures
        apply_event(apply_event(g, e), e) == apply_event(g, e),
        attempts_left(apply_event(apply_event(g, e), e)) == attempts_left(apply_event(g, e)),
        apply_event(apply_event(g, e), e).guesses.len() == apply_event(g, e).guesses.len(),
{
    let once = apply_event(g, e);
    if g.outcome == Outcome::InProgress {
        match e {
            HangmanEvent::Sync(_, guess) => {
                if !has_guess_id(g.guesses, guess.id) {
                    let k = g.guesses.len() as int;
                    assert(once.guesses[k] == guess);
                    assert(has_guess_id(once.guesses, guess.id));
                }
            },
            HangmanEvent::PlayerJoined(p) => {
                if !g.players.contains(p) {
                    assert(once.players[g.players.len() as int] == p);
                }
            },
            _ => {},
        }
    }
}

/// Once a game is over, no sequence of later events changes its state.
pub proof fn lemma_terminal_stays(g: GameModel, es: Seq<HangmanEvent>)
    requires
        g.outcome != Outcome::InProgress,
    ensures
        apply_events(g, es) == g,
    decreases es.len(),
{
    if es.len() > 0 {
        lemma_terminal_stays(g, es.drop_last());
    }
}

/// After a win by `p` takes effect, any later events (a draw among them)
/// leave the outcome a win by `p`.
pub proof fn lemma_win_is_final(g: GameModel, p: u64, later: Seq<HangmanEvent>)
    requires
        g.outcome == Outcome::InProgress,
    ensures
        apply_events(apply_event(g, HangmanEvent::GameWon(p)), later).outcome == Outcome::Won(p),
{
    lemma_terminal_stays(apply_event(g, HangmanEvent::GameWon(p)), later);
}

/// Two fresh guesses from different participants, applied in the order they
/// arrived, are recorded in that order; the reverse order records a different
/// guess sequence whenever the two guesses differ.
pub proof fn lemma_arrival_order_kept(g: GameModel, p: u64, a: Guess, q: u64, b: Guess)
    requires
        g.outcome == Outcome::InProgress,
        p != q,
        a.id != b.id,
        !has_guess_id(g.guesses, a.id),
        !has_guess_id(g.guesses, b.id),
    ensures
        apply_events(g, seq![HangmanEvent::Sync(p, a), HangmanEvent::Sync(q, b)]).guesses
            == g.guesses.push(a).push(b),
        apply_events(g, seq![HangmanEvent::Sync(q, b), HangmanEvent::Sync(p, a)]).guesses
            == g.guesses.push(b).push(a),
        a != b ==> apply_events(g, seq![HangmanEvent::Sync(p, a), HangmanEvent::Sync(q, b)]).guesses
            != apply_events(g, seq![HangmanEvent::Sync(q, b), HangmanEvent::Sync(p, a)]).guesses,
{
    let ab = seq![HangmanEvent::Sync(p, a), HangmanEvent::Sync(q, b)];
    let ba = seq![HangmanEvent::Sync(q, b), HangmanEvent::Sync(p, a)];
    assert(ab.drop_last() =~= seq![HangmanEvent::Sync(p, a)]);
    assert(ba.drop_last() =~= seq![HangmanEvent::Sync(q, b)]);
    assert(seq![HangmanEvent::Sync(p, a)].drop_last() =~= Seq::<HangmanEvent>::empty());
    assert(seq![HangmanEvent::Sync(q, b)].drop_last() =~= Seq::<HangmanEvent>::empty());
    let ga = apply_event(g, HangmanEvent::Sync(p, a));
    let gb = apply_event(g, HangmanEvent::Sync(q, b));
    assert(!has_guess_id(ga.guesses, b.id)) by {
        if has_guess_id(ga.guesses, b.id) {
            let k = choose|k: int| 0 <= k < ga.guesses.len() && (#[trigger] ga.guesses[k]).id == b.id;
            if k < g.guesses.len() {
                assert(g.guesses[k] == ga.guesses[k]);
            }
        }
    }
    assert(!has_guess_id(gb.guesses, a.id)) by {
        if has_guess_id(gb.guesses, a.id) {
            let k = choose|k: int| 0 <= k < gb.guesses.len() && (#[trigger] gb.guesses[k]).id == a.id;
            if k < g.guesses.len() {
                assert(g.guesses[k] == gb.guesses[k]);
            }
        }
    }
    assert(apply_events(g, Seq::<HangmanEvent>::empty()) == g);
    assert(apply_events(g, seq![HangmanEvent::Sync(p, a)]) == ga);
    assert(apply_events(g, seq![HangmanEvent::Sync(q, b)]) == gb);
    assert(apply_events(g, ab) == apply_event(ga, HangmanEvent::Sync(q, b)));
    assert(apply_events(g, ba) == apply_event(gb, HangmanEvent::Sync(p, a)));
    if a != b {
        let n = g.guesses.len() as int;
        assert(g.guesses.push(a).push(b)[n] != g.guesses.push(b).push(a)[n]);
    }
}

} // verus!
