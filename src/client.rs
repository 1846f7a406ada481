//! The client facade: session lifecycle, joining a game, submitting guesses
//! and handling coordinator events. Its operations take the outcome of the
//! network exchange as an argument, so the caller owns all socket I/O.
use vstd::prelude::*;

use crate::game::{apply_event, model_wf, GameModel, GameState, HangmanEvent, Outcome};
use crate::queue::EventQueue;
use crate::transport::{successor, next_seq, Outgoing, Reply, Request, TransportError};

verus! {

/// Consecutive unanswered requests after which the session counts as lost.
pub const LOSS_LIMIT: u64 = 3;

/// Where a connected client stands.
#[derive(Clone, Copy, Debug, PartialEq, Eq, Structural)]
pub enum Lifecycle {
    /// Connected to the coordinator, not in a game.
    Joined,
    /// Playing a game.
    InGame,
    /// The game ended with a win by the participant.
    Won(u64),
    /// The game ended without a winner.
    Draw,
    /// The session was closed or lost; the caller must reconnect.
    Terminated,
}

#[derive(Clone, Copy, Debug, PartialEq, Eq, Structural)]
pub enum JoinError {
    /// Joining is possible only while connected and not in a game.
    NotJoined,
    /// The coordinator knows no game of that identifier.
    UnknownGame,
    /// The request went unanswered.
    NoResponse,
    /// The coordinator answered with something other than a join result.
    Unexpected,
}

#[derive(Clone, Copy, Debug, PartialEq, Eq, Structural)]
pub enum SyncError {
    /// Guessing is possible only during a game.
    NotInGame,
    /// The request went unanswered: the server could not be reached.
    NoResponse,
    /// The coordinator answered with something other than a guess result.
    Unexpected,
}

/// The mathematical model of a client.
pub struct ClientModel {
    pub address: Seq<char>,
    pub seq: u64,
    pub state: Lifecycle,
    pub losses: nat,
    pub game: Option<GameModel>,
    pub events: Seq<HangmanEvent>,
}

pub struct HangmanClient {
    address: String,
    seq: u64,
    state: Lifecycle,
    losses: u64,
    game: Option<GameState>,
    events: EventQueue,
}

pub open spec fn game_model(g: Option<GameState>) -> Option<GameModel> {
    match g {
        Some(s) => Some(s@),
        None => None,
    }
}

/// The lifecycle state that the outcome of a running game implies.
pub open spec fn state_for(o: Outcome) -> Lifecycle {
    match o {
        Outcome::InProgress => Lifecycle::InGame,
        Outcome::Won(p) => Lifecycle::Won(p),
        Outcome::Draw => Lifecycle::Draw,
    }
}

/// The client after one more unanswered request.
pub open spec fn after_loss(c: ClientModel) -> ClientModel {
    ClientModel {
        losses: c.losses + 1,
        state: if c.losses + 1 >= LOSS_LIMIT { Lifecycle::Terminated } else { c.state },
        ..c
    }
}

/// Whether `e` reports a guess.
pub open spec fn is_sync(e: HangmanEvent) -> bool {
    e is Sync
}

impl View for HangmanClient {
    type V = ClientModel;

    closed spec fn view(&self) -> ClientModel {
        ClientModel {
            address: self.address@,
            seq: self.seq,
            state: self.state,
            losses: self.losses as nat,
            game: game_model(self.game),
            events: self.events@,
        }
    }
}

/// The handshake that opens a session; the client's own requests follow it.
pub fn handshake() -> (r: Outgoing)
    ensures
        r.seq == 0,
        r.request is Handshake,
{
    Outgoing { seq: 0, request: Request::Handshake }
}

impl HangmanClient {
    /// Well-formedness: the game mirror is present exactly in the in-game and
    /// finished states, agrees with its lifecycle state, and is itself well formed.
    pub open spec fn wf(&self) -> bool {
        let c = self@;
        &&& c.losses < LOSS_LIMIT || c.state == Lifecycle::Terminated
        &&& match c.game {
            Some(g) => model_wf(g) && (c.state == state_for(g.outcome)
                || c.state == Lifecycle::Terminated),
            None => c.state == Lifecycle::Joined || c.state == Lifecycle::Terminated,
        }
    }

    /// Completes the handshake. A client exists only if the coordinator
    /// acknowledged it; otherwise the coordinator is unreachable.
    pub fn connect(address: String, reply: Result<Reply, TransportError>) -> (r: Result<
        HangmanClient,
        crate::transport::ConnectError,
    >)
        ensures
            match r {
                Ok(c) => {
                    &&& reply matches Ok(Reply::HandshakeAck)
                    &&& c.wf()
                    &&& c@.address == address@
                    &&& c@.seq == 1
                    &&& c@.state == Lifecycle::Joined
                    &&& c@.losses == 0
                    &&& c@.game is None
                    &&& c@.events.len() == 0
                },
                Err(e) => !(reply matches Ok(Reply::HandshakeAck))
                    && e == crate::transport::ConnectError::Unreachable,
            },
    {
        match reply {
            Ok(Reply::HandshakeAck) => Ok(
                HangmanClient {
                    address,
                    seq: 1,
                    state: Lifecycle::Joined,
                    losses: 0,
                    game: None,
                    events: EventQueue::new(),
                },
            ),
            _ => Err(crate::transport::ConnectError::Unreachable),
        }
    }

    /// Takes the next sequence number for a request.
    fn take_seq(&mut self) -> (r: u64)
        ensures
            r == old(self)@.seq,
            final(self)@ == (ClientModel { seq: successor(old(self)@.seq), ..old(self)@ }),
    {
        let r = self.seq;
        self.seq = next_seq(self.seq);
        r
    }

    /// Counts one more unanswered request; at the limit the session is lost.
    fn record_loss(&mut self)
        requires
            old(self).wf(),
            old(self)@.state != Lifecycle::Terminated,
        ensures
            final(self).wf(),
            final(self)@ == after_loss(old(self)@),
    {
        self.losses = self.losses + 1;
        if self.losses >= LOSS_LIMIT {
            self.state = Lifecycle::Terminated;
        }
    }
    /// Prepares the request to join game `id`. Joining is possible only
    /// while connected and not in a game.
    pub fn join_request(&mut self, id: u64) -> (r: Result<Outgoing, JoinError>)
        ensures
            old(self)@.state != Lifecycle::Joined ==> r == Err::<Outgoing, JoinError>(
                JoinError::NotJoined,
            ) && final(self)@ == old(self)@,
            old(self)@.state == Lifecycle::Joined ==> match r {
                Ok(o) => o.seq == old(self)@.seq && o.request == Request::Join(id)
                    && final(self)@ == (ClientModel { seq: successor(old(self)@.seq), ..old(self)@ }),
                Err(_) => false,
            },
    {
        if self.state != Lifecycle::Joined {
            return Err(JoinError::NotJoined);
        }
        let seq = self.take_seq();
        Ok(Outgoing { seq, request: Request::Join(id) })
    }

    /// Completes a join with the coordinator's reply. On acceptance the game
    /// mirror is populated and the client is in the game; on rejection the
    /// game is unknown and the client stays joined, with no game.
    pub fn join_game(&mut self, reply: Result<Reply, TransportError>) -> (r: Result<(), JoinError>)
        requires
            old(self).wf(),
        ensures
            final(self).wf(),
            old(self)@.state != Lifecycle::Joined ==> r == Err::<(), JoinError>(JoinError::NotJoined)
                && final(self)@ == old(self)@,
            old(self)@.state == Lifecycle::Joined ==> match reply {
                Ok(Reply::JoinAccepted(word, max_guesses, players)) => {
                    &&& r is Ok
                    &&& final(self)@ == (ClientModel {
                        state: Lifecycle::InGame,
                        losses: 0,
                        game: Some(
                            GameModel {
                                word: word@,
                                max_guesses: max_guesses as nat,
                                guesses: Seq::empty(),
                                wrong: 0,
                                players: players@,
                                outcome: Outcome::InProgress,
                            },
                        ),
                        ..old(self)@
                    })
                },
                Ok(Reply::JoinRejected) => r == Err::<(), JoinError>(JoinError::UnknownGame)
                    && final(self)@ == (ClientModel { losses: 0, ..old(self)@ }),
                Ok(_) => r == Err::<(), JoinError>(JoinError::Unexpected) && final(self)@
                    == old(self)@,
                Err(_) => r == Err::<(), JoinError>(JoinError::NoResponse) && final(self)@
                    == after_loss(old(self)@),
            },
    {
        if self.state != Lifecycle::Joined {
            return Err(JoinError::NotJoined);
        }
        match reply {
            Ok(Reply::JoinAccepted(word, max_guesses, players)) => {
                let g = GameState::new(word, max_guesses, players);
                assert(g@.guesses =~= Seq::<crate::game::Guess>::empty());
                self.game = Some(g);
                self.state = Lifecycle::InGame;
                self.losses = 0;
                Ok(())
            },
            Ok(Reply::JoinRejected) => {
                self.losses = 0;
                Err(JoinError::UnknownGame)
            },
            Ok(_) => Err(JoinError::Unexpected),
            Err(_) => {
                self.record_loss();
                Err(JoinError::NoResponse)
            },
        }
    }

    /// Prepares the request that submits the guess `token`. Guessing is
    /// possible only during a game.
    pub fn sync_request(&mut self, token: String) -> (r: Result<Outgoing, SyncError>)
        ensures
            old(self)@.state != Lifecycle::InGame ==> r == Err::<Outgoing, SyncError>(
                SyncError::NotInGame,
            ) && final(self)@ == old(self)@,
            old(self)@.state == Lifecycle::InGame ==> match r {
                Ok(o) => o.seq == old(self)@.seq && o.request == Request::Guess(token)
                    && final(self)@ == (ClientModel { seq: successor(old(self)@.seq), ..old(self)@ }),
                Err(_) => false,
            },
    {
        if self.state != Lifecycle::InGame {
            return Err(SyncError::NotInGame);
        }
        let seq = self.take_seq();
        Ok(Outgoing { seq, request: Request::Guess(token) })
    }

    /// Completes a guess with the coordinator's reply. The authoritative guess
    /// event is applied by the same reconciliation as any other event, queued
    /// for passive observers, and handed back. If the request went unanswered
    /// the game mirror and the queue are left exactly as they were.
    pub fn sync(&mut self, reply: Result<Reply, TransportError>) -> (r: Result<HangmanEvent, SyncError>)
        requires
            old(self).wf(),
        ensures
            final(self).wf(),
            r == Err::<HangmanEvent, SyncError>(SyncError::NoResponse) ==> final(self)@.game
                == old(self)@.game && final(self)@.events == old(self)@.events,
            old(self)@.state != Lifecycle::InGame ==> r == Err::<HangmanEvent, SyncError>(
                SyncError::NotInGame,
            ) && final(self)@ == old(self)@,
            old(self)@.state == Lifecycle::InGame ==> match reply {
                Ok(Reply::Guessed(e)) => if is_sync(e) {
                    &&& r == Ok::<HangmanEvent, SyncError>(e)
                    &&& final(self)@ == (ClientModel {
                        losses: 0,
                        game: Some(apply_event(old(self)@.game->0, e)),
                        events: old(self)@.events.push(e),
                        ..old(self)@
                    })
                } else {
                    r == Err::<HangmanEvent, SyncError>(SyncError::Unexpected) && final(self)@
                        == old(self)@
                },
                Ok(_) => r == Err::<HangmanEvent, SyncError>(SyncError::Unexpected)
                    && final(self)@ == old(self)@,
                Err(_) => r == Err::<HangmanEvent, SyncError>(SyncError::NoResponse)
                    && final(self)@ == after_loss(old(self)@),
            },
    {
        if self.state != Lifecycle::InGame {
            return Err(SyncError::NotInGame);
        }
        match reply {
            Ok(Reply::Guessed(e)) => {
                if let HangmanEvent::Sync(_, _) = e {
                    match &mut self.game {
                        Some(g) => {
                            g.apply(&e);
                        },
                        None => {},
                    }
                    self.events.push(e.duplicate());
                    self.losses = 0;
                    Ok(e)
                } else {
                    Err(SyncError::Unexpected)
                }
            },
            Ok(_) => Err(SyncError::Unexpected),
            Err(_) => {
                self.record_loss();
                Err(SyncError::NoResponse)
            },
        }
    }

    /// Applies an event by reconciliation during a game, and moves to the
    /// finished state that a terminal event implies. Outside a game nothing
    /// changes.
    pub fn handle_event(&mut self, e: HangmanEvent)
        requires
            old(self).wf(),
        ensures
            final(self).wf(),
            old(self)@.state == Lifecycle::InGame ==> final(self)@ == (ClientModel {
                game: Some(apply_event(old(self)@.game->0, e)),
                state: state_for(apply_event(old(self)@.game->0, e).outcome),
                ..old(self)@
            }),
            old(self)@.state != Lifecycle::InGame ==> final(self)@ == old(self)@,
    {
        if self.state != Lifecycle::InGame {
            return;
        }
        match &mut self.game {
            Some(g) => {
                g.apply(&e);
                self.state = match g.outcome() {
                    Outcome::InProgress => Lifecycle::InGame,
                    Outcome::Won(p) => Lifecycle::Won(p),
                    Outcome::Draw => Lifecycle::Draw,
                };
            },
            None => {},
        }
    }

    /// Queues an event the coordinator pushed unasked.
    pub fn deliver(&mut self, e: HangmanEvent)
        ensures
            final(self)@ == (ClientModel { events: old(self)@.events.push(e), ..old(self)@ }),
    {
        self.events.push(e);
    }

    /// Removes and returns every queued event, oldest first.
    pub fn poll_events(&mut self) -> (r: Vec<HangmanEvent>)
        ensures
            r@ == old(self)@.events,
            final(self)@ == (ClientModel { events: Seq::empty(), ..old(self)@ }),
    {
        self.events.drain_all()
    }

    /// Closes the session.
    pub fn disconnect(&mut self)
        requires
            old(self).wf(),
        ensures
            final(self).wf(),
            final(self)@ == (ClientModel { state: Lifecycle::Terminated, ..old(self)@ }),
    {
        self.state = Lifecycle::Terminated;
    }

    pub fn state(&self) -> (r: Lifecycle)
        ensures
            r == self@.state,
    {
        self.state
    }

    /// The game mirror, present once a game was joined.
    pub fn game(&self) -> (r: &Option<GameState>)
        ensures
            game_model(*r) == self@.game,
            match *r {
                Some(g) => self.wf() ==> g.wf(),
                None => true,
            },
    {
        &self.game
    }

    pub fn address(&self) -> (r: &String)
        ensures
            r@ == self@.address,
    {
        &self.address
    }
}

} // verus!
