//! The join screen: the game identifier entered so far, and where a join
//! attempt leads.
use vstd::prelude::*;

use crate::client::JoinError;
use crate::scene::Scenes;

verus! {

pub struct JoinGameScene {
    game_id: u64,
    next_scene: Scenes,
}

impl JoinGameScene {
    pub closed spec fn id(&self) -> u64 {
        self.game_id
    }

    pub closed spec fn next(&self) -> Scenes {
        self.next_scene
    }

    pub fn new() -> (r: JoinGameScene)
        ensures
            r.id() == 0,
            r.next() == Scenes::Stay,
    {
        JoinGameScene { game_id: 0, next_scene: Scenes::Stay }
    }

    /// Replaces the identifier entered so far.
    pub fn set_game_id(&mut self, id: u64)
        ensures
            final(self).id() == id,
            final(self).next() == old(self).next(),
    {
        self.game_id = id;
    }

    pub fn game_id(&self) -> (r: u64)
        ensures
            r == self.id(),
    {
        self.game_id
    }

    /// Records the result of joining the entered game: success leads to the
    /// game screen; failure clears the identifier and stays here.
    pub fn join_result(&mut self, result: &Result<(), JoinError>)
        ensures
            result is Ok ==> final(self).next() == Scenes::GameScene && final(self).id() == old(
                self,
            ).id(),
            result is Err ==> final(self).next() == old(self).next() && final(self).id() == 0,
    {
        match result {
            Ok(()) => {
                self.next_scene = Scenes::GameScene;
            },
            Err(_) => {
                self.game_id = 0;
            },
        }
    }

    /// Leaves for the opening screen.
    pub fn back(&mut self)
        ensures
            final(self).next() == Scenes::OpeningScene,
            final(self).id() == old(self).id(),
    {
        self.next_scene = Scenes::OpeningScene;
    }

    pub fn next_scene(&self) -> (r: Scenes)
        ensures
            r == self.next(),
    {
        self.next_scene
    }

    pub fn has_next_scene(&self) -> (r: bool)
        ensures
            r == (self.next() != Scenes::Stay),
    {
        self.next_scene != Scenes::Stay
    }

    pub fn reset_next_scene(&mut self)
        ensures
            final(self).next() == Scenes::Stay,
            final(self).id() == 0,
    {
        self.next_scene = Scenes::Stay;
        self.game_id = 0;
    }
}

} // verus!
