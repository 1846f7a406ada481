//! The screens of the client.
use vstd::prelude::*;

verus! {

/// The screen to switch to; `Stay` keeps the current one.
#[derive(Clone, Copy, Debug, PartialEq, Eq, Structural)]
pub enum Scenes {
    Stay,
    OpeningScene,
    JoinGameScene,
    GameScene,
}

} // verus!
