//! Client-side state synchronisation for a networked multiplayer word-guessing game.
pub mod game;
pub mod queue;
pub mod transport;
pub mod wire;
pub mod client;
pub mod scene;
pub mod board;
pub mod connect;
pub mod joingame;
