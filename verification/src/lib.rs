//! A terminal music player's core: the playlist, the in-memory audio
//! buffer, the player's decision logic and the application state machine,
//! each stated and proved with Verus.

pub mod app;
pub mod keys;
pub mod laws;
pub mod player;
pub mod playlist;
pub mod stream;
pub mod text;
pub mod view;
