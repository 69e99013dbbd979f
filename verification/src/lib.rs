//! The core of a small 2D canvas game: a character ("RedHatBoy") driven by
//! an animation and movement state machine. Behavioral states (idle,
//! running) each own the shared motion context — frame counter, position,
//! velocity — and only the explicitly listed transitions between them are
//! legal. Each tick advances the current state's sawtooth frame counter and
//! integrates the velocity into the position; each draw pass derives a sheet
//! key from the state's name prefix and the displayed sprite index, and
//! looks it up in the sprite sheet description.
//!
//! The browser collaborators — fetching the sheet, decoding the image,
//! blitting on the canvas, scheduling ticks and sampling the keyboard — sit
//! outside this crate and talk to it through plain values.

pub mod game;
pub mod red_hat_boy_states;
pub mod sheet;
