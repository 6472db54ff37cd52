//! The coordination core of a Spotify Connect playback daemon: backend
//! selection, mixer strategy, and the main loop's state machine.

pub mod backend;
pub mod credentials;
pub mod main_loop;
pub mod mixer;
pub mod setup;
pub mod theorems;
