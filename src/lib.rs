//! Live game-state observation for a single game: locating values in the
//! game's memory, turning polled samples into edge-triggered observations,
//! decoding the current stage, and deciding when the run timer should start,
//! split, pause or resume.
pub mod watcher;
pub mod stage;
pub mod decode;
pub mod engine;
pub mod signature;
pub mod pointer;
pub mod resolver;
