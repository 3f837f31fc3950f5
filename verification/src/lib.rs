//! Connection-orchestration core of a game launcher: relay selection, the
//! auto-connect state machine, and versioned installation of the runtime
//! package, with every function carrying a machine-checked contract.

pub mod text;
pub mod digest;
pub mod archive;
pub mod settings;
pub mod servers;
pub mod relays;
pub mod steam;
pub mod presence;
pub mod byond;
pub mod runtime;
pub mod autoconnect;
pub mod singleplayer;
pub mod open_url;
pub mod wine;
pub mod wine_setup;
