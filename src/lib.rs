//! Per-guild speech sessions for a voice-chat reading bot: the registry of
//! live sessions, the ordered utterance queue of each session with its
//! worker state machine, and the decoding and validation of slash commands.
pub mod command;
pub mod guarantees;
pub mod registry;
pub mod session;
