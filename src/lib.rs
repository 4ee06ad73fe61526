//! Source annotation for images posted to chat channels and groups.
//!
//! The library holds the decisions of the background pipeline: which
//! matches of a perceptual-hash search become source links, how a media
//! album remembers the links it already shows, how the per-chat rate gate
//! is read and written, and what each queued job does next. Everything
//! that talks to the network, the queue or the stores lives with the
//! caller, which hands plain values in and takes plain values back.

pub mod text;
pub mod telegram;
pub mod sites;
pub mod matches;
pub mod ordering;
pub mod gate;
pub mod album;
pub mod resolver;
pub mod jobs;
pub mod channel;
pub mod discover;
