//! Typed client-side bindings for a small set of desktop-integration IPC
//! interfaces: GameMode activation, per-application secret retrieval,
//! read-only settings lookup, and Flatpak sandbox spawning.
//!
//! Each module describes the wire contract of one remote interface — its
//! method names, argument signatures, and the encodings of the small value
//! types that travel across the bus — and proves the properties of those
//! encodings: status enums round-trip through their integer wire values,
//! option dictionaries round-trip through their entry lists, and the
//! namespace filter of the settings interface treats an empty filter as
//! matching everything. The bus transport itself, connection management,
//! and message (de)serialization are owned by an external bus client and
//! stay outside this library.

pub mod flatpak;
pub mod game_mode;
pub mod secret;
pub mod settings;
