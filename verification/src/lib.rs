//! Connection lifecycle and schema-migration core for an embedded,
//! transactional settings database.
//!
//! The crate models the startup pipeline of a durable storage layer:
//! a storage location is resolved from a root directory and a release
//! channel, a freshly opened connection is configured with durability
//! pragmas, and an ordered registry of versioned schema migrations is
//! applied exactly once, each step inside its own transaction.  The
//! decisions of that pipeline live here as verified code; the embedded
//! SQL engine that carries them out is an external collaborator driven
//! through a state machine of actions and events.

pub mod facade;
pub mod initializer;
pub mod location;
pub mod migrations;
pub mod text;
