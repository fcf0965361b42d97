//! Provisioning and launch logic for a locally cached ChromeDriver.
//!
//! The library decides, for a host platform and a detected Chrome version,
//! which download artifact is needed, how the version-stamped cache under the
//! user's cache directory is kept consistent, and how the driver child
//! process is supervised through its readiness handshake.  All decisions are
//! pure functions with contracts; the surrounding process, network and
//! filesystem work is left to the embedding application, which drives the
//! supervisor state machine event by event.

pub mod cache;
pub mod caps;
pub mod errors;
pub mod platform;
pub mod supervisor;
pub mod text;
pub mod version;
