//! The session and credential core of a small messaging service: registration
//! with salted password digests, login, a table of live sessions with idle
//! expiry, and the operations that go through a storage port.
pub mod app;
pub mod auth;
pub mod credentials;
pub mod db;
pub mod memory;
pub mod utils;

pub use app::{App, AuthError};
pub use auth::{Session, SessionStore};
pub use db::{Chat, DatabaseError, Device, Inserter, Invitation, Message, Retriever, User};
pub use memory::MemoryStore;
pub use utils::unixepoch;
