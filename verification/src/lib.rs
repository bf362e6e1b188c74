//! A concurrency-safe front end for the host's challenge/response
//! authentication stack.
//!
//! Clients submit a `(service, login)` pair and receive a [`Conversation`]:
//! an ordered stream of prompts and status messages together with a sink for
//! answers, driven to a terminal verdict by a pool of worker threads that
//! talk to the native authentication library.
//!
//! The decision logic lives here, verified: the builder and its defaults,
//! the classification of native conversation records, the per-record bridge
//! protocol, the name validation applied before any native call, and the
//! session state machine a worker follows from open to close.  Thread
//! spawning and the native calling convention are left to the embedding
//! program.

pub mod auth;
pub mod bridge;
pub mod channels;
pub mod config;
pub mod errors;
pub mod session;
pub mod messages;

pub use auth::{AuthRequest, Authenticator, ChatOutcome};
pub use bridge::{Conversation, ConversationContext};
pub use config::AuthenticatorBuilder;
pub use errors::Error;
pub use messages::Message;
