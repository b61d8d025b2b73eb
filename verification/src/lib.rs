//! Verified core of a client for a mail provider's HTTP API.
//!
//! The library holds the parts of the client with real state and failure
//! semantics: the bearer-authentication and token-refresh logic, the
//! status-code retry policy, the cursor-driven paginator, and the multi-step
//! compose-and-send workflow. All network I/O is left to the caller: the
//! library computes which call to make next and what its payload must be,
//! and consumes the plain values the caller hands back.

pub mod attachment;
pub mod auth;
pub mod body;
pub mod codec;
pub mod compose;
pub mod email;
pub mod html;
pub mod http;
pub mod list_attachments;
pub mod list_messages;
pub mod me;
pub mod message;
pub mod page;
pub mod paginate;
pub mod recipient;
pub mod retry;
