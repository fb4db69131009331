//! Client-side core of a disposable-email provider's HTTP API: mailbox
//! identities, the fixed domain registry, query-string construction, strict
//! timestamp handling, and the list-then-read message fetch pipeline.
//!
//! All network traffic is left to the caller: each operation either computes
//! a query string for the caller to issue, or consumes the decoded response
//! the caller obtained, so that everything between the two — normalization,
//! ordering, and error propagation — is stated in contracts.
#![allow(unused_imports)]

pub mod digits;
pub mod domain;
pub mod error;
pub mod ident;
pub mod message;
pub mod pipeline;
pub mod query;
pub mod randgen;
pub mod timestamp;

pub use domain::Domain;
pub use error::TransportError;
pub use ident::Tempmail;
pub use message::Attachment;
pub use message::Message;
pub use message::MessageWire;
pub use message::RawMessage;
pub use message::RawMessageWire;
pub use pipeline::FetchAction;
pub use pipeline::FetchPhase;
pub use pipeline::FetchSession;
pub use timestamp::Timestamp;
