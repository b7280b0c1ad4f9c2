//! A small client library for fetching a user's recent posts from a
//! social-media platform.
//!
//! The control flow of the whole program — load the two credentials,
//! authenticate by one of two flows, fetch one page of the timeline,
//! print it — is modelled as a state machine in [`machine`], so that its
//! decisions are verified.  The network calls themselves are performed by
//! the surrounding application, which feeds their outcomes back into the
//! machine as events.

pub mod error;
pub mod machine;
pub mod render;
pub mod trimming;
