//! Daily billing summary pipeline.
//!
//! The library computes an account's estimated daily cost, broken down per
//! service, and composes a notification message for a chat webhook.  All
//! decisions of the pipeline -- which backend requests to issue, how to
//! interpret each reply, how to compose the outgoing message, and how a
//! failing step aborts the run -- are verified here over plain values.
//! Money is carried as whole cents.  The surrounding binary performs the
//! actual network calls and feeds the replies back in.

pub mod laws;
pub mod metrics;
pub mod model;
pub mod notify;
pub mod pipeline;
pub mod secret;
pub mod text;
pub mod timefmt;
