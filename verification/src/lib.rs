//! Forum backend core: the background-job subsystem (a persisted work queue
//! drained by a pool of polling workers) together with the small pure rules
//! the request handlers rely on.
//!
//! Every function in this crate is verified with Verus. Contracts are stated
//! over mathematical views of the data (`Seq`, `int`, spec structs); the few
//! calls into other crates sit behind items whose contracts are assumed and
//! are documented as such.

pub mod auth;
mod clock;
pub mod config;
pub mod guardian;
pub mod jobs;
pub mod markdown;
pub mod middleware;
pub mod models;
pub mod moderation;
pub mod pagination;
pub mod search;
pub mod text;
