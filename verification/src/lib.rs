//! Decision logic of a story archiver: how a logged-in browsing session is
//! verified, which media addresses of the displayed frame are worth fetching,
//! when a fetched payload is accepted, and when a batch advances or stops.
//!
//! Text is handled as bytes throughout: addresses and page texts are UTF-8, and
//! every pattern searched for is ASCII, so a match on bytes is a match on text.

pub mod text;
pub mod url;
pub mod history;
pub mod fields;
pub mod srcset;
pub mod candidates;
pub mod wire;
pub mod plan;
pub mod naming;
pub mod validate;
pub mod frame;
pub mod batch;
pub mod auth;
pub mod locators;
pub mod login;
pub mod run;
pub mod session;
pub mod visit;
