//! Reports continuous-integration status for a user's open pull requests.
//!
//! The verified core is a three-stage resolution pipeline: discover open
//! pull requests authored by a user, resolve each one to its head commit,
//! and resolve that commit to an aggregate CI state. Network transport is
//! an external collaborator: it hands the library already-parsed JSON
//! values and receives API paths to fetch.

pub mod json;
pub mod pipeline;
pub mod record;
pub mod request;
pub mod resolve;
pub mod search;
pub mod text;
