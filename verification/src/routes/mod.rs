//! What the HTTP handlers decide; the handlers themselves belong to the
//! program.

pub mod subscriptions;

pub use subscriptions::{stored, subscribe, FormData, Next};
