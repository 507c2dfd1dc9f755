//! Mailing-list subscription core: subscriber lifecycle state machine and
//! newsletter fan-out engine.
//!
//! The library validates subscriber input, persists subscribers and their
//! confirmation tokens in a transactional in-memory store, promotes
//! subscribers from pending to confirmed on token redemption, and plans the
//! newsletter fan-out to confirmed subscribers behind HTTP Basic
//! authentication.

pub mod configuration;
pub mod domain;
pub mod email;
pub mod errors;
pub mod newsletter;
pub mod store;
pub mod subscriptions;
pub mod subscriptions_confirm;
pub mod text;
