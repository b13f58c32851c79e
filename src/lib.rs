//! Double opt-in confirmation for a newsletter: token and subscriber stores,
//! the confirmation state machine, and the mapping of its outcomes to HTTP
//! status codes.

pub mod configuration;
pub mod domain;
pub mod store;
pub mod subscriptions_confirm;
