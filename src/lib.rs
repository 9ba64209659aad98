//! A read-only user directory served over HTTP: the user record, the rule
//! that turns the outcome of the listing query into a response, and the
//! start-up sequence of the service.

pub mod listing;
pub mod startup;
pub mod user;
