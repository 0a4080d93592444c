//! Pulsar: the account and administration core of a community site.
//!
//! The modules decide what is looked up, what is written and what is shown. The
//! database, the session, the password hasher and the page renderer are driven
//! from outside: a function that needs one of them says what to ask, and takes
//! the reply as a plain value.

pub mod bootstrap;
pub mod controllers;
pub mod datetime;
pub mod models;
pub mod text;
