//! A small actor-style domain model for academic record keeping.
//!
//! Four actors cooperate in a chain: a roster coordinator ([`john::John`])
//! forwards its roster to a gradebook ([`brightspace::Brightspace`]), which
//! forwards to the authoritative registry ([`admin::Admin`]); a grade booster
//! ([`booster::Booster`]) rewrites the registry's grades. Each module holds
//! one actor's state together with the verified handlers for its messages:
//! the event loops, queues and reply channels that drive the handlers are
//! ordinary async plumbing and live outside this crate.
//!
//! Grades are kept as integers in hundredths of a grade point, so that the
//! pass/fail rules can be stated and proved exactly.

pub mod admin;
pub mod booster;
pub mod brightspace;
pub mod career;
pub mod grades;
pub mod john;
