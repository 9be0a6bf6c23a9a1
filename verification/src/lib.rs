//! Classroom points ledger: a roster of students, the point awards recorded
//! against them, and the running total kept for each student.
//!
//! `ledger` states the store as mathematics and `laws` what holds of it;
//! `database` and `commands` are the store in memory and the commands on it;
//! `plan` holds the same commands as plans for a storage engine outside the
//! library, and `replay` shows that a plan leaves what its command leaves.

pub mod commands;
pub mod database;
pub mod defaults;
pub mod error;
pub mod laws;
pub mod ledger;
pub mod listing;
pub mod model;
pub mod order;
pub mod plan;
pub mod replay;
pub mod utils;
pub mod validate;
