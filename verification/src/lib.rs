//! Grade statistics for a course-management backend.
//!
//! The heart of the crate is the statistics engine in [`stats`]: descriptive
//! statistics (sum, average, extrema, population variance) and a normalized
//! T-score over a population of scores, computed exactly over integers and
//! rational numbers ([`rat::Rat`]) so that every result is pinned down by its
//! contract. [`grades`] folds per-class scores into per-course totals, GPA
//! and a grade report; [`auth`] holds the session access decisions.

use vstd::prelude::*;

pub mod auth;
pub mod grades;
pub mod rat;
pub mod stats;

verus! {

} // verus!
