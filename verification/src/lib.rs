//! Client-side logic for an amateur-radio callsign lookup service.
//!
//! The crate validates and normalizes raw callsign strings, builds the
//! request URL for the fixed REST endpoint, coerces the textual fields of a
//! response into typed optional values, and classifies every failure into a
//! small closed error taxonomy.  The HTTP transport itself lives outside this
//! library; the functions here are pure and fully specified.

use vstd::prelude::*;

pub mod coerce;
pub mod error;
pub mod parsing;
pub mod text;
pub mod v1;

verus! {

} // verus!
