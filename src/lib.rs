//! Small verified building blocks: shapes, strings, enums, traits and a
//! word tally, each with a contract that pins down its result.

use vstd::prelude::*;

pub mod back_of_house;
pub mod branches;
pub mod collections;
pub mod enums;
pub mod error_handling;
pub mod functions;
pub mod generics;
pub mod hosting;
pub mod lifetimes;
pub mod ownership;
pub mod pair;
pub mod rectangles;
mod serving;
pub mod structs;
pub mod traits;
pub mod words;

verus! {

/// Serves an order that the kitchen has finished.
fn serve_order() {
}

} // verus!
