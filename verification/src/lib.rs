//! Verified core of a small arithmetic web service: routing decisions,
//! query-parameter extraction and validation, error mapping, and JSON
//! response shaping. Floating-point evaluation and the HTTP transport are
//! left to the embedding program.
use vstd::prelude::*;

pub mod error;
pub mod handler;
pub mod number;
pub mod params;
pub mod query;
pub mod response;
pub mod router;
pub mod text;

pub use error::AppError;
pub use handler::{Reply, Step, handle_request, respond_evaluated};
pub use params::MathParams;
pub use response::{MathResult, Operation};
pub use router::Route;

verus! {

/// Body of the greeting endpoint.
pub fn hello_world() -> (r: &'static str)
    ensures
        r@ == "Hello, world!"@,
{
    "Hello, world!"
}

} // verus!
