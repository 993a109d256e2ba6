//! The request handler: resolve the route, extract and validate the
//! operands, and shape the response. The one thing it leaves open is the
//! floating-point evaluation itself, which the caller performs between
//! `handle_request` and `respond_evaluated`.
use vstd::prelude::*;
use vstd::string::StringExecFns;
use crate::error::error_message;
use crate::number::{normal_decimal, normalize_number};
use crate::params::{MathParams, extract_spec};
use crate::response::{MathResult, Operation, operation_name, json_body};
use crate::router::{Route, route, route_spec};

verus! {

/// A finished HTTP response: status code and body text.
#[derive(Debug, Clone)]
pub struct Reply {
    pub status: u16,
    pub body: String,
}

/// What the service does with a request: answer it at once, or hand the two
/// validated operands out to be evaluated.
#[derive(Debug)]
pub enum Step {
    /// The response is complete.
    Done(Reply),
    /// The operands were accepted; the caller evaluates the operation on
    /// them and builds the response with `respond_evaluated`.
    Evaluate(Operation, MathParams),
}

/// Handle one request up to the point of arithmetic: route it, and on the
/// arithmetic routes extract and validate the operands.
pub fn handle_request(method: &str, path: &str, query: &str) -> (s: Step)
    ensures
        route_spec(method@, path@) == Route::NotFound ==> (s matches Step::Done(r) && r.status
            == 404 && r.body@ == Seq::<char>::empty()),
        route_spec(method@, path@) == Route::MethodNotAllowed ==> (s matches Step::Done(r)
            && r.status == 405 && r.body@ == Seq::<char>::empty()),
        route_spec(method@, path@) == Route::Hello ==> (s matches Step::Done(r) && r.status == 200
            && r.body@ == "Hello, world!"@),
        route_spec(method@, path@) == Route::Add || route_spec(method@, path@) == Route::Subtract
            ==> match extract_spec(query@) {
            Ok(ops) => s matches Step::Evaluate(op, p) && p.a_view() == ops.0 && p.b_view()
                == ops.1 && p.wf() && op == (if route_spec(method@, path@) == Route::Add {
                Operation::Addition
            } else {
                Operation::Subtraction
            }),
            Err(e) => s matches Step::Done(r) && r.status == 400 && r.body@ == error_message(e),
        },
{
    match route(method, path) {
        Route::NotFound => Step::Done(Reply { status: 404, body: String::new() }),
        Route::MethodNotAllowed => Step::Done(Reply { status: 405, body: String::new() }),
        Route::Hello => Step::Done(
            Reply { status: 200, body: String::from_str(crate::hello_world()) },
        ),
        Route::Add => handle_math(Operation::Addition, query),
        Route::Subtract => handle_math(Operation::Subtraction, query),
    }
}

/// Extraction and error shaping shared by the two arithmetic routes.
fn handle_math(op: Operation, query: &str) -> (s: Step)
    ensures
        match extract_spec(query@) {
            Ok(ops) => s matches Step::Evaluate(sop, p) && p.a_view() == ops.0 && p.b_view()
                == ops.1 && p.wf() && sop == op,
            Err(e) => s matches Step::Done(r) && r.status == 400 && r.body@ == error_message(e),
        },
{
    match MathParams::from_query(query) {
        Ok(p) => Step::Evaluate(op, p),
        Err(e) => Step::Done(Reply { status: 400, body: String::from_str(e.message()) }),
    }
}

/// Build the 200 response for an evaluated operation: the operands are
/// echoed in JSON number syntax (`normal_decimal`, which on accepted text
/// yields `json_decimal` form, see `lemma_normal_decimal_is_json`), and
/// `result` is the evaluator's rendering of the computed value.
pub fn respond_evaluated(op: Operation, params: &MathParams, result: String) -> (r: Reply)
    ensures
        r.status == 200,
        r.body@ == json_body(
            operation_name(op),
            normal_decimal(params.a_view()),
            normal_decimal(params.b_view()),
            result@,
        ),
{
    let rec = MathResult::new(
        op,
        normalize_number(params.a()),
        normalize_number(params.b()),
        result,
    );
    Reply { status: 200, body: rec.to_json() }
}

} // verus!
