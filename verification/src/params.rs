//! Parameter extraction: the `a` and `b` operands of an arithmetic request,
//! taken from the query string and validated against the number grammar.
use vstd::prelude::*;
use vstd::string::StrSliceExecFns;
use crate::error::AppError;
use crate::number::{decimal_number, is_decimal_number};
use crate::query::{query_value, query_get};

verus! {

/// The two operands of an arithmetic request, held as validated decimal
/// text, form-decoded from the query string.
#[derive(Debug)]
pub struct MathParams {
    a: String,
    b: String,
}

/// What parameter extraction yields on query `q`: the texts of the two
/// operands, or the error the request is rejected with. A key's value is
/// its first binding in the query string.
pub open spec fn extract_spec(q: Seq<char>) -> Result<(Seq<char>, Seq<char>), AppError> {
    match (query_value(q, "a"@), query_value(q, "b"@)) {
        (Some(av), Some(bv)) => {
            if decimal_number(av) && decimal_number(bv) {
                Ok((av, bv))
            } else {
                Err(AppError::InvalidNumber)
            }
        },
        _ => Err(AppError::MissingParameters),
    }
}

/// A query with both keys bound to decimal text is accepted, with exactly
/// those texts as operands.
pub proof fn lemma_valid_parameters_accepted(q: Seq<char>, av: Seq<char>, bv: Seq<char>)
    requires
        query_value(q, "a"@) == Some(av),
        query_value(q, "b"@) == Some(bv),
        decimal_number(av),
        decimal_number(bv),
    ensures
        extract_spec(q) == Ok::<(Seq<char>, Seq<char>), AppError>((av, bv)),
{
}

/// A query missing either key is rejected with `MissingParameters`.
pub proof fn lemma_missing_parameters(q: Seq<char>)
    requires
        query_value(q, "a"@) is None || query_value(q, "b"@) is None,
    ensures
        extract_spec(q) == Err::<(Seq<char>, Seq<char>), AppError>(AppError::MissingParameters),
{
}

/// A query with both keys bound, one of them to non-numeric text, is
/// rejected with `InvalidNumber`.
pub proof fn lemma_invalid_number(q: Seq<char>)
    requires
        query_value(q, "a"@) is Some,
        query_value(q, "b"@) is Some,
        !decimal_number(query_value(q, "a"@)->0) || !decimal_number(query_value(q, "b"@)->0),
    ensures
        extract_spec(q) == Err::<(Seq<char>, Seq<char>), AppError>(AppError::InvalidNumber),
{
}

impl MathParams {
    /// The text of operand `a`.
    pub closed spec fn a_view(&self) -> Seq<char> {
        self.a@
    }

    /// The text of operand `b`.
    pub closed spec fn b_view(&self) -> Seq<char> {
        self.b@
    }

    /// Both operands hold decimal-number text.
    pub open spec fn wf(&self) -> bool {
        decimal_number(self.a_view()) && decimal_number(self.b_view())
    }

    /// Operand `a` as text.
    pub fn a(&self) -> (r: &str)
        ensures
            r@ == self.a_view(),
    {
        self.a.as_str()
    }

    /// Operand `b` as text.
    pub fn b(&self) -> (r: &str)
        ensures
            r@ == self.b_view(),
    {
        self.b.as_str()
    }

    /// Extract and validate the operands from a raw query string: both `a`
    /// and `b` must be present, and both must be decimal-number text.
    pub fn from_query(query: &str) -> (r: Result<MathParams, AppError>)
        ensures
            match r {
                Ok(p) => extract_spec(query@) == Ok::<(Seq<char>, Seq<char>), AppError>(
                    (p.a_view(), p.b_view()),
                ) && p.wf(),
                Err(e) => extract_spec(query@) == Err::<(Seq<char>, Seq<char>), AppError>(e),
            },
    {
        let av = query_get(query, "a");
        let bv = query_get(query, "b");
        match (av, bv) {
            (Some(a), Some(b)) => {
                if is_decimal_number(a.as_str()) && is_decimal_number(b.as_str()) {
                    Ok(MathParams { a, b })
                } else {
                    Err(AppError::InvalidNumber)
                }
            },
            _ => Err(AppError::MissingParameters),
        }
    }
}

} // verus!
