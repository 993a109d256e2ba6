//! Response shaping: the operation tag and the JSON body built from the
//! operation name, the echoed operands, and the result text.
use vstd::prelude::*;
use vstd::string::{StrSliceExecFns, StringExecFns};

verus! {

/// The two arithmetic operations the service offers.
#[derive(Clone, Copy, Debug, PartialEq, Eq, Structural)]
pub enum Operation {
    Addition,
    Subtraction,
}

/// The name under which an operation appears in the JSON body.
pub open spec fn operation_name(op: Operation) -> Seq<char> {
    match op {
        Operation::Addition => "addition"@,
        Operation::Subtraction => "subtraction"@,
    }
}

impl Operation {
    /// The operation's JSON name: `addition` or `subtraction`.
    pub fn name(&self) -> (r: &'static str)
        ensures
            r@ == operation_name(*self),
    {
        match self {
            Operation::Addition => "addition",
            Operation::Subtraction => "subtraction",
        }
    }
}

/// The body of a successful arithmetic response: a JSON object with the
/// operation name and the three numbers, exactly in this shape.
pub open spec fn json_body(op: Seq<char>, a: Seq<char>, b: Seq<char>, result: Seq<char>) -> Seq<
    char,
> {
    "{\"operation\":\""@ + op + "\",\"a\":"@ + a + ",\"b\":"@ + b + ",\"result\":"@ + result + "}"@
}

/// A successful arithmetic response: the operation name, the echoed
/// operands, and the result, each as the text that appears in the body.
#[derive(Debug)]
pub struct MathResult {
    operation: String,
    a: String,
    b: String,
    result: String,
}

impl MathResult {
    /// The operation name of this response.
    pub closed spec fn operation_view(&self) -> Seq<char> {
        self.operation@
    }

    /// The echoed text of operand `a`.
    pub closed spec fn a_view(&self) -> Seq<char> {
        self.a@
    }

    /// The echoed text of operand `b`.
    pub closed spec fn b_view(&self) -> Seq<char> {
        self.b@
    }

    /// The text of the computed result.
    pub closed spec fn result_view(&self) -> Seq<char> {
        self.result@
    }

    /// Package an operation and the three number texts into a response
    /// record.
    pub fn new(op: Operation, a: String, b: String, result: String) -> (r: MathResult)
        ensures
            r.operation_view() == operation_name(op),
            r.a_view() == a@,
            r.b_view() == b@,
            r.result_view() == result@,
    {
        MathResult { operation: String::from_str(op.name()), a, b, result }
    }

    /// Render the record as its JSON text.
    pub fn to_json(&self) -> (s: String)
        ensures
            s@ == json_body(self.operation_view(), self.a_view(), self.b_view(), self.result_view()),
    {
        let mut s = String::from_str("{\"operation\":\"");
        s.append(self.operation.as_str());
        s.append("\",\"a\":");
        s.append(self.a.as_str());
        s.append(",\"b\":");
        s.append(self.b.as_str());
        s.append(",\"result\":");
        s.append(self.result.as_str());
        s.append("}");
        proof {
            assert(s@ =~= json_body(
                self.operation_view(),
                self.a_view(),
                self.b_view(),
                self.result_view(),
            ));
        }
        s
    }
}

} // verus!
