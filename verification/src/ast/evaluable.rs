//! Expressions and statements of a function body, as the compiler receives them.

use vstd::prelude::*;
use crate::common::{FunctionID, TypeRef};
use crate::errors::{LiteralToken, Location};

verus! {

/// An expression with the place in the source where it starts.
pub struct EvaluableToken {
    pub location: Location,
    pub token: EvaluableTokens,
}

/// The kinds of expression.
pub enum EvaluableTokens {
    /// A variable, by name.
    Name(String),
    /// A literal value.
    Literal(LiteralToken),
    /// `&e`: a reference to the value of `e`.
    Reference(Box<EvaluableToken>),
    /// `*e`: the value `e` refers to.
    Dereference(Box<EvaluableToken>),
    /// `lhs = rhs`: stores `rhs` where the reference `lhs` points. Has no value.
    Assign(Box<EvaluableToken>, Box<EvaluableToken>),
}

/// A statement of a function body.
pub enum LineTokens {
    /// `let name: type_ref = value;`
    Initialisation { name: String, type_ref: TypeRef, value: EvaluableToken },
    /// `if (condition) { body }`, then any `elif (condition) { body }` branches in order,
    /// then an optional `else { body }`.
    If {
        condition: EvaluableToken,
        body: Vec<LineTokens>,
        elifs: Vec<(EvaluableToken, Vec<LineTokens>)>,
        else_body: Option<Vec<LineTokens>>,
    },
    /// `while (condition) { body }`
    While { condition: EvaluableToken, body: Vec<LineTokens> },
    /// `return;` or `return value;`, at `location`.
    Return { location: Location, value: Option<EvaluableToken> },
    /// `break;`, at `location`.
    Break { location: Location },
    /// An expression evaluated for its effect, such as an assignment.
    NoOp(EvaluableToken),
    /// A type query, at `location`: reports the type of `querying` to the user.
    Typequery { location: Location, querying: EvaluableToken },
    /// A compilation marker, a debugging aid: its text is left in the assembly as a
    /// comment.
    Marker(String),
}

/// A function as the compiler receives it: its id, parameters, return type, statements,
/// and where its body ends.
pub struct FunctionToken {
    pub id: FunctionID,
    pub parameters: Vec<(String, TypeRef)>,
    pub return_type: Option<TypeRef>,
    pub lines: Vec<LineTokens>,
    pub end_location: Location,
}

} // verus!
