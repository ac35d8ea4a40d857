//! Source locations and the errors reported by the code generator.

use vstd::prelude::*;
use vstd::string::StringExecFns;
use crate::text::{append_int, int_text};

verus! {

/// A position in a source file, or a builtin item with no source.
#[derive(Clone, Copy, Debug, PartialEq, Eq, Structural)]
pub struct Location {
    pub file_id: Option<usize>,
    pub line: usize,
    pub offset: usize,
}

impl Location {
    /// The location given to builtin items.
    pub open spec fn builtin_spec() -> Location {
        Location { file_id: None, line: 0, offset: 0 }
    }

    /// The location given to builtin items.
    pub fn builtin() -> (l: Location)
        ensures
            l == (Location { file_id: None, line: 0, offset: 0 }),
    {
        Location { file_id: None, line: 0, offset: 0 }
    }
}

/// The value of a literal in the source.
#[derive(Clone, Copy, Debug, PartialEq, Eq, Structural)]
pub enum LiteralTokens {
    Bool(bool),
    Int(i128),
}

/// A literal together with where it was written.
#[derive(Clone, Copy, Debug, PartialEq, Eq, Structural)]
pub struct LiteralToken {
    pub location: Location,
    pub literal: LiteralTokens,
}

impl LiteralToken {
    pub fn new(location: Location, literal: LiteralTokens) -> (t: LiteralToken)
        ensures
            t == (LiteralToken { location, literal }),
    {
        LiteralToken { location, literal }
    }

    pub fn literal(&self) -> (r: &LiteralTokens)
        ensures
            *r == self.literal,
    {
        &self.literal
    }

    pub fn location(&self) -> (r: &Location)
        ensures
            *r == self.location,
    {
        &self.location
    }
}

/// An error in the compiler step, excluding errors covered in `EvalErrs`.
pub enum CompErrs {
    IntLiteralExceedsMax(i128, i128),
    IntLiteralBelowMin(i128, i128),
    ExpectedReturn(String),
    ExpectedReturnType(String, String),
    ExpectedSomeReturn(String),
    ExpectedNoReturn,
    CannotBreak,
}

/// The message shown for a compiler error.
pub open spec fn comp_errs_text(e: CompErrs) -> Seq<char> {
    match e {
        CompErrs::IntLiteralExceedsMax(v, m) => "Int literal ("@ + int_text(v as int)
            + ") exceeds maximum value ("@ + int_text(m as int) + ") for type"@,
        CompErrs::IntLiteralBelowMin(v, m) => "Int literal ("@ + int_text(v as int)
            + ") below minimum value ("@ + int_text(m as int) + ") for type"@,
        CompErrs::ExpectedReturn(t) => "Expected return ("@ + t@ + ")"@,
        CompErrs::ExpectedReturnType(e, f) => "Expected return type ("@ + e@ + ") but found ("@
            + f@ + ")"@,
        CompErrs::ExpectedSomeReturn(t) => "Expected return type ("@ + t@ + "), not none"@,
        CompErrs::ExpectedNoReturn => "Expected return with no value"@,
        CompErrs::CannotBreak => "Cannot break - not in a loop"@,
    }
}

impl CompErrs {
    /// The message shown to the user for this error.
    pub fn message(&self) -> (s: String)
        ensures
            s@ == comp_errs_text(*self),
    {
        let mut s = String::new();
        match self {
            CompErrs::IntLiteralExceedsMax(v, m) => {
                s.append("Int literal (");
                append_int(&mut s, *v);
                s.append(") exceeds maximum value (");
                append_int(&mut s, *m);
                s.append(") for type");
            },
            CompErrs::IntLiteralBelowMin(v, m) => {
                s.append("Int literal (");
                append_int(&mut s, *v);
                s.append(") below minimum value (");
                append_int(&mut s, *m);
                s.append(") for type");
            },
            CompErrs::ExpectedReturn(t) => {
                s.append("Expected return (");
                s.append(t.as_str());
                s.append(")");
            },
            CompErrs::ExpectedReturnType(e, f) => {
                s.append("Expected return type (");
                s.append(e.as_str());
                s.append(") but found (");
                s.append(f.as_str());
                s.append(")");
            },
            CompErrs::ExpectedSomeReturn(t) => {
                s.append("Expected return type (");
                s.append(t.as_str());
                s.append("), not none");
            },
            CompErrs::ExpectedNoReturn => {
                s.append("Expected return with no value");
            },
            CompErrs::CannotBreak => {
                s.append("Cannot break - not in a loop");
            },
        }
        proof {
            assert(s@ =~= comp_errs_text(*self));
        }
        s
    }
}

/// An error while evaluating an expression.
pub enum EvalErrs {
    OpWrongReturnType(String, String),
    ExpectedDifferentType(String, String),
    ExpectedNotNone,
    NameNotFound(String),
    ExpectedReference(String),
    BadIndirection(usize, usize),
    ExpectedType(String),
    ExpectedFunctionName,
    FunctionMustBeCalled(String),
    CannotEvalStandaloneType(String),
}

/// The kinds of error the code generator reports.
pub enum ErrorKind {
    Comp(CompErrs),
    Eval(EvalErrs),
}

/// An error with the location it refers to.
pub struct WErr {
    pub error: ErrorKind,
    pub location: Location,
}

impl WErr {
    /// An error at a location.
    pub fn n(error: ErrorKind, location: Location) -> (e: WErr)
        ensures
            e == (WErr { error, location }),
    {
        WErr { error, location }
    }
}

} // verus!
