//! Operators of the language.

use vstd::prelude::*;
use crate::text::str_equal;

verus! {

/// An operator symbol.
#[derive(Clone, Copy, Debug, PartialEq, Eq, Structural)]
pub enum Operator {
    Add,
    Subtract,
    Product,
    Divide,
    Greater,
    Less,
    GreaterEqual,
    LessEqual,
    Equal,
    NotEqual,
    Modulo,
    Or,
    And,
    Not,
    HeapAlloc,
    HeapDealloc,
}

/// Every character that can start or continue an operator.
pub const ALL_SYMBOLS: [char; 13] = ['+', '-', '*', '/', '>', '<', '=', '|', '&', '!', '%', '^', '¬'];

/// The operator spelled `string`, if any.
pub open spec fn operator_of(string: Seq<char>) -> Option<Operator> {
    if string == "+"@ {
        Some(Operator::Add)
    } else if string == "-"@ {
        Some(Operator::Subtract)
    } else if string == "*"@ {
        Some(Operator::Product)
    } else if string == "/"@ {
        Some(Operator::Divide)
    } else if string == ">"@ {
        Some(Operator::Greater)
    } else if string == "<"@ {
        Some(Operator::Less)
    } else if string == ">="@ {
        Some(Operator::GreaterEqual)
    } else if string == "<="@ {
        Some(Operator::LessEqual)
    } else if string == "=="@ {
        Some(Operator::Equal)
    } else if string == "!="@ {
        Some(Operator::NotEqual)
    } else if string == "|"@ {
        Some(Operator::Or)
    } else if string == "&"@ {
        Some(Operator::And)
    } else if string == "!"@ {
        Some(Operator::Not)
    } else if string == "%"@ {
        Some(Operator::Modulo)
    } else if string == "^"@ {
        Some(Operator::HeapAlloc)
    } else if string == "¬"@ {
        Some(Operator::HeapDealloc)
    } else {
        None
    }
}

impl Operator {
    /// The operator spelled `string`, if any.
    pub fn get_operator(string: &str) -> (o: Option<Operator>)
        ensures
            o == operator_of(string@),
    {
        if str_equal(string, "+") {
            Some(Operator::Add)
        } else if str_equal(string, "-") {
            Some(Operator::Subtract)
        } else if str_equal(string, "*") {
            Some(Operator::Product)
        } else if str_equal(string, "/") {
            Some(Operator::Divide)
        } else if str_equal(string, ">") {
            Some(Operator::Greater)
        } else if str_equal(string, "<") {
            Some(Operator::Less)
        } else if str_equal(string, ">=") {
            Some(Operator::GreaterEqual)
        } else if str_equal(string, "<=") {
            Some(Operator::LessEqual)
        } else if str_equal(string, "==") {
            Some(Operator::Equal)
        } else if str_equal(string, "!=") {
            Some(Operator::NotEqual)
        } else if str_equal(string, "|") {
            Some(Operator::Or)
        } else if str_equal(string, "&") {
            Some(Operator::And)
        } else if str_equal(string, "!") {
            Some(Operator::Not)
        } else if str_equal(string, "%") {
            Some(Operator::Modulo)
        } else if str_equal(string, "^") {
            Some(Operator::HeapAlloc)
        } else if str_equal(string, "¬") {
            Some(Operator::HeapDealloc)
        } else {
            None
        }
    }
}

} // verus!
