//! Keywords of the language.

use vstd::prelude::*;
use crate::text::str_equal;

verus! {

/// A reserved word of the language.
#[derive(Clone, Copy, Debug, PartialEq, Eq, Structural)]
pub enum Keyword {
    Mod,
    Struct,
    Impl,
    Fn,
    If,
    Elif,
    Else,
    While,
    Break,
    Continue,
    Let,
    Return,
}

/// The text of the `mod` keyword.
pub const MOD_KEYWORD: &'static str = "mod";

/// The keyword spelled `name`, if any.
pub open spec fn keyword_of(name: Seq<char>) -> Option<Keyword> {
    if name == "mod"@ {
        Some(Keyword::Mod)
    } else if name == "struct"@ {
        Some(Keyword::Struct)
    } else if name == "impl"@ {
        Some(Keyword::Impl)
    } else if name == "fn"@ {
        Some(Keyword::Fn)
    } else if name == "if"@ {
        Some(Keyword::If)
    } else if name == "elif"@ {
        Some(Keyword::Elif)
    } else if name == "else"@ {
        Some(Keyword::Else)
    } else if name == "while"@ {
        Some(Keyword::While)
    } else if name == "break"@ {
        Some(Keyword::Break)
    } else if name == "continue"@ {
        Some(Keyword::Continue)
    } else if name == "let"@ {
        Some(Keyword::Let)
    } else if name == "return"@ {
        Some(Keyword::Return)
    } else {
        None
    }
}

impl Keyword {
    /// The keyword spelled `name`, if any.
    pub fn get_enum(name: &str) -> (k: Option<Keyword>)
        ensures
            k == keyword_of(name@),
    {
        proof {
            assert(MOD_KEYWORD@ == "mod"@);
        }
        if str_equal(name, MOD_KEYWORD) {
            Some(Keyword::Mod)
        } else if str_equal(name, "struct") {
            Some(Keyword::Struct)
        } else if str_equal(name, "impl") {
            Some(Keyword::Impl)
        } else if str_equal(name, "fn") {
            Some(Keyword::Fn)
        } else if str_equal(name, "if") {
            Some(Keyword::If)
        } else if str_equal(name, "elif") {
            Some(Keyword::Elif)
        } else if str_equal(name, "else") {
            Some(Keyword::Else)
        } else if str_equal(name, "while") {
            Some(Keyword::While)
        } else if str_equal(name, "break") {
            Some(Keyword::Break)
        } else if str_equal(name, "continue") {
            Some(Keyword::Continue)
        } else if str_equal(name, "let") {
            Some(Keyword::Let)
        } else if str_equal(name, "return") {
            Some(Keyword::Return)
        } else {
            None
        }
    }
}

} // verus!
