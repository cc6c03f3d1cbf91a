//! Pieces of the configuration expression language: its operators, its
//! string values, and rate settings.
use vstd::prelude::*;
use vstd::utf8::encode_utf8;

verus! {

/// A binary operator of an expression.
#[derive(Debug, PartialEq, Eq, Clone, Copy, Structural)]
pub enum BinaryOperator {
    Add,
    Subtract,
    Multiply,
    Divide,
    And,
    Or,
    Xor,
    Eq,
    Ne,
    Lt,
    Le,
    Gt,
    Ge,
}

/// A unary operator of an expression.
#[derive(Debug, PartialEq, Eq, Clone, Copy, Structural)]
pub enum UnaryOperator {
    Not,
    Minus,
}

/// The constant set of an expression that admits no named constants.
#[derive(Debug, PartialEq, Eq, Clone, Copy, Structural)]
pub struct NoConstants;

/// A string value of an expression: owned, or borrowed from the text it
/// was read from.
#[derive(Debug, Clone)]
pub enum StringCow<'x> {
    Owned(String),
    Borrowed(&'x str),
}

impl<'x> View for StringCow<'x> {
    type V = Seq<char>;

    open spec fn view(&self) -> Seq<char> {
        match self {
            StringCow::Owned(s) => s@,
            StringCow::Borrowed(s) => s@,
        }
    }
}

impl<'x> StringCow<'x> {
    /// The characters, as a string slice.
    pub fn as_str(&self) -> (r: &str)
        ensures
            r@ == self@,
    {
        match self {
            StringCow::Owned(s) => s.as_str(),
            StringCow::Borrowed(s) => s,
        }
    }

    /// The UTF-8 bytes.
    pub fn as_bytes(&self) -> (r: &[u8])
        ensures
            r@ == encode_utf8(self@),
    {
        match self {
            StringCow::Owned(s) => s.as_str().as_bytes(),
            StringCow::Borrowed(s) => s.as_bytes(),
        }
    }

    pub fn is_empty(&self) -> (r: bool)
        ensures
            r == (self@.len() == 0),
    {
        match self {
            StringCow::Owned(s) => s.as_str().is_empty(),
            StringCow::Borrowed(s) => s.is_empty(),
        }
    }

    /// The length in bytes.
    pub fn len(&self) -> (r: usize)
        ensures
            r == encode_utf8(self@).len(),
    {
        self.as_bytes().len()
    }

    /// The characters, as an owned string.
    pub fn into_owned(self) -> (r: String)
        ensures
            r@ == self@,
    {
        match self {
            StringCow::Owned(s) => s,
            StringCow::Borrowed(s) => s.to_owned(),
        }
    }
}

/// A rate limit: at most `requests` in each period of `period_ms`
/// milliseconds.
#[derive(Debug, PartialEq, Eq, Clone, Copy, Structural)]
pub struct Rate {
    pub requests: u64,
    pub period_ms: u64,
}

impl Rate {
    /// The rate given by a pair of integers, requests then milliseconds;
    /// both must be positive.
    pub fn from_pair(requests: i64, period: i64) -> (r: Option<Rate>)
        ensures
            r == if requests > 0 && period > 0 {
                Some(Rate { requests: requests as u64, period_ms: period as u64 })
            } else {
                None
            },
    {
        if requests > 0 && period > 0 {
            Some(Rate { requests: requests as u64, period_ms: period as u64 })
        } else {
            None
        }
    }
}

} // verus!
