//! Coercion: what a token denotes for each type of variable that a flag can
//! fill, and the capability of being set from a token.

use crate::decimal::{integer_within, parse_integer};
use vstd::prelude::*;
use vstd::string::StrSliceExecFns;
use vstd::string::StringExecFns;

verus! {

/// A value of one of the supported types, as specifications see it.
pub enum Scalar {
    Bool(bool),
    Int(int),
    Char(char),
    Text(Seq<char>),
}

/// The type of a variable, as far as coercion depends on it.
pub enum Kind {
    Bool,
    Integer { signed: bool, min: int, max: int },
    Char,
    Text,
}

/// The kind of an unsigned integer type with the given greatest value.
pub open spec fn unsigned(max: int) -> Kind {
    Kind::Integer { signed: false, min: 0, max }
}

/// The kind of a signed integer type with the given least and greatest values.
pub open spec fn signed(min: int, max: int) -> Kind {
    Kind::Integer { signed: true, min, max }
}

/// The text `true`.
pub open spec fn true_word() -> Seq<char> {
    seq!['t', 'r', 'u', 'e']
}

/// The text `false`.
pub open spec fn false_word() -> Seq<char> {
    seq!['f', 'a', 'l', 's', 'e']
}

/// What `token` denotes for a variable of the given kind, or `None` where it
/// is malformed for that kind.
///
/// A boolean reads `true` or `false`; an integer reads an optional sign and
/// decimal digits that stay within its range; a character reads a token of
/// exactly one character; text reads any token.
pub open spec fn coerce(kind: Kind, token: Seq<char>) -> Option<Scalar> {
    match kind {
        Kind::Bool => if token == true_word() {
            Some(Scalar::Bool(true))
        } else if token == false_word() {
            Some(Scalar::Bool(false))
        } else {
            None
        },
        Kind::Integer { signed, min, max } => match integer_within(token, signed, min, max) {
            Some(n) => Some(Scalar::Int(n)),
            None => None,
        },
        Kind::Char => if token.len() == 1 {
            Some(Scalar::Char(token[0]))
        } else {
            None
        },
        Kind::Text => Some(Scalar::Text(token)),
    }
}

/// The failure of a coercion: the token was malformed for the variable's type.
#[derive(Debug, Clone, Copy, PartialEq, Eq)]
pub struct Malformed;

/// A variable that a flag can fill: it can be set from a token.
pub trait ArgValue: Sized {
    /// The variable's present value.
    spec fn scalar(&self) -> Scalar;

    /// What a token denotes in this type, if anything.
    spec fn coerced(token: Seq<char>) -> Option<Scalar>;

    /// Sets the variable to what `input` denotes. Malformed input is refused
    /// and leaves the variable as it was.
    fn set_value(&mut self, input: &str) -> (outcome: Result<(), Malformed>)
        ensures
            match Self::coerced(input@) {
                Some(v) => outcome is Ok && final(self).scalar() == v,
                None => outcome is Err && *final(self) == *old(self),
            },
    ;
}

/// Compares two pieces of text.
pub fn same_text(a: &str, b: &str) -> (same: bool)
    ensures
        same == (a@ == b@),
{
    String::from_str(a) == String::from_str(b)
}

impl ArgValue for bool {
    open spec fn scalar(&self) -> Scalar {
        Scalar::Bool(*self)
    }

    open spec fn coerced(token: Seq<char>) -> Option<Scalar> {
        coerce(Kind::Bool, token)
    }

    fn set_value(&mut self, input: &str) -> (outcome: Result<(), Malformed>) {
        proof {
            reveal_strlit("true");
            reveal_strlit("false");
            assert("true"@ =~= true_word());
            assert("false"@ =~= false_word());
        }
        if same_text(input, "true") {
            *self = true;
            Ok(())
        } else if same_text(input, "false") {
            *self = false;
            Ok(())
        } else {
            Err(Malformed)
        }
    }
}

impl ArgValue for char {
    open spec fn scalar(&self) -> Scalar {
        Scalar::Char(*self)
    }

    open spec fn coerced(token: Seq<char>) -> Option<Scalar> {
        coerce(Kind::Char, token)
    }

    fn set_value(&mut self, input: &str) -> (outcome: Result<(), Malformed>) {
        if input.unicode_len() == 1 {
            *self = input.get_char(0);
            Ok(())
        } else {
            Err(Malformed)
        }
    }
}

impl ArgValue for String {
    open spec fn scalar(&self) -> Scalar {
        Scalar::Text(self@)
    }

    open spec fn coerced(token: Seq<char>) -> Option<Scalar> {
        coerce(Kind::Text, token)
    }

    fn set_value(&mut self, input: &str) -> (outcome: Result<(), Malformed>) {
        *self = String::from_str(input);
        Ok(())
    }
}

} // verus!
