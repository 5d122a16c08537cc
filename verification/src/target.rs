//! The variable that a flag fills: a mutable borrow of a caller's variable
//! of one of the supported types.

use crate::engine::{settle, token_views};
use crate::value::{coerce, signed, unsigned, ArgValue, Kind, Malformed, Scalar};
use vstd::prelude::*;

verus! {

/// A borrowed variable, by its type.
#[derive(Debug)]
pub enum Target<'a> {
    Bool(&'a mut bool),
    U8(&'a mut u8),
    U16(&'a mut u16),
    U32(&'a mut u32),
    U64(&'a mut u64),
    U128(&'a mut u128),
    Usize(&'a mut usize),
    I8(&'a mut i8),
    I16(&'a mut i16),
    I32(&'a mut i32),
    I64(&'a mut i64),
    I128(&'a mut i128),
    Isize(&'a mut isize),
    Char(&'a mut char),
    Text(&'a mut String),
}

impl<'a> Target<'a> {
    /// The kind of the variable.
    pub open spec fn kind(self) -> Kind {
        match self {
            Target::Bool(_) => Kind::Bool,
            Target::U8(_) => unsigned(u8::MAX as int),
            Target::U16(_) => unsigned(u16::MAX as int),
            Target::U32(_) => unsigned(u32::MAX as int),
            Target::U64(_) => unsigned(u64::MAX as int),
            Target::U128(_) => unsigned(u128::MAX as int),
            Target::Usize(_) => unsigned(usize::MAX as int),
            Target::I8(_) => signed(i8::MIN as int, i8::MAX as int),
            Target::I16(_) => signed(i16::MIN as int, i16::MAX as int),
            Target::I32(_) => signed(i32::MIN as int, i32::MAX as int),
            Target::I64(_) => signed(i64::MIN as int, i64::MAX as int),
            Target::I128(_) => signed(i128::MIN as int, i128::MAX as int),
            Target::Isize(_) => signed(isize::MIN as int, isize::MAX as int),
            Target::Char(_) => Kind::Char,
            Target::Text(_) => Kind::Text,
        }
    }

    /// The present value of the variable.
    pub open spec fn value(self) -> Scalar {
        match self {
            Target::Bool(place) => place.scalar(),
            Target::U8(place) => place.scalar(),
            Target::U16(place) => place.scalar(),
            Target::U32(place) => place.scalar(),
            Target::U64(place) => place.scalar(),
            Target::U128(place) => place.scalar(),
            Target::Usize(place) => place.scalar(),
            Target::I8(place) => place.scalar(),
            Target::I16(place) => place.scalar(),
            Target::I32(place) => place.scalar(),
            Target::I64(place) => place.scalar(),
            Target::I128(place) => place.scalar(),
            Target::Isize(place) => place.scalar(),
            Target::Char(place) => place.scalar(),
            Target::Text(place) => place.scalar(),
        }
    }

    /// Sets the variable to what `input` denotes for its type. Malformed
    /// input is refused and leaves the variable as it was. The borrow stays
    /// on the same variable.
    pub fn set_value(&mut self, input: &str) -> (outcome: Result<(), Malformed>)
        ensures
            // the borrow stays on the same variable
            match (*old(self), *final(self)) {
                (Target::Bool(was), Target::Bool(now)) => *final(was) == *final(now),
                (Target::U8(was), Target::U8(now)) => *final(was) == *final(now),
                (Target::U16(was), Target::U16(now)) => *final(was) == *final(now),
                (Target::U32(was), Target::U32(now)) => *final(was) == *final(now),
                (Target::U64(was), Target::U64(now)) => *final(was) == *final(now),
                (Target::U128(was), Target::U128(now)) => *final(was) == *final(now),
                (Target::Usize(was), Target::Usize(now)) => *final(was) == *final(now),
                (Target::I8(was), Target::I8(now)) => *final(was) == *final(now),
                (Target::I16(was), Target::I16(now)) => *final(was) == *final(now),
                (Target::I32(was), Target::I32(now)) => *final(was) == *final(now),
                (Target::I64(was), Target::I64(now)) => *final(was) == *final(now),
                (Target::I128(was), Target::I128(now)) => *final(was) == *final(now),
                (Target::Isize(was), Target::Isize(now)) => *final(was) == *final(now),
                (Target::Char(was), Target::Char(now)) => *final(was) == *final(now),
                (Target::Text(was), Target::Text(now)) => *final(was) == *final(now),
                _ => false,
            },
            match coerce(old(self).kind(), input@) {
                Some(v) => outcome is Ok && final(self).value() == v,
                None => outcome is Err && final(self).value() == old(self).value(),
            },
    {
        match self {
            Target::Bool(place) => (**place).set_value(input),
            Target::U8(place) => (**place).set_value(input),
            Target::U16(place) => (**place).set_value(input),
            Target::U32(place) => (**place).set_value(input),
            Target::U64(place) => (**place).set_value(input),
            Target::U128(place) => (**place).set_value(input),
            Target::Usize(place) => (**place).set_value(input),
            Target::I8(place) => (**place).set_value(input),
            Target::I16(place) => (**place).set_value(input),
            Target::I32(place) => (**place).set_value(input),
            Target::I64(place) => (**place).set_value(input),
            Target::I128(place) => (**place).set_value(input),
            Target::Isize(place) => (**place).set_value(input),
            Target::Char(place) => (**place).set_value(input),
            Target::Text(place) => (**place).set_value(input),
        }
    }

    /// Coerces the tokens into the variable one after the other, first to
    /// last. Malformed tokens are passed over, so the variable ends with what
    /// the last well-formed token denotes. The borrow stays on the same
    /// variable.
    pub fn assign(&mut self, tokens: &Vec<String>)
        ensures
            // the borrow stays on the same variable
            match (*old(self), *final(self)) {
                (Target::Bool(was), Target::Bool(now)) => *final(was) == *final(now),
                (Target::U8(was), Target::U8(now)) => *final(was) == *final(now),
                (Target::U16(was), Target::U16(now)) => *final(was) == *final(now),
                (Target::U32(was), Target::U32(now)) => *final(was) == *final(now),
                (Target::U64(was), Target::U64(now)) => *final(was) == *final(now),
                (Target::U128(was), Target::U128(now)) => *final(was) == *final(now),
                (Target::Usize(was), Target::Usize(now)) => *final(was) == *final(now),
                (Target::I8(was), Target::I8(now)) => *final(was) == *final(now),
                (Target::I16(was), Target::I16(now)) => *final(was) == *final(now),
                (Target::I32(was), Target::I32(now)) => *final(was) == *final(now),
                (Target::I64(was), Target::I64(now)) => *final(was) == *final(now),
                (Target::I128(was), Target::I128(now)) => *final(was) == *final(now),
                (Target::Isize(was), Target::Isize(now)) => *final(was) == *final(now),
                (Target::Char(was), Target::Char(now)) => *final(was) == *final(now),
                (Target::Text(was), Target::Text(now)) => *final(was) == *final(now),
                _ => false,
            },
            final(self).value() == settle(
                old(self).kind(),
                old(self).value(),
                token_views(tokens@),
            ),
    {
        let n: usize = tokens.len();
        let mut k: usize = 0;
        let ghost texts = token_views(tokens@);
        let ghost kind = self.kind();
        let ghost start = self.value();
        while k < n
            invariant
                k <= n,
                n == tokens@.len(),
                texts == token_views(tokens@),
                kind == old(self).kind(),
                start == old(self).value(),
                // the borrow stays on the same variable
                match (*old(self), *self) {
                    (Target::Bool(was), Target::Bool(now)) => *final(was) == *final(now),
                    (Target::U8(was), Target::U8(now)) => *final(was) == *final(now),
                    (Target::U16(was), Target::U16(now)) => *final(was) == *final(now),
                    (Target::U32(was), Target::U32(now)) => *final(was) == *final(now),
                    (Target::U64(was), Target::U64(now)) => *final(was) == *final(now),
                    (Target::U128(was), Target::U128(now)) => *final(was) == *final(now),
                    (Target::Usize(was), Target::Usize(now)) => *final(was) == *final(now),
                    (Target::I8(was), Target::I8(now)) => *final(was) == *final(now),
                    (Target::I16(was), Target::I16(now)) => *final(was) == *final(now),
                    (Target::I32(was), Target::I32(now)) => *final(was) == *final(now),
                    (Target::I64(was), Target::I64(now)) => *final(was) == *final(now),
                    (Target::I128(was), Target::I128(now)) => *final(was) == *final(now),
                    (Target::Isize(was), Target::Isize(now)) => *final(was) == *final(now),
                    (Target::Char(was), Target::Char(now)) => *final(was) == *final(now),
                    (Target::Text(was), Target::Text(now)) => *final(was) == *final(now),
                    _ => false,
                },
                self.kind() == kind,
                self.value() == settle(kind, start, texts.take(k as int)),
            decreases n - k,
        {
            proof {
                let grown = texts.take(k + 1);
                assert(grown.drop_last() =~= texts.take(k as int));
                assert(grown.last() == tokens@[k as int]@);
            }
            let _ = self.set_value(tokens[k].as_str());
            k = k + 1;
        }
        proof {
            assert(texts.take(n as int) =~= texts);
        }
    }
}

} // verus!
