//! The integer types as variables that a flag can fill.

use crate::decimal::parse_integer;
use crate::value::{coerce, signed, unsigned, ArgValue, Malformed, Scalar};
use vstd::prelude::*;

verus! {

impl ArgValue for u8 {
    open spec fn scalar(&self) -> Scalar {
        Scalar::Int(*self as int)
    }

    open spec fn coerced(token: Seq<char>) -> Option<Scalar> {
        coerce(unsigned(u8::MAX as int), token)
    }

    fn set_value(&mut self, input: &str) -> (outcome: Result<(), Malformed>) {
        match parse_integer(input, false, u8::MAX as u128, 0) {
            Some((_, magnitude)) => {
                *self = magnitude as u8;
                Ok(())
            },
            None => Err(Malformed),
        }
    }
}

impl ArgValue for u16 {
    open spec fn scalar(&self) -> Scalar {
        Scalar::Int(*self as int)
    }

    open spec fn coerced(token: Seq<char>) -> Option<Scalar> {
        coerce(unsigned(u16::MAX as int), token)
    }

    fn set_value(&mut self, input: &str) -> (outcome: Result<(), Malformed>) {
        match parse_integer(input, false, u16::MAX as u128, 0) {
            Some((_, magnitude)) => {
                *self = magnitude as u16;
                Ok(())
            },
            None => Err(Malformed),
        }
    }
}

impl ArgValue for u32 {
    open spec fn scalar(&self) -> Scalar {
        Scalar::Int(*self as int)
    }

    open spec fn coerced(token: Seq<char>) -> Option<Scalar> {
        coerce(unsigned(u32::MAX as int), token)
    }

    fn set_value(&mut self, input: &str) -> (outcome: Result<(), Malformed>) {
        match parse_integer(input, false, u32::MAX as u128, 0) {
            Some((_, magnitude)) => {
                *self = magnitude as u32;
                Ok(())
            },
            None => Err(Malformed),
        }
    }
}

impl ArgValue for u64 {
    open spec fn scalar(&self) -> Scalar {
        Scalar::Int(*self as int)
    }

    open spec fn coerced(token: Seq<char>) -> Option<Scalar> {
        coerce(unsigned(u64::MAX as int), token)
    }

    fn set_value(&mut self, input: &str) -> (outcome: Result<(), Malformed>) {
        match parse_integer(input, false, u64::MAX as u128, 0) {
            Some((_, magnitude)) => {
                *self = magnitude as u64;
                Ok(())
            },
            None => Err(Malformed),
        }
    }
}

impl ArgValue for u128 {
    open spec fn scalar(&self) -> Scalar {
        Scalar::Int(*self as int)
    }

    open spec fn coerced(token: Seq<char>) -> Option<Scalar> {
        coerce(unsigned(u128::MAX as int), token)
    }

    fn set_value(&mut self, input: &str) -> (outcome: Result<(), Malformed>) {
        match parse_integer(input, false, u128::MAX as u128, 0) {
            Some((_, magnitude)) => {
                *self = magnitude as u128;
                Ok(())
            },
            None => Err(Malformed),
        }
    }
}

impl ArgValue for usize {
    open spec fn scalar(&self) -> Scalar {
        Scalar::Int(*self as int)
    }

    open spec fn coerced(token: Seq<char>) -> Option<Scalar> {
        coerce(unsigned(usize::MAX as int), token)
    }

    fn set_value(&mut self, input: &str) -> (outcome: Result<(), Malformed>) {
        match parse_integer(input, false, usize::MAX as u128, 0) {
            Some((_, magnitude)) => {
                *self = magnitude as usize;
                Ok(())
            },
            None => Err(Malformed),
        }
    }
}

impl ArgValue for i8 {
    open spec fn scalar(&self) -> Scalar {
        Scalar::Int(*self as int)
    }

    open spec fn coerced(token: Seq<char>) -> Option<Scalar> {
        coerce(signed(i8::MIN as int, i8::MAX as int), token)
    }

    fn set_value(&mut self, input: &str) -> (outcome: Result<(), Malformed>) {
        let most: u128 = i8::MAX as u128;
        match parse_integer(input, true, most, most + 1) {
            Some((negative, magnitude)) => {
                *self = if !negative {
                    magnitude as i8
                } else if magnitude > most {
                    i8::MIN
                } else {
                    -(magnitude as i8)
                };
                Ok(())
            },
            None => Err(Malformed),
        }
    }
}

impl ArgValue for i16 {
    open spec fn scalar(&self) -> Scalar {
        Scalar::Int(*self as int)
    }

    open spec fn coerced(token: Seq<char>) -> Option<Scalar> {
        coerce(signed(i16::MIN as int, i16::MAX as int), token)
    }

    fn set_value(&mut self, input: &str) -> (outcome: Result<(), Malformed>) {
        let most: u128 = i16::MAX as u128;
        match parse_integer(input, true, most, most + 1) {
            Some((negative, magnitude)) => {
                *self = if !negative {
                    magnitude as i16
                } else if magnitude > most {
                    i16::MIN
                } else {
                    -(magnitude as i16)
                };
                Ok(())
            },
            None => Err(Malformed),
        }
    }
}

impl ArgValue for i32 {
    open spec fn scalar(&self) -> Scalar {
        Scalar::Int(*self as int)
    }

    open spec fn coerced(token: Seq<char>) -> Option<Scalar> {
        coerce(signed(i32::MIN as int, i32::MAX as int), token)
    }

    fn set_value(&mut self, input: &str) -> (outcome: Result<(), Malformed>) {
        let most: u128 = i32::MAX as u128;
        match parse_integer(input, true, most, most + 1) {
            Some((negative, magnitude)) => {
                *self = if !negative {
                    magnitude as i32
                } else if magnitude > most {
                    i32::MIN
                } else {
                    -(magnitude as i32)
                };
                Ok(())
            },
            None => Err(Malformed),
        }
    }
}

impl ArgValue for i64 {
    open spec fn scalar(&self) -> Scalar {
        Scalar::Int(*self as int)
    }

    open spec fn coerced(token: Seq<char>) -> Option<Scalar> {
        coerce(signed(i64::MIN as int, i64::MAX as int), token)
    }

    fn set_value(&mut self, input: &str) -> (outcome: Result<(), Malformed>) {
        let most: u128 = i64::MAX as u128;
        match parse_integer(input, true, most, most + 1) {
            Some((negative, magnitude)) => {
                *self = if !negative {
                    magnitude as i64
                } else if magnitude > most {
                    i64::MIN
                } else {
                    -(magnitude as i64)
                };
                Ok(())
            },
            None => Err(Malformed),
        }
    }
}

impl ArgValue for i128 {
    open spec fn scalar(&self) -> Scalar {
        Scalar::Int(*self as int)
    }

    open spec fn coerced(token: Seq<char>) -> Option<Scalar> {
        coerce(signed(i128::MIN as int, i128::MAX as int), token)
    }

    fn set_value(&mut self, input: &str) -> (outcome: Result<(), Malformed>) {
        let most: u128 = i128::MAX as u128;
        match parse_integer(input, true, most, most + 1) {
            Some((negative, magnitude)) => {
                *self = if !negative {
                    magnitude as i128
                } else if magnitude > most {
                    i128::MIN
                } else {
                    -(magnitude as i128)
                };
                Ok(())
            },
            None => Err(Malformed),
        }
    }
}

impl ArgValue for isize {
    open spec fn scalar(&self) -> Scalar {
        Scalar::Int(*self as int)
    }

    open spec fn coerced(token: Seq<char>) -> Option<Scalar> {
        coerce(signed(isize::MIN as int, isize::MAX as int), token)
    }

    fn set_value(&mut self, input: &str) -> (outcome: Result<(), Malformed>) {
        let most: u128 = isize::MAX as u128;
        match parse_integer(input, true, most, most + 1) {
            Some((negative, magnitude)) => {
                *self = if !negative {
                    magnitude as isize
                } else if magnitude > most {
                    isize::MIN
                } else {
                    -(magnitude as isize)
                };
                Ok(())
            },
            None => Err(Malformed),
        }
    }
}

} // verus!
