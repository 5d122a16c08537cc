//! The registry of flags and the scan that fills their variables.

use crate::engine::{scan_normalized, scanned};
use crate::matcher::{
    captures_named, long_group, pattern_for, pattern_text, short_group, Matcher, PatternError,
};
use crate::target::Target;
use crate::text::{normalize, normalized};
use vstd::prelude::*;

verus! {

/// A registered flag: the variable it fills and its matcher.
#[derive(Debug)]
pub struct Arg<'a> {
    pub arg: Target<'a>,
    pub regex: Matcher,
}

/// The flags of a command line, in the order in which they were registered.
#[derive(Debug)]
pub struct Intake<'a> {
    pub args: Vec<Arg<'a>>,
}

impl<'a> Intake<'a> {
    /// A registry without flags.
    pub fn new() -> (intake: Intake<'a>)
        ensures
            intake.args@.len() == 0,
    {
        Intake { args: Vec::new() }
    }

    /// Registers a flag whose matcher is already compiled, after the flags
    /// registered so far.
    pub fn bind(self, matcher: Matcher, arg: Target<'a>) -> (intake: Intake<'a>)
        ensures
            intake.args@ == self.args@.push(Arg { arg, regex: matcher }),
    {
        let mut intake = self;
        intake.args.push(Arg { arg, regex: matcher });
        intake
    }

    /// Registers the flag with the short name `cmd_short` and the long name
    /// `cmd_long`, bound to the variable `arg`, after the flags registered so
    /// far.
    ///
    /// Where the two names do not make a pattern that compiles, the flag is
    /// refused: the registry is given up, and every variable, the one
    /// offered and those bound before, is left with the value it has.
    pub fn arg(self, cmd_short: char, cmd_long: &str, arg: Target<'a>) -> (registered: Result<
        Intake<'a>,
        PatternError,
    >)
        ensures
            registered matches Ok(intake) ==> {
                &&& intake.args@.len() == self.args@.len() + 1
                &&& intake.args@.drop_last() == self.args@
                &&& intake.args@.last().arg == arg
                &&& intake.args@.last().regex@ == pattern_text(cmd_short, cmd_long@)
            },
            registered matches Err(refusal) ==> {
                &&& refusal.pattern@ == pattern_text(cmd_short, cmd_long@)
                // the variable is left with the value it has
                &&& match arg {
                    Target::Bool(place) => *final(place) == *place,
                    Target::U8(place) => *final(place) == *place,
                    Target::U16(place) => *final(place) == *place,
                    Target::U32(place) => *final(place) == *place,
                    Target::U64(place) => *final(place) == *place,
                    Target::U128(place) => *final(place) == *place,
                    Target::Usize(place) => *final(place) == *place,
                    Target::I8(place) => *final(place) == *place,
                    Target::I16(place) => *final(place) == *place,
                    Target::I32(place) => *final(place) == *place,
                    Target::I64(place) => *final(place) == *place,
                    Target::I128(place) => *final(place) == *place,
                    Target::Isize(place) => *final(place) == *place,
                    Target::Char(place) => *final(place) == *place,
                    Target::Text(place) => *final(place) == *place,
                }
                &&& forall|i: int|
                    0 <= i < self.args@.len() ==>
                        // the variable is left with the value it has
                        match (#[trigger] self.args@[i]).arg {
                            Target::Bool(place) => *final(place) == *place,
                            Target::U8(place) => *final(place) == *place,
                            Target::U16(place) => *final(place) == *place,
                            Target::U32(place) => *final(place) == *place,
                            Target::U64(place) => *final(place) == *place,
                            Target::U128(place) => *final(place) == *place,
                            Target::Usize(place) => *final(place) == *place,
                            Target::I8(place) => *final(place) == *place,
                            Target::I16(place) => *final(place) == *place,
                            Target::I32(place) => *final(place) == *place,
                            Target::I64(place) => *final(place) == *place,
                            Target::I128(place) => *final(place) == *place,
                            Target::Isize(place) => *final(place) == *place,
                            Target::Char(place) => *final(place) == *place,
                            Target::Text(place) => *final(place) == *place,
                        }
            },
    {
        let pattern = pattern_for(cmd_short, cmd_long);
        let made = Matcher::new(pattern.as_str());
        let registered = self.enroll(made, arg);
        proof {
            if registered is Ok {
                assert(registered->Ok_0.args@.drop_last() =~= self.args@);
            }
        }
        registered
    }

    /// Registers a flag for which compiling its pattern gave `made`: with a
    /// matcher the flag is bound to the variable `arg`, after the flags
    /// registered so far; with a refusal the registry is given up, the
    /// refusal is handed on, and every variable, the one offered and those
    /// bound before, is left with the value it has.
    pub fn enroll(self, made: Result<Matcher, PatternError>, arg: Target<'a>) -> (outcome: Result<
        Intake<'a>,
        PatternError,
    >)
        ensures
            match made {
                Ok(matcher) => outcome matches Ok(intake) && intake.args@ == self.args@.push(
                    Arg { arg, regex: matcher },
                ),
                Err(refusal) => {
                    &&& outcome matches Err(same) && same == refusal
                    // the variable is left with the value it has
                    &&& match arg {
                        Target::Bool(place) => *final(place) == *place,
                        Target::U8(place) => *final(place) == *place,
                        Target::U16(place) => *final(place) == *place,
                        Target::U32(place) => *final(place) == *place,
                        Target::U64(place) => *final(place) == *place,
                        Target::U128(place) => *final(place) == *place,
                        Target::Usize(place) => *final(place) == *place,
                        Target::I8(place) => *final(place) == *place,
                        Target::I16(place) => *final(place) == *place,
                        Target::I32(place) => *final(place) == *place,
                        Target::I64(place) => *final(place) == *place,
                        Target::I128(place) => *final(place) == *place,
                        Target::Isize(place) => *final(place) == *place,
                        Target::Char(place) => *final(place) == *place,
                        Target::Text(place) => *final(place) == *place,
                    }
                    &&& forall|i: int|
                        0 <= i < self.args@.len() ==>
                            // the variable is left with the value it has
                            match (#[trigger] self.args@[i]).arg {
                                Target::Bool(place) => *final(place) == *place,
                                Target::U8(place) => *final(place) == *place,
                                Target::U16(place) => *final(place) == *place,
                                Target::U32(place) => *final(place) == *place,
                                Target::U64(place) => *final(place) == *place,
                                Target::U128(place) => *final(place) == *place,
                                Target::Usize(place) => *final(place) == *place,
                                Target::I8(place) => *final(place) == *place,
                                Target::I16(place) => *final(place) == *place,
                                Target::I32(place) => *final(place) == *place,
                                Target::I64(place) => *final(place) == *place,
                                Target::I128(place) => *final(place) == *place,
                                Target::Isize(place) => *final(place) == *place,
                                Target::Char(place) => *final(place) == *place,
                                Target::Text(place) => *final(place) == *place,
                            }
                },
            },
    {
        match made {
            Ok(matcher) => Ok(self.bind(matcher, arg)),
            Err(refusal) => Err(refusal),
        }
    }

    /// Scans `input` for every registered flag, in the order of registration,
    /// and coerces what follows each occurrence into the flag's variable.
    ///
    /// Each variable ends with what the last well-formed token found for its
    /// flag denotes, and keeps its value where there is none; a flag that
    /// does not occur leaves its variable untouched. The matchers and the
    /// variables that the flags are bound to stay as they are.
    pub fn process(&mut self, input: &str)
        ensures
            final(self).args@.len() == old(self).args@.len(),
            forall|i: int|
                0 <= i < old(self).args@.len() ==> {
                    &&& (#[trigger] final(self).args@[i]).regex == old(self).args@[i].regex
                    // the borrow stays on the same variable
                    &&& match (old(self).args@[i].arg, final(self).args@[i].arg) {
                        (Target::Bool(was), Target::Bool(now)) => *final(was) == *final(now),
                        (Target::U8(was), Target::U8(now)) => *final(was) == *final(now),
                        (Target::U16(was), Target::U16(now)) => *final(was) == *final(now),
                        (Target::U32(was), Target::U32(now)) => *final(was) == *final(now),
                        (Target::U64(was), Target::U64(now)) => *final(was) == *final(now),
                        (Target::U128(was), Target::U128(now)) => *final(was) == *final(now),
                        (Target::Usize(was), Target::Usize(now)) => *final(was) == *final(now),
                        (Target::I8(was), Target::I8(now)) => *final(was) == *final(now),
                        (Target::I16(was), Target::I16(now)) => *final(was) == *final(now),
                        (Target::I32(was), Target::I32(now)) => *final(was) == *final(now),
                        (Target::I64(was), Target::I64(now)) => *final(was) == *final(now),
                        (Target::I128(was), Target::I128(now)) => *final(was) == *final(now),
                        (Target::Isize(was), Target::Isize(now)) => *final(was) == *final(now),
                        (Target::Char(was), Target::Char(now)) => *final(was) == *final(now),
                        (Target::Text(was), Target::Text(now)) => *final(was) == *final(now),
                        _ => false,
                    }
                    &&& final(self).args@[i].arg.value() == scanned(
                        old(self).args@[i].arg.kind(),
                        old(self).args@[i].arg.value(),
                        old(self).args@[i].regex@,
                        input@,
                    )
                    &&& captures_named(
                        old(self).args@[i].regex@,
                        normalized(input@),
                        short_group(),
                        long_group(),
                    ).len() == 0
                        ==> final(self).args@[i].arg.value() == old(self).args@[i].arg.value()
                },
    {
        let text = normalize(input);
        let n: usize = self.args.len();
        let mut k: usize = 0;
        while k < n
            invariant
                k <= n,
                n == self.args@.len(),
                n == old(self).args@.len(),
                text@ == normalized(input@),
                forall|i: int|
                    0 <= i < k ==> {
                        &&& (#[trigger] self.args@[i]).regex == old(self).args@[i].regex
                        // the borrow stays on the same variable
                        &&& match (old(self).args@[i].arg, self.args@[i].arg) {
                            (Target::Bool(was), Target::Bool(now)) => *final(was) == *final(now),
                            (Target::U8(was), Target::U8(now)) => *final(was) == *final(now),
                            (Target::U16(was), Target::U16(now)) => *final(was) == *final(now),
                            (Target::U32(was), Target::U32(now)) => *final(was) == *final(now),
                            (Target::U64(was), Target::U64(now)) => *final(was) == *final(now),
                            (Target::U128(was), Target::U128(now)) => *final(was) == *final(now),
                            (Target::Usize(was), Target::Usize(now)) => *final(was) == *final(now),
                            (Target::I8(was), Target::I8(now)) => *final(was) == *final(now),
                            (Target::I16(was), Target::I16(now)) => *final(was) == *final(now),
                            (Target::I32(was), Target::I32(now)) => *final(was) == *final(now),
                            (Target::I64(was), Target::I64(now)) => *final(was) == *final(now),
                            (Target::I128(was), Target::I128(now)) => *final(was) == *final(now),
                            (Target::Isize(was), Target::Isize(now)) => *final(was) == *final(now),
                            (Target::Char(was), Target::Char(now)) => *final(was) == *final(now),
                            (Target::Text(was), Target::Text(now)) => *final(was) == *final(now),
                            _ => false,
                        }
                        &&& self.args@[i].arg.value() == scanned(
                            old(self).args@[i].arg.kind(),
                            old(self).args@[i].arg.value(),
                            old(self).args@[i].regex@,
                            input@,
                        )
                    },
                forall|i: int| k <= i < n ==> #[trigger] self.args@[i] == old(self).args@[i],
            decreases n - k,
        {
            let tokens = scan_normalized(&self.args[k].regex, text.as_str());
            self.args[k].arg.assign(&tokens);
            k = k + 1;
        }
    }
}

} // verus!
