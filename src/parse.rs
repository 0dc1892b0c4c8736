//! Parsing tokens into values and positional commands.
use vstd::prelude::*;
use vstd::string::StringSliceAdditionalSpecFns;

use crate::internal::next_arg;
use crate::num::{prefixed_parse, radix_parse, PrefixedNum, RadixInt};
use crate::text::FixedText;
use crate::Error;

verus! {

/// A type whose values are written as a single token.
pub trait ArgValue: Sized {
    /// Whether `tok` writes some value of this type.
    spec fn accepts(tok: &str) -> bool;

    /// Whether `tok` writes `v`.
    spec fn denotes(tok: &str, v: Self) -> bool;

    /// Reads the value that `tok` writes.
    fn parse_arg(tok: &str) -> (r: Result<Self, Error>)
        ensures
            r is Ok <==> Self::accepts(tok),
            r matches Ok(v) ==> Self::denotes(tok, v),
    ;
}

impl ArgValue for u8 {
    open spec fn accepts(tok: &str) -> bool {
        radix_parse::<u8>(tok@, 10) is Some
    }

    open spec fn denotes(tok: &str, v: u8) -> bool {
        radix_parse::<u8>(tok@, 10) == Some(v)
    }

    fn parse_arg(tok: &str) -> (r: Result<u8, Error>) {
        <u8 as RadixInt>::from_str_radix(tok, 10)
    }
}

impl ArgValue for u16 {
    open spec fn accepts(tok: &str) -> bool {
        radix_parse::<u16>(tok@, 10) is Some
    }

    open spec fn denotes(tok: &str, v: u16) -> bool {
        radix_parse::<u16>(tok@, 10) == Some(v)
    }

    fn parse_arg(tok: &str) -> (r: Result<u16, Error>) {
        <u16 as RadixInt>::from_str_radix(tok, 10)
    }
}

impl ArgValue for u32 {
    open spec fn accepts(tok: &str) -> bool {
        radix_parse::<u32>(tok@, 10) is Some
    }

    open spec fn denotes(tok: &str, v: u32) -> bool {
        radix_parse::<u32>(tok@, 10) == Some(v)
    }

    fn parse_arg(tok: &str) -> (r: Result<u32, Error>) {
        <u32 as RadixInt>::from_str_radix(tok, 10)
    }
}

impl ArgValue for u64 {
    open spec fn accepts(tok: &str) -> bool {
        radix_parse::<u64>(tok@, 10) is Some
    }

    open spec fn denotes(tok: &str, v: u64) -> bool {
        radix_parse::<u64>(tok@, 10) == Some(v)
    }

    fn parse_arg(tok: &str) -> (r: Result<u64, Error>) {
        <u64 as RadixInt>::from_str_radix(tok, 10)
    }
}

impl ArgValue for u128 {
    open spec fn accepts(tok: &str) -> bool {
        radix_parse::<u128>(tok@, 10) is Some
    }

    open spec fn denotes(tok: &str, v: u128) -> bool {
        radix_parse::<u128>(tok@, 10) == Some(v)
    }

    fn parse_arg(tok: &str) -> (r: Result<u128, Error>) {
        <u128 as RadixInt>::from_str_radix(tok, 10)
    }
}

impl ArgValue for usize {
    open spec fn accepts(tok: &str) -> bool {
        radix_parse::<usize>(tok@, 10) is Some
    }

    open spec fn denotes(tok: &str, v: usize) -> bool {
        radix_parse::<usize>(tok@, 10) == Some(v)
    }

    fn parse_arg(tok: &str) -> (r: Result<usize, Error>) {
        <usize as RadixInt>::from_str_radix(tok, 10)
    }
}

impl ArgValue for i8 {
    open spec fn accepts(tok: &str) -> bool {
        radix_parse::<i8>(tok@, 10) is Some
    }

    open spec fn denotes(tok: &str, v: i8) -> bool {
        radix_parse::<i8>(tok@, 10) == Some(v)
    }

    fn parse_arg(tok: &str) -> (r: Result<i8, Error>) {
        <i8 as RadixInt>::from_str_radix(tok, 10)
    }
}

impl ArgValue for i16 {
    open spec fn accepts(tok: &str) -> bool {
        radix_parse::<i16>(tok@, 10) is Some
    }

    open spec fn denotes(tok: &str, v: i16) -> bool {
        radix_parse::<i16>(tok@, 10) == Some(v)
    }

    fn parse_arg(tok: &str) -> (r: Result<i16, Error>) {
        <i16 as RadixInt>::from_str_radix(tok, 10)
    }
}

impl ArgValue for i32 {
    open spec fn accepts(tok: &str) -> bool {
        radix_parse::<i32>(tok@, 10) is Some
    }

    open spec fn denotes(tok: &str, v: i32) -> bool {
        radix_parse::<i32>(tok@, 10) == Some(v)
    }

    fn parse_arg(tok: &str) -> (r: Result<i32, Error>) {
        <i32 as RadixInt>::from_str_radix(tok, 10)
    }
}

impl ArgValue for i64 {
    open spec fn accepts(tok: &str) -> bool {
        radix_parse::<i64>(tok@, 10) is Some
    }

    open spec fn denotes(tok: &str, v: i64) -> bool {
        radix_parse::<i64>(tok@, 10) == Some(v)
    }

    fn parse_arg(tok: &str) -> (r: Result<i64, Error>) {
        <i64 as RadixInt>::from_str_radix(tok, 10)
    }
}

impl ArgValue for i128 {
    open spec fn accepts(tok: &str) -> bool {
        radix_parse::<i128>(tok@, 10) is Some
    }

    open spec fn denotes(tok: &str, v: i128) -> bool {
        radix_parse::<i128>(tok@, 10) == Some(v)
    }

    fn parse_arg(tok: &str) -> (r: Result<i128, Error>) {
        <i128 as RadixInt>::from_str_radix(tok, 10)
    }
}

impl ArgValue for isize {
    open spec fn accepts(tok: &str) -> bool {
        radix_parse::<isize>(tok@, 10) is Some
    }

    open spec fn denotes(tok: &str, v: isize) -> bool {
        radix_parse::<isize>(tok@, 10) == Some(v)
    }

    fn parse_arg(tok: &str) -> (r: Result<isize, Error>) {
        <isize as RadixInt>::from_str_radix(tok, 10)
    }
}

impl<T: RadixInt> ArgValue for PrefixedNum<T> {
    open spec fn accepts(tok: &str) -> bool {
        prefixed_parse::<T>(tok@) is Some
    }

    open spec fn denotes(tok: &str, v: PrefixedNum<T>) -> bool {
        prefixed_parse::<T>(tok@) == Some(v.inner)
    }

    fn parse_arg(tok: &str) -> (r: Result<PrefixedNum<T>, Error>) {
        PrefixedNum::from_prefixed(tok)
    }
}

impl<const N: usize> ArgValue for FixedText<N> {
    open spec fn accepts(tok: &str) -> bool {
        tok.spec_bytes().len() <= N
    }

    open spec fn denotes(tok: &str, v: FixedText<N>) -> bool {
        v.wf() && v@ == tok.spec_bytes()
    }

    fn parse_arg(tok: &str) -> (r: Result<FixedText<N>, Error>) {
        FixedText::try_from_str(tok)
    }
}

/// What parsing a command of `arity` fields from `count` tokens gives, where
/// `rejected` tells whether a field refused the token at its position.
pub open spec fn parse_outcome(arity: nat, count: nat, rejected: bool) -> Result<(), Error> {
    if rejected {
        Err(Error::ArgumentParseError)
    } else if count < arity {
        Err(Error::TooFewArguments)
    } else if count > arity {
        Err(Error::UnusedArguments)
    } else {
        Ok(())
    }
}

/// A command whose fields are filled, in order, from one token each.
pub trait CommandParser: Sized {
    /// The number of fields.
    spec fn arity() -> nat;

    /// Whether field `i` accepts `tok`.
    spec fn accepts(i: int, tok: &str) -> bool;

    /// Whether field `i` holds the value that `tok` writes.
    spec fn field_holds(&self, i: int, tok: &str) -> bool;

    /// Whether field `i` equals field `i` of `other`.
    spec fn field_same(&self, other: Self, i: int) -> bool;

    /// The command's name.
    spec fn spec_name(&self) -> Seq<char>;

    /// The command's name.
    fn name(&self) -> (r: &str)
        ensures
            r@ == self.spec_name(),
    ;

    /// Fills the fields from `args`, one token per field in declaration
    /// order, and stops at the first field without a token or refusing its
    /// token: the fields before it hold their tokens' values, the others are
    /// left as they were.
    fn parse(&mut self, args: &[&str]) -> (r: Result<(), Error>)
        ensures
            r == parse_outcome(
                Self::arity(),
                args@.len(),
                exists|i: int|
                    0 <= i < Self::arity() && i < args@.len() && !Self::accepts(i, #[trigger] args@[i]),
            ),
            forall|i: int|
                #![trigger final(self).field_holds(i, args@[i])]
                #![trigger final(self).field_same(*old(self), i)]
                0 <= i < Self::arity() ==> if i < args@.len() && (forall|j: int|
                    0 <= j <= i ==> Self::accepts(j, #[trigger] args@[j])) {
                    final(self).field_holds(i, args@[i])
                } else {
                    final(self).field_same(*old(self), i)
                },
    ;
}

/// Whether a field of `C` refuses the token at its position in `args`.
pub open spec fn rejected<C: CommandParser>(args: Seq<&str>) -> bool {
    exists|i: int| 0 <= i < C::arity() && i < args.len() && !C::accepts(i, #[trigger] args[i])
}

/// As many tokens as fields, each accepted by its field: parsing succeeds
/// (and `parse` then leaves every field holding the value of its token).
pub proof fn lemma_exact_tokens_parse<C: CommandParser>(args: Seq<&str>)
    requires
        args.len() == C::arity(),
        forall|i: int| 0 <= i < args.len() ==> C::accepts(i, #[trigger] args[i]),
    ensures
        parse_outcome(C::arity(), args.len(), rejected::<C>(args)) == Ok::<(), Error>(()),
{
}

/// Fewer tokens than fields, each accepted by its field: parsing fails with
/// `TooFewArguments`.
pub proof fn lemma_too_few_tokens<C: CommandParser>(args: Seq<&str>)
    requires
        args.len() < C::arity(),
        forall|i: int| 0 <= i < args.len() ==> C::accepts(i, #[trigger] args[i]),
    ensures
        parse_outcome(C::arity(), args.len(), rejected::<C>(args)) == Err::<(), Error>(
            Error::TooFewArguments,
        ),
{
}

/// More tokens than fields, the first of them accepted by their fields:
/// parsing fails with `UnusedArguments`.
pub proof fn lemma_too_many_tokens<C: CommandParser>(args: Seq<&str>)
    requires
        args.len() > C::arity(),
        forall|i: int| 0 <= i < C::arity() ==> C::accepts(i, #[trigger] args[i]),
    ensures
        parse_outcome(C::arity(), args.len(), rejected::<C>(args)) == Err::<(), Error>(
            Error::UnusedArguments,
        ),
{
}

/// Takes the next token of `args` and reads it into `field`: the remaining
/// tokens, `TooFewArguments` when there is none, or `ArgumentParseError` when
/// the token writes no value of the field's type.
pub fn parse_field<'a, T: ArgValue>(args: &'a [&'a str], field: &mut T) -> (r: Result<&'a [&'a str], Error>)
    ensures
        args@.len() == 0 ==> r == Err::<&'a [&'a str], Error>(Error::TooFewArguments) && *final(field) == *old(field),
        args@.len() > 0 && !T::accepts(args@[0]) ==> r == Err::<&'a [&'a str], Error>(Error::ArgumentParseError)
            && *final(field) == *old(field),
        args@.len() > 0 && T::accepts(args@[0]) ==> (r matches Ok(rest) && rest@ == args@.drop_first()
            && T::denotes(args@[0], *final(field))),
{
    let (rest, tok) = match next_arg(args) {
        Ok(p) => p,
        Err(e) => return Err(e),
    };
    match T::parse_arg(tok) {
        Ok(v) => {
            *field = v;
            Ok(rest)
        },
        Err(_) => Err(Error::ArgumentParseError),
    }
}

/// Ends a parse: `UnusedArguments` when tokens are left over.
pub fn finish_args(args: &[&str]) -> (r: Result<(), Error>)
    ensures
        r == (if args@.len() == 0 { Ok::<(), Error>(()) } else { Err::<(), Error>(Error::UnusedArguments) }),
{
    if args.len() != 0 {
        return Err(Error::UnusedArguments);
    }
    Ok(())
}

impl CommandParser for () {
    open spec fn arity() -> nat {
        0
    }

    open spec fn accepts(i: int, tok: &str) -> bool {
        false
    }

    open spec fn field_holds(&self, i: int, tok: &str) -> bool {
        true
    }

    open spec fn field_same(&self, other: Self, i: int) -> bool {
        true
    }

    /// A positional argument list carries no name of its own.
    open spec fn spec_name(&self) -> Seq<char> {
        Seq::empty()
    }

    fn name(&self) -> (r: &str) {
        proof {
            reveal_strlit("");
        }
        ""
    }

    fn parse(&mut self, args: &[&str]) -> (r: Result<(), Error>) {
        finish_args(args)
    }
}

impl<A: ArgValue> CommandParser for (A,) {
    open spec fn arity() -> nat {
        1
    }

    open spec fn accepts(i: int, tok: &str) -> bool {
        A::accepts(tok)
    }

    open spec fn field_holds(&self, i: int, tok: &str) -> bool {
        A::denotes(tok, self.0)
    }

    open spec fn field_same(&self, other: Self, i: int) -> bool {
        self.0 == other.0
    }

    /// A positional argument list carries no name of its own.
    open spec fn spec_name(&self) -> Seq<char> {
        Seq::empty()
    }

    fn name(&self) -> (r: &str) {
        proof {
            reveal_strlit("");
        }
        ""
    }

    fn parse(&mut self, args: &[&str]) -> (r: Result<(), Error>) {
        let args = match parse_field(args, &mut self.0) {
            Ok(rest) => rest,
            Err(e) => return Err(e),
        };
        finish_args(args)
    }
}

impl<A: ArgValue, B: ArgValue> CommandParser for (A, B) {
    open spec fn arity() -> nat {
        2
    }

    open spec fn accepts(i: int, tok: &str) -> bool {
        if i == 0 {
            A::accepts(tok)
        } else {
            B::accepts(tok)
        }
    }

    open spec fn field_holds(&self, i: int, tok: &str) -> bool {
        if i == 0 {
            A::denotes(tok, self.0)
        } else {
            B::denotes(tok, self.1)
        }
    }

    open spec fn field_same(&self, other: Self, i: int) -> bool {
        if i == 0 {
            self.0 == other.0
        } else {
            self.1 == other.1
        }
    }

    /// A positional argument list carries no name of its own.
    open spec fn spec_name(&self) -> Seq<char> {
        Seq::empty()
    }

    fn name(&self) -> (r: &str) {
        proof {
            reveal_strlit("");
        }
        ""
    }

    fn parse(&mut self, args: &[&str]) -> (r: Result<(), Error>) {
        let args = match parse_field(args, &mut self.0) {
            Ok(rest) => rest,
            Err(e) => return Err(e),
        };
        let args = match parse_field(args, &mut self.1) {
            Ok(rest) => rest,
            Err(e) => return Err(e),
        };
        finish_args(args)
    }
}

impl<A: ArgValue, B: ArgValue, C: ArgValue> CommandParser for (A, B, C) {
    open spec fn arity() -> nat {
        3
    }

    open spec fn accepts(i: int, tok: &str) -> bool {
        if i == 0 {
            A::accepts(tok)
        } else if i == 1 {
            B::accepts(tok)
        } else {
            C::accepts(tok)
        }
    }

    open spec fn field_holds(&self, i: int, tok: &str) -> bool {
        if i == 0 {
            A::denotes(tok, self.0)
        } else if i == 1 {
            B::denotes(tok, self.1)
        } else {
            C::denotes(tok, self.2)
        }
    }

    open spec fn field_same(&self, other: Self, i: int) -> bool {
        if i == 0 {
            self.0 == other.0
        } else if i == 1 {
            self.1 == other.1
        } else {
            self.2 == other.2
        }
    }

    /// A positional argument list carries no name of its own.
    open spec fn spec_name(&self) -> Seq<char> {
        Seq::empty()
    }

    fn name(&self) -> (r: &str) {
        proof {
            reveal_strlit("");
        }
        ""
    }

    fn parse(&mut self, args: &[&str]) -> (r: Result<(), Error>) {
        let args = match parse_field(args, &mut self.0) {
            Ok(rest) => rest,
            Err(e) => return Err(e),
        };
        let args = match parse_field(args, &mut self.1) {
            Ok(rest) => rest,
            Err(e) => return Err(e),
        };
        let args = match parse_field(args, &mut self.2) {
            Ok(rest) => rest,
            Err(e) => return Err(e),
        };
        finish_args(args)
    }
}

impl<A: ArgValue, B: ArgValue, C: ArgValue, D: ArgValue> CommandParser for (A, B, C, D) {
    open spec fn arity() -> nat {
        4
    }

    open spec fn accepts(i: int, tok: &str) -> bool {
        if i == 0 {
            A::accepts(tok)
        } else if i == 1 {
            B::accepts(tok)
        } else if i == 2 {
            C::accepts(tok)
        } else {
            D::accepts(tok)
        }
    }

    open spec fn field_holds(&self, i: int, tok: &str) -> bool {
        if i == 0 {
            A::denotes(tok, self.0)
        } else if i == 1 {
            B::denotes(tok, self.1)
        } else if i == 2 {
            C::denotes(tok, self.2)
        } else {
            D::denotes(tok, self.3)
        }
    }

    open spec fn field_same(&self, other: Self, i: int) -> bool {
        if i == 0 {
            self.0 == other.0
        } else if i == 1 {
            self.1 == other.1
        } else if i == 2 {
            self.2 == other.2
        } else {
            self.3 == other.3
        }
    }

    /// A positional argument list carries no name of its own.
    open spec fn spec_name(&self) -> Seq<char> {
        Seq::empty()
    }

    fn name(&self) -> (r: &str) {
        proof {
            reveal_strlit("");
        }
        ""
    }

    fn parse(&mut self, args: &[&str]) -> (r: Result<(), Error>) {
        let args = match parse_field(args, &mut self.0) {
            Ok(rest) => rest,
            Err(e) => return Err(e),
        };
        let args = match parse_field(args, &mut self.1) {
            Ok(rest) => rest,
            Err(e) => return Err(e),
        };
        let args = match parse_field(args, &mut self.2) {
            Ok(rest) => rest,
            Err(e) => return Err(e),
        };
        let args = match parse_field(args, &mut self.3) {
            Ok(rest) => rest,
            Err(e) => return Err(e),
        };
        finish_args(args)
    }
}

} // verus!
