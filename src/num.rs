//! Integer values written with an optional base prefix.
use vstd::prelude::*;

use crate::Error;

verus! {

/// The value of a digit character in bases up to 36, or 36 for a character
/// that is no digit in any base.
pub open spec fn digit_value(c: char) -> int {
    if '0' <= c && c <= '9' {
        c as int - '0' as int
    } else if 'a' <= c && c <= 'z' {
        c as int - 'a' as int + 10
    } else if 'A' <= c && c <= 'Z' {
        c as int - 'A' as int + 10
    } else {
        36
    }
}

/// The number that the digit sequence `d` writes in base `radix`.
pub open spec fn digits_value(d: Seq<char>, radix: int) -> int
    decreases d.len(),
{
    if d.len() == 0 {
        0
    } else {
        digits_value(d.drop_last(), radix) * radix + digit_value(d.last())
    }
}

/// The number that `d` writes in base `radix`, if it is at least one digit
/// of that base and nothing else.
pub open spec fn digits_literal(d: Seq<char>, radix: int) -> Option<int> {
    if d.len() > 0 && (forall|i: int| 0 <= i < d.len() ==> digit_value(#[trigger] d[i]) < radix) {
        Some(digits_value(d, radix))
    } else {
        None
    }
}

/// The number that `s` writes in base `radix` as an unsigned literal: an
/// optional `+`, then at least one digit of that base and nothing else.
pub open spec fn unsigned_literal(s: Seq<char>, radix: int) -> Option<int> {
    if s.len() > 0 && s[0] == '+' {
        digits_literal(s.drop_first(), radix)
    } else {
        digits_literal(s, radix)
    }
}

/// The number that `s` writes in base `radix` as a signed literal: an
/// optional `+` or `-`, then at least one digit of that base and nothing else.
pub open spec fn signed_literal(s: Seq<char>, radix: int) -> Option<int> {
    if s.len() > 0 && s[0] == '-' {
        match digits_literal(s.drop_first(), radix) {
            Some(n) => Some(-n),
            None => None,
        }
    } else {
        unsigned_literal(s, radix)
    }
}

/// An unsigned integer type that can be read from digits in a given base.
pub trait RadixInt: Sized {
    /// The value of this type that equals `n`, if `n` is in its range.
    spec fn spec_of(n: int) -> Option<Self>;

    /// The number that `s` writes in base `radix` as a literal of this type.
    spec fn literal(s: Seq<char>, radix: int) -> Option<int>;

    /// Reads `s` as an unsigned literal in base `radix`.
    fn from_str_radix(s: &str, radix: u32) -> (r: Result<Self, Error>)
        requires
            2 <= radix <= 36,
        ensures
            match Self::literal(s@, radix as int) {
                Some(n) => match Self::spec_of(n) {
                    Some(v) => r == Ok::<Self, Error>(v),
                    None => r == Err::<Self, Error>(Error::IntegerParseError),
                },
                None => r == Err::<Self, Error>(Error::IntegerParseError),
            },
    ;
}

/// The value of type `T` that `s` writes in base `radix`, if any.
pub open spec fn radix_parse<T: RadixInt>(s: Seq<char>, radix: int) -> Option<T> {
    match T::literal(s, radix) {
        Some(n) => T::spec_of(n),
        None => None,
    }
}

/// Relies on `num_traits::Num::from_str_radix` for `u8`, which hands the string
/// to `u8::from_str_radix`: an optional `+`, then digits of the base, within range.
#[verifier::external_body]
fn u8_from_str_radix(s: &str, radix: u32) -> (r: Option<u8>)
    requires
        2 <= radix <= 36,
    ensures
        r == match unsigned_literal(s@, radix as int) {
            Some(n) => if 0 <= n && n <= u8::MAX { Some(n as u8) } else { None },
            None => None,
        },
{
    <u8 as num_traits::Num>::from_str_radix(s, radix).ok()
}

/// Relies on `num_traits::Num::from_str_radix` for `u16`, which hands the string
/// to `u16::from_str_radix`: an optional `+`, then digits of the base, within range.
#[verifier::external_body]
fn u16_from_str_radix(s: &str, radix: u32) -> (r: Option<u16>)
    requires
        2 <= radix <= 36,
    ensures
        r == match unsigned_literal(s@, radix as int) {
            Some(n) => if 0 <= n && n <= u16::MAX { Some(n as u16) } else { None },
            None => None,
        },
{
    <u16 as num_traits::Num>::from_str_radix(s, radix).ok()
}

/// Relies on `num_traits::Num::from_str_radix` for `u32`, which hands the string
/// to `u32::from_str_radix`: an optional `+`, then digits of the base, within range.
#[verifier::external_body]
fn u32_from_str_radix(s: &str, radix: u32) -> (r: Option<u32>)
    requires
        2 <= radix <= 36,
    ensures
        r == match unsigned_literal(s@, radix as int) {
            Some(n) => if 0 <= n && n <= u32::MAX { Some(n as u32) } else { None },
            None => None,
        },
{
    <u32 as num_traits::Num>::from_str_radix(s, radix).ok()
}

/// Relies on `num_traits::Num::from_str_radix` for `u64`, which hands the string
/// to `u64::from_str_radix`: an optional `+`, then digits of the base, within range.
#[verifier::external_body]
fn u64_from_str_radix(s: &str, radix: u32) -> (r: Option<u64>)
    requires
        2 <= radix <= 36,
    ensures
        r == match unsigned_literal(s@, radix as int) {
            Some(n) => if 0 <= n && n <= u64::MAX { Some(n as u64) } else { None },
            None => None,
        },
{
    <u64 as num_traits::Num>::from_str_radix(s, radix).ok()
}

/// Relies on `num_traits::Num::from_str_radix` for `u128`, which hands the string
/// to `u128::from_str_radix`: an optional `+`, then digits of the base, within range.
#[verifier::external_body]
fn u128_from_str_radix(s: &str, radix: u32) -> (r: Option<u128>)
    requires
        2 <= radix <= 36,
    ensures
        r == match unsigned_literal(s@, radix as int) {
            Some(n) => if 0 <= n && n <= u128::MAX { Some(n as u128) } else { None },
            None => None,
        },
{
    <u128 as num_traits::Num>::from_str_radix(s, radix).ok()
}

/// Relies on `num_traits::Num::from_str_radix` for `usize`, which hands the string
/// to `usize::from_str_radix`: an optional `+`, then digits of the base, within range.
#[verifier::external_body]
fn usize_from_str_radix(s: &str, radix: u32) -> (r: Option<usize>)
    requires
        2 <= radix <= 36,
    ensures
        r == match unsigned_literal(s@, radix as int) {
            Some(n) => if 0 <= n && n <= usize::MAX { Some(n as usize) } else { None },
            None => None,
        },
{
    <usize as num_traits::Num>::from_str_radix(s, radix).ok()
}

/// Relies on `num_traits::Num::from_str_radix` for `i8`, which hands the string
/// to `i8::from_str_radix`: an optional `+` or `-`, then digits of the base, within range.
#[verifier::external_body]
fn i8_from_str_radix(s: &str, radix: u32) -> (r: Option<i8>)
    requires
        2 <= radix <= 36,
    ensures
        r == match signed_literal(s@, radix as int) {
            Some(n) => if i8::MIN <= n && n <= i8::MAX { Some(n as i8) } else { None },
            None => None,
        },
{
    <i8 as num_traits::Num>::from_str_radix(s, radix).ok()
}

/// Relies on `num_traits::Num::from_str_radix` for `i16`, which hands the string
/// to `i16::from_str_radix`: an optional `+` or `-`, then digits of the base, within range.
#[verifier::external_body]
fn i16_from_str_radix(s: &str, radix: u32) -> (r: Option<i16>)
    requires
        2 <= radix <= 36,
    ensures
        r == match signed_literal(s@, radix as int) {
            Some(n) => if i16::MIN <= n && n <= i16::MAX { Some(n as i16) } else { None },
            None => None,
        },
{
    <i16 as num_traits::Num>::from_str_radix(s, radix).ok()
}

/// Relies on `num_traits::Num::from_str_radix` for `i32`, which hands the string
/// to `i32::from_str_radix`: an optional `+` or `-`, then digits of the base, within range.
#[verifier::external_body]
fn i32_from_str_radix(s: &str, radix: u32) -> (r: Option<i32>)
    requires
        2 <= radix <= 36,
    ensures
        r == match signed_literal(s@, radix as int) {
            Some(n) => if i32::MIN <= n && n <= i32::MAX { Some(n as i32) } else { None },
            None => None,
        },
{
    <i32 as num_traits::Num>::from_str_radix(s, radix).ok()
}

/// Relies on `num_traits::Num::from_str_radix` for `i64`, which hands the string
/// to `i64::from_str_radix`: an optional `+` or `-`, then digits of the base, within range.
#[verifier::external_body]
fn i64_from_str_radix(s: &str, radix: u32) -> (r: Option<i64>)
    requires
        2 <= radix <= 36,
    ensures
        r == match signed_literal(s@, radix as int) {
            Some(n) => if i64::MIN <= n && n <= i64::MAX { Some(n as i64) } else { None },
            None => None,
        },
{
    <i64 as num_traits::Num>::from_str_radix(s, radix).ok()
}

/// Relies on `num_traits::Num::from_str_radix` for `i128`, which hands the string
/// to `i128::from_str_radix`: an optional `+` or `-`, then digits of the base, within range.
#[verifier::external_body]
fn i128_from_str_radix(s: &str, radix: u32) -> (r: Option<i128>)
    requires
        2 <= radix <= 36,
    ensures
        r == match signed_literal(s@, radix as int) {
            Some(n) => if i128::MIN <= n && n <= i128::MAX { Some(n as i128) } else { None },
            None => None,
        },
{
    <i128 as num_traits::Num>::from_str_radix(s, radix).ok()
}

/// Relies on `num_traits::Num::from_str_radix` for `isize`, which hands the string
/// to `isize::from_str_radix`: an optional `+` or `-`, then digits of the base, within range.
#[verifier::external_body]
fn isize_from_str_radix(s: &str, radix: u32) -> (r: Option<isize>)
    requires
        2 <= radix <= 36,
    ensures
        r == match signed_literal(s@, radix as int) {
            Some(n) => if isize::MIN <= n && n <= isize::MAX { Some(n as isize) } else { None },
            None => None,
        },
{
    <isize as num_traits::Num>::from_str_radix(s, radix).ok()
}

impl RadixInt for u8 {
    open spec fn spec_of(n: int) -> Option<u8> {
        if 0 <= n <= u8::MAX { Some(n as u8) } else { None }
    }

    open spec fn literal(s: Seq<char>, radix: int) -> Option<int> {
        unsigned_literal(s, radix)
    }

    fn from_str_radix(s: &str, radix: u32) -> (r: Result<u8, Error>) {
        match u8_from_str_radix(s, radix) {
            Some(v) => Ok(v),
            None => Err(Error::IntegerParseError),
        }
    }
}

impl RadixInt for u16 {
    open spec fn spec_of(n: int) -> Option<u16> {
        if 0 <= n <= u16::MAX { Some(n as u16) } else { None }
    }

    open spec fn literal(s: Seq<char>, radix: int) -> Option<int> {
        unsigned_literal(s, radix)
    }

    fn from_str_radix(s: &str, radix: u32) -> (r: Result<u16, Error>) {
        match u16_from_str_radix(s, radix) {
            Some(v) => Ok(v),
            None => Err(Error::IntegerParseError),
        }
    }
}

impl RadixInt for u32 {
    open spec fn spec_of(n: int) -> Option<u32> {
        if 0 <= n <= u32::MAX { Some(n as u32) } else { None }
    }

    open spec fn literal(s: Seq<char>, radix: int) -> Option<int> {
        unsigned_literal(s, radix)
    }

    fn from_str_radix(s: &str, radix: u32) -> (r: Result<u32, Error>) {
        match u32_from_str_radix(s, radix) {
            Some(v) => Ok(v),
            None => Err(Error::IntegerParseError),
        }
    }
}

impl RadixInt for u64 {
    open spec fn spec_of(n: int) -> Option<u64> {
        if 0 <= n <= u64::MAX { Some(n as u64) } else { None }
    }

    open spec fn literal(s: Seq<char>, radix: int) -> Option<int> {
        unsigned_literal(s, radix)
    }

    fn from_str_radix(s: &str, radix: u32) -> (r: Result<u64, Error>) {
        match u64_from_str_radix(s, radix) {
            Some(v) => Ok(v),
            None => Err(Error::IntegerParseError),
        }
    }
}

impl RadixInt for u128 {
    open spec fn spec_of(n: int) -> Option<u128> {
        if 0 <= n <= u128::MAX { Some(n as u128) } else { None }
    }

    open spec fn literal(s: Seq<char>, radix: int) -> Option<int> {
        unsigned_literal(s, radix)
    }

    fn from_str_radix(s: &str, radix: u32) -> (r: Result<u128, Error>) {
        match u128_from_str_radix(s, radix) {
            Some(v) => Ok(v),
            None => Err(Error::IntegerParseError),
        }
    }
}

impl RadixInt for usize {
    open spec fn spec_of(n: int) -> Option<usize> {
        if 0 <= n <= usize::MAX { Some(n as usize) } else { None }
    }

    open spec fn literal(s: Seq<char>, radix: int) -> Option<int> {
        unsigned_literal(s, radix)
    }

    fn from_str_radix(s: &str, radix: u32) -> (r: Result<usize, Error>) {
        match usize_from_str_radix(s, radix) {
            Some(v) => Ok(v),
            None => Err(Error::IntegerParseError),
        }
    }
}

impl RadixInt for i8 {
    open spec fn spec_of(n: int) -> Option<i8> {
        if i8::MIN <= n <= i8::MAX { Some(n as i8) } else { None }
    }

    open spec fn literal(s: Seq<char>, radix: int) -> Option<int> {
        signed_literal(s, radix)
    }

    fn from_str_radix(s: &str, radix: u32) -> (r: Result<i8, Error>) {
        match i8_from_str_radix(s, radix) {
            Some(v) => Ok(v),
            None => Err(Error::IntegerParseError),
        }
    }
}

impl RadixInt for i16 {
    open spec fn spec_of(n: int) -> Option<i16> {
        if i16::MIN <= n <= i16::MAX { Some(n as i16) } else { None }
    }

    open spec fn literal(s: Seq<char>, radix: int) -> Option<int> {
        signed_literal(s, radix)
    }

    fn from_str_radix(s: &str, radix: u32) -> (r: Result<i16, Error>) {
        match i16_from_str_radix(s, radix) {
            Some(v) => Ok(v),
            None => Err(Error::IntegerParseError),
        }
    }
}

impl RadixInt for i32 {
    open spec fn spec_of(n: int) -> Option<i32> {
        if i32::MIN <= n <= i32::MAX { Some(n as i32) } else { None }
    }

    open spec fn literal(s: Seq<char>, radix: int) -> Option<int> {
        signed_literal(s, radix)
    }

    fn from_str_radix(s: &str, radix: u32) -> (r: Result<i32, Error>) {
        match i32_from_str_radix(s, radix) {
            Some(v) => Ok(v),
            None => Err(Error::IntegerParseError),
        }
    }
}

impl RadixInt for i64 {
    open spec fn spec_of(n: int) -> Option<i64> {
        if i64::MIN <= n <= i64::MAX { Some(n as i64) } else { None }
    }

    open spec fn literal(s: Seq<char>, radix: int) -> Option<int> {
        signed_literal(s, radix)
    }

    fn from_str_radix(s: &str, radix: u32) -> (r: Result<i64, Error>) {
        match i64_from_str_radix(s, radix) {
            Some(v) => Ok(v),
            None => Err(Error::IntegerParseError),
        }
    }
}

impl RadixInt for i128 {
    open spec fn spec_of(n: int) -> Option<i128> {
        if i128::MIN <= n <= i128::MAX { Some(n as i128) } else { None }
    }

    open spec fn literal(s: Seq<char>, radix: int) -> Option<int> {
        signed_literal(s, radix)
    }

    fn from_str_radix(s: &str, radix: u32) -> (r: Result<i128, Error>) {
        match i128_from_str_radix(s, radix) {
            Some(v) => Ok(v),
            None => Err(Error::IntegerParseError),
        }
    }
}

impl RadixInt for isize {
    open spec fn spec_of(n: int) -> Option<isize> {
        if isize::MIN <= n <= isize::MAX { Some(n as isize) } else { None }
    }

    open spec fn literal(s: Seq<char>, radix: int) -> Option<int> {
        signed_literal(s, radix)
    }

    fn from_str_radix(s: &str, radix: u32) -> (r: Result<isize, Error>) {
        match isize_from_str_radix(s, radix) {
            Some(v) => Ok(v),
            None => Err(Error::IntegerParseError),
        }
    }
}

/// Whether `s` starts with `0` followed by `marker`.
pub open spec fn has_base_prefix(s: Seq<char>, marker: char) -> bool {
    s.len() >= 2 && s[0] == '0' && s[1] == marker
}

/// The value that `s` writes: after `0x`, `0o` or `0b` the rest is read in
/// base 16, 8 or 2; without one of those prefixes the whole is read in base 10.
pub open spec fn prefixed_parse<T: RadixInt>(s: Seq<char>) -> Option<T> {
    if has_base_prefix(s, 'x') {
        radix_parse::<T>(s.skip(2), 16)
    } else if has_base_prefix(s, 'o') {
        radix_parse::<T>(s.skip(2), 8)
    } else if has_base_prefix(s, 'b') {
        radix_parse::<T>(s.skip(2), 2)
    } else {
        radix_parse::<T>(s, 10)
    }
}

/// An integer field whose token may carry a base prefix.
#[derive(Debug, PartialEq)]
pub struct PrefixedNum<T: RadixInt> {
    pub inner: T,
}

impl<T: RadixInt> PrefixedNum<T> {
    pub fn new(value: T) -> (r: Self)
        ensures
            r.inner == value,
    {
        PrefixedNum { inner: value }
    }

    /// Reads `s` with its base prefix, as `prefixed_parse` describes.
    pub fn from_prefixed(s: &str) -> (r: Result<Self, Error>)
        ensures
            r == match prefixed_parse::<T>(s@) {
                Some(v) => Ok::<Self, Error>(PrefixedNum { inner: v }),
                None => Err::<Self, Error>(Error::IntegerParseError),
            },
    {
        let n = s.unicode_len();
        let mut radix: u32 = 10;
        let mut digits = s;
        if n >= 2 && s.get_char(0) == '0' {
            let marker = s.get_char(1);
            if marker == 'x' {
                radix = 16;
            } else if marker == 'o' {
                radix = 8;
            } else if marker == 'b' {
                radix = 2;
            }
            if radix != 10 {
                digits = s.substring_char(2, n);
            }
        }
        proof {
            if radix != 10 {
                assert(digits@ =~= s@.skip(2));
            }
        }
        match T::from_str_radix(digits, radix) {
            Ok(v) => Ok(PrefixedNum { inner: v }),
            Err(e) => Err(e),
        }
    }
}

impl<T: RadixInt> core::str::FromStr for PrefixedNum<T> {
    type Err = Error;

    /// Reads `s` with its base prefix, as `from_prefixed` does.
    fn from_str(s: &str) -> (r: Result<Self, Error>)
        ensures
            r == match prefixed_parse::<T>(s@) {
                Some(v) => Ok::<Self, Error>(PrefixedNum { inner: v }),
                None => Err::<Self, Error>(Error::IntegerParseError),
            },
    {
        Self::from_prefixed(s)
    }
}

} // verus!
