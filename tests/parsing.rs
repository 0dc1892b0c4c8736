use aline::internal::next_arg;
use aline::{finish_args, parse_field, ArgValue, CommandParser, Error, FixedText, PrefixedNum, RadixInt};

#[test]
fn all_bases_parse_correctly() {
    let mut test = (
        PrefixedNum::<u32>::new(0),
        PrefixedNum::<u32>::new(0),
        PrefixedNum::<u32>::new(0),
        PrefixedNum::<u32>::new(0),
    );

    test.parse(&["0xff", "0o7", "0b1010101", "1234"]).unwrap();

    assert_eq!(
        test,
        (
            PrefixedNum::new(0xff),
            PrefixedNum::new(0o7),
            PrefixedNum::new(0b1010101),
            PrefixedNum::new(1234),
        )
    );
}

#[test]
fn too_few_arguments_returns_error() {
    let mut test = (0u32, 0u32);

    assert_eq!(test.parse(&["1"]), Err(Error::TooFewArguments));
}

#[test]
fn too_many_arguments_returns_error() {
    let mut test = (0u32,);

    assert_eq!(test.parse(&["1", "2"]), Err(Error::UnusedArguments));
}

#[test]
fn heapless_string_parses_correctly() {
    let mut test = (FixedText::<16>::new(),);

    test.parse(&["test"]).unwrap();

    assert_eq!(test, (FixedText::<16>::try_from_str("test").unwrap(),));
    assert_eq!(test.0.as_bytes(), b"test");
}

#[test]
fn heapless_string_overflow_returns_error() {
    let mut test = (FixedText::<2>::new(),);

    assert_eq!(test.parse(&["test"]), Err(Error::ArgumentParseError));
}

#[test]
fn text_at_capacity_round_trips() {
    let mut test = (FixedText::<4>::new(),);
    assert_eq!(test.parse(&["abcd"]), Ok(()));
    assert_eq!(test.0.as_bytes(), b"abcd");
    assert_eq!(test.0.len(), 4);
    assert_eq!(test.0.capacity(), 4);
    assert!(!test.0.is_empty());
    assert!(FixedText::<4>::new().is_empty());
    assert_eq!(FixedText::<3>::try_from_str("abcd"), Err(Error::ArgumentParseError));
}

#[test]
fn exact_tokens_fill_every_field() {
    let mut test = (0u8, 0u16, 0u64, PrefixedNum::<u32>::new(0));
    assert_eq!(test.parse(&["255", "65535", "18446744073709551615", "0b11"]), Ok(()));
    assert_eq!(test, (255u8, 65535u16, u64::MAX, PrefixedNum::new(3)));
}

#[test]
fn too_few_tokens_for_three_fields() {
    let mut test = (0u32, 0u32, 0u32);
    assert_eq!(test.parse(&[]), Err(Error::TooFewArguments));
    assert_eq!(test.parse(&["1", "2"]), Err(Error::TooFewArguments));
}

#[test]
fn invalid_token_before_running_out_is_a_parse_error() {
    let mut test = (0u32, 0u32);
    assert_eq!(test.parse(&["x"]), Err(Error::ArgumentParseError));
}

#[test]
fn extra_tokens_after_valid_fields_are_unused() {
    let mut test = (PrefixedNum::<u8>::new(0), 0u8);
    assert_eq!(test.parse(&["0x10", "3", "junk"]), Err(Error::UnusedArguments));
}

#[test]
fn invalid_token_is_a_parse_error() {
    let mut test = (0u32,);
    assert_eq!(test.parse(&["12a"]), Err(Error::ArgumentParseError));
    let mut test = (PrefixedNum::<u32>::new(0),);
    assert_eq!(test.parse(&["0b2"]), Err(Error::ArgumentParseError));
}

#[test]
fn prefixed_numbers() {
    assert_eq!(PrefixedNum::<u32>::from_prefixed("0xff"), Ok(PrefixedNum::new(255)));
    assert_eq!(PrefixedNum::<u32>::from_prefixed("0xFF"), Ok(PrefixedNum::new(255)));
    assert_eq!(PrefixedNum::<u32>::from_prefixed("0o17"), Ok(PrefixedNum::new(15)));
    assert_eq!(PrefixedNum::<u32>::from_prefixed("0b1010101"), Ok(PrefixedNum::new(85)));
    assert_eq!(PrefixedNum::<u32>::from_prefixed("0"), Ok(PrefixedNum::new(0)));
    assert_eq!(PrefixedNum::<u32>::from_prefixed("007"), Ok(PrefixedNum::new(7)));
    assert_eq!(PrefixedNum::<u32>::from_prefixed("0x"), Err(Error::IntegerParseError));
    assert_eq!(PrefixedNum::<u32>::from_prefixed("0b102"), Err(Error::IntegerParseError));
    assert_eq!(PrefixedNum::<u8>::from_prefixed("0x100"), Err(Error::IntegerParseError));
    assert_eq!(PrefixedNum::<u32>::from_prefixed("0X10"), Err(Error::IntegerParseError));
}

#[test]
fn radix_reading_of_each_width() {
    assert_eq!(<u8 as RadixInt>::from_str_radix("255", 10), Ok(255));
    assert_eq!(<u8 as RadixInt>::from_str_radix("256", 10), Err(Error::IntegerParseError));
    assert_eq!(<u16 as RadixInt>::from_str_radix("ffff", 16), Ok(65535));
    assert_eq!(<u16 as RadixInt>::from_str_radix("10000", 16), Err(Error::IntegerParseError));
    assert_eq!(<u32 as RadixInt>::from_str_radix("+17", 8), Ok(15));
    assert_eq!(<u32 as RadixInt>::from_str_radix("-1", 10), Err(Error::IntegerParseError));
    assert_eq!(<u32 as RadixInt>::from_str_radix("", 10), Err(Error::IntegerParseError));
    assert_eq!(<u64 as RadixInt>::from_str_radix("11111111", 2), Ok(255));
    assert_eq!(<u64 as RadixInt>::from_str_radix(" 1", 10), Err(Error::IntegerParseError));
}

#[test]
fn values_from_single_tokens() {
    assert_eq!(<u16 as ArgValue>::parse_arg("42"), Ok(42));
    assert_eq!(<u16 as ArgValue>::parse_arg("0x2a"), Err(Error::IntegerParseError));
    assert_eq!(<PrefixedNum<u16> as ArgValue>::parse_arg("0x2a"), Ok(PrefixedNum::new(42)));
    assert_eq!(
        <FixedText<8> as ArgValue>::parse_arg("hi"),
        Ok(FixedText::<8>::try_from_str("hi").unwrap())
    );
}

#[test]
fn next_arg_takes_the_head() {
    let args = ["a", "b", "c"];
    let (rest, tok) = next_arg(&args).unwrap();
    assert_eq!(tok, "a");
    assert_eq!(rest, &["b", "c"]);
    let empty: [&str; 0] = [];
    assert_eq!(next_arg(&empty), Err(Error::TooFewArguments));
}

#[test]
fn field_steps_by_hand() {
    let mut a = 0u32;
    let mut b = PrefixedNum::<u32>::new(0);
    let args = ["5", "0o10"];
    let rest = parse_field(&args, &mut a).unwrap();
    let rest = parse_field(rest, &mut b).unwrap();
    assert_eq!(finish_args(rest), Ok(()));
    assert_eq!((a, b.inner), (5, 8));
    assert_eq!(parse_field(rest, &mut a), Err(Error::TooFewArguments));
    assert_eq!(a, 5);
    assert_eq!(finish_args(&args), Err(Error::UnusedArguments));
}

#[test]
fn tuple_commands_have_no_name() {
    assert_eq!((0u32,).name(), "");
}

#[test]
fn prefixed_numbers_through_from_str() {
    let v: PrefixedNum<u16> = "0o777".parse().unwrap();
    assert_eq!(v.inner, 511);
    assert_eq!("0xg".parse::<PrefixedNum<u16>>(), Err(Error::IntegerParseError));
}

#[test]
fn signed_and_wide_values() {
    assert_eq!(<i8 as RadixInt>::from_str_radix("-128", 10), Ok(-128));
    assert_eq!(<i8 as RadixInt>::from_str_radix("128", 10), Err(Error::IntegerParseError));
    assert_eq!(<i32 as RadixInt>::from_str_radix("-+5", 10), Err(Error::IntegerParseError));
    assert_eq!(<i64 as RadixInt>::from_str_radix("+7f", 16), Ok(127));
    assert_eq!(<i16 as RadixInt>::from_str_radix("-", 10), Err(Error::IntegerParseError));
    assert_eq!(<i128 as RadixInt>::from_str_radix("-101", 2), Ok(-5));
    assert_eq!(<isize as RadixInt>::from_str_radix("-z", 36), Ok(-35));
    assert_eq!(<u128 as RadixInt>::from_str_radix("340282366920938463463374607431768211455", 10), Ok(u128::MAX));
    assert_eq!(<usize as RadixInt>::from_str_radix("12", 3), Ok(5));
    let mut test = (0i32, PrefixedNum::<i64>::new(0));
    assert_eq!(test.parse(&["-42", "0x-10"]), Ok(()));
    assert_eq!(test, (-42, PrefixedNum::new(-16)));
}

#[test]
fn failed_parse_keeps_later_fields() {
    let mut test = (1u32, 2u32, 3u32);
    assert_eq!(test.parse(&["10", "x", "30"]), Err(Error::ArgumentParseError));
    assert_eq!(test, (10, 2, 3));
    let mut test = (1u32, 2u32, 3u32);
    assert_eq!(test.parse(&["10", "20"]), Err(Error::TooFewArguments));
    assert_eq!(test, (10, 20, 3));
}

#[test]
fn command_without_fields() {
    let mut test = ();
    assert_eq!(test.parse(&[]), Ok(()));
    assert_eq!(test.parse(&["a"]), Err(Error::UnusedArguments));
    assert_eq!(test.name(), "");
}

#[test]
fn refused_token_leaves_field() {
    let mut a = 9u8;
    assert_eq!(parse_field(&["300"], &mut a), Err(Error::ArgumentParseError));
    assert_eq!(a, 9);
}
