//! Building blocks for command parsers.
use vstd::prelude::*;
use vstd::slice::slice_subrange;

use crate::Error;

verus! {

/// Takes the first token off `args`: the rest of the tokens and the token
/// taken, or `TooFewArguments` when there is none.
pub fn next_arg<'a>(args: &'a [&'a str]) -> (r: Result<(&'a [&'a str], &'a str), Error>)
    ensures
        args@.len() == 0 ==> r == Err::<(&'a [&'a str], &'a str), Error>(Error::TooFewArguments),
        args@.len() > 0 ==> (r matches Ok((rest, tok)) && rest@ == args@.drop_first() && tok == args@[0]),
{
    if args.len() == 0 {
        return Err(Error::TooFewArguments);
    }
    Ok((slice_subrange(args, 1, args.len()), args[0]))
}

} // verus!
