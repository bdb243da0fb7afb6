use vstd::prelude::*;

use crate::errors::UiError;
use crate::select_input::{decimal_digits, lemma_parse_i32_of_decimal, parse_value, spec_parse_i32};
use vstd::string::StringSliceAdditionalSpecFns;

verus! {

/// What `parse_luminosity` answers for the text `s`.
pub open spec fn spec_parse_luminosity(s: Seq<u8>) -> Result<i32, UiError> {
    match spec_parse_i32(s) {
        Some(n) => if n >= 0 {
            Ok(n)
        } else {
            Err(UiError::LuminosityError)
        },
        None => Err(UiError::LuminosityError),
    }
}

/// Reads the typed sharpness of an object's highlights: a whole number that is not
/// negative.
pub fn parse_luminosity(luminosity: &str) -> (r: Result<i32, UiError>)
    ensures
        r == spec_parse_luminosity(luminosity.spec_bytes()),
{
    let non_negative = |n: i32| -> (ok: bool)
        ensures
            ok == (n >= 0),
        { n >= 0 };
    parse_value(luminosity, UiError::LuminosityError, non_negative)
}

/// A typed luminosity is accepted exactly when it is a whole number that is not
/// negative, with no upper bound, and then it is that number; otherwise it is refused
/// with `LuminosityError`. In particular the decimal spelling of any `n` from 0 to
/// `i32::MAX` reads as `n`.
pub proof fn lemma_parse_luminosity_reads_non_negative(s: Seq<u8>, n: nat)
    ensures
        spec_parse_i32(s) is Some && spec_parse_i32(s)->0 >= 0 ==> spec_parse_luminosity(s) == Ok::<
            i32,
            UiError,
        >(spec_parse_i32(s)->0),
        !(spec_parse_i32(s) is Some && spec_parse_i32(s)->0 >= 0) ==> spec_parse_luminosity(s)
            == Err::<i32, UiError>(UiError::LuminosityError),
        n <= i32::MAX ==> spec_parse_luminosity(decimal_digits(n)) == Ok::<i32, UiError>(n as i32),
{
    lemma_parse_i32_of_decimal(n);
}

} // verus!
