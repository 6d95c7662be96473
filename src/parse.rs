use std::num::ParseIntError;
use vstd::prelude::*;

verus! {

#[verifier::external_type_specification]
#[verifier::external_body]
pub struct ExParseIntError(ParseIntError);

/// Whether `c` is one of the ASCII digits `0` to `9`.
pub open spec fn is_digit(c: char) -> bool {
    '0' <= c && c <= '9'
}

/// The value of a string of decimal digits, most significant first.
pub open spec fn digits_value(s: Seq<char>) -> int
    decreases s.len(),
{
    if s.len() == 0 {
        0
    } else {
        10 * digits_value(s.drop_last()) + (s.last() as int - '0' as int)
    }
}

/// Whether `s` consists of decimal digits only.
pub open spec fn all_digits(s: Seq<char>) -> bool {
    forall|i: int| 0 <= i < s.len() ==> is_digit(#[trigger] s[i])
}

/// `s` without its leading sign, if it has one.
pub open spec fn unsigned_part(s: Seq<char>) -> Seq<char> {
    if s.len() > 0 && (s[0] == '-' || s[0] == '+') {
        s.drop_first()
    } else {
        s
    }
}

/// The signed 8-bit integer that the text `s` denotes: an optional `+` or
/// `-` sign followed by one or more decimal digits, in the range of `i8`.
pub open spec fn parsed_i8(s: Seq<char>) -> Option<int> {
    let body = unsigned_part(s);
    let value = if s.len() > 0 && s[0] == '-' {
        -digits_value(body)
    } else {
        digits_value(body)
    };
    if body.len() > 0 && all_digits(body) && -128 <= value <= 127 {
        Some(value)
    } else {
        None
    }
}

/// Relies on `str::parse::<i8>` (`i8::from_str_radix` in base 10), which
/// accepts exactly an optional sign followed by decimal digits whose value
/// fits in `i8`.
#[verifier::external_body]
fn parse_i8(s: &str) -> (r: Result<i8, ParseIntError>)
    ensures
        r.is_ok() <==> parsed_i8(s@).is_some(),
        r matches Ok(v) ==> parsed_i8(s@) == Some(v as int),
{
    s.parse::<i8>()
}

/// Reads a task id from an optional command-line value. A missing value is
/// an error, as is text that is not a decimal integer in the range of `i8`.
pub fn option_string_to_i8(opt: Option<String>) -> (r: Result<i8, ParseIntError>)
    ensures
        r.is_ok() <==> (opt matches Some(s) && parsed_i8(s@).is_some()),
        r matches Ok(v) ==> (opt matches Some(s) && parsed_i8(s@) == Some(v as int)),
{
    match opt {
        Some(s) => parse_i8(s.as_str()),
        None => {
            let missing = "No value";
            proof {
                reveal_strlit("No value");
                assert(missing@.len() == 8 && missing@[0] == 'N');
                assert(unsigned_part(missing@) == missing@);
                assert(!is_digit(missing@[0]));
                assert(parsed_i8(missing@).is_none());
            }
            Err(parse_i8(missing).unwrap_err())
        }
    }
}

} // verus!
