//! Small conversions between values and their text.

use std::num::ParseIntError;
use vstd::prelude::*;
use vstd::string::StringExecFns;

verus! {

/// `ParseIntError` of std: why a text is no number. It is handed on as it comes.
#[verifier::external_type_specification]
#[verifier::external_body]
pub struct ExParseIntError(ParseIntError);

/// A request timeout, in whole seconds.
#[derive(Clone, Copy, Debug, PartialEq, Eq, Hash, Structural)]
pub struct Timeout {
    /// The number of seconds after which a request is given up.
    pub secs: u64,
}

impl Timeout {
    /// A timeout of `secs` seconds.
    pub fn from_secs(secs: u64) -> (timeout: Self)
        ensures
            timeout == (Timeout { secs }),
    {
        Self { secs }
    }

    /// The number of seconds after which a request is given up.
    pub fn as_secs(&self) -> (secs: u64)
        ensures
            secs == self.secs,
    {
        self.secs
    }
}

/// The wire form of a flag: the site expects `"1"` and `"0"` in place of JSON booleans.
pub open spec fn spec_bool_to_int_str(value: bool) -> Seq<char> {
    if value {
        seq!['1']
    } else {
        seq!['0']
    }
}

/// Gives the text that stands for `value` in a request body.
pub fn bool_to_int_str(value: bool) -> (text: &'static str)
    ensures
        text@ == spec_bool_to_int_str(value),
{
    proof {
        reveal_strlit("1");
        reveal_strlit("0");
    }
    let text = if value {
        "1"
    } else {
        "0"
    };
    assert(text@ =~= spec_bool_to_int_str(value));
    text
}

/// Whether `c` is one of the ten ASCII digits.
pub open spec fn is_digit(c: char) -> bool {
    '0' <= c <= '9'
}

/// The number that the ASCII digit `c` stands for.
pub open spec fn digit_value(c: char) -> nat
    recommends
        is_digit(c),
{
    (c as nat - '0' as nat) as nat
}

/// The number that a run of ASCII digits denotes in base ten; leading zeros do not count.
pub open spec fn decimal_value(digits: Seq<char>) -> nat
    decreases digits.len(),
{
    if digits.len() == 0 {
        0
    } else {
        decimal_value(digits.drop_last()) * 10 + digit_value(digits.last())
    }
}

/// `text` without the plus sign that may stand in front of a number.
pub open spec fn without_sign(text: Seq<char>) -> Seq<char> {
    if text.len() > 0 && text[0] == '+' {
        text.subrange(1, text.len() as int)
    } else {
        text
    }
}

/// Whether `text` is a number of seconds: an optional plus sign, then one or more ASCII digits
/// and nothing else, denoting a number that fits in 64 bits.
pub open spec fn is_seconds(text: Seq<char>) -> bool {
    let digits = without_sign(text);
    &&& digits.len() > 0
    &&& forall|i: int| 0 <= i < digits.len() ==> is_digit(#[trigger] digits[i])
    &&& decimal_value(digits) <= u64::MAX
}

/// Calls `str::parse::<u64>` of std. Its documentation says that the text is to be an optional
/// plus sign followed by decimal digits only, and that anything else, an empty text, and a
/// number too large for the type are errors. The contract claims exactly that, and that the
/// digits are read in base ten.
#[verifier::external_body]
fn parse_u64(text: &str) -> (parsed: Result<u64, ParseIntError>)
    ensures
        parsed is Ok <==> is_seconds(text@),
        parsed is Ok ==> parsed->Ok_0 == decimal_value(without_sign(text@)),
{
    text.parse::<u64>()
}

/// Reads a timeout that is written as a number of seconds.
pub fn parse_duration(secs: &str) -> (timeout: Result<Timeout, ParseIntError>)
    ensures
        timeout is Ok <==> is_seconds(secs@),
        timeout is Ok ==> timeout->Ok_0.secs == decimal_value(without_sign(secs@)),
{
    match parse_u64(secs) {
        Ok(secs) => Ok(Timeout::from_secs(secs)),
        Err(error) => Err(error),
    }
}

/// The ASCII digit that stands for `digit`.
pub open spec fn digit_char(digit: nat) -> char
    recommends
        digit < 10,
{
    if digit == 0 {
        '0'
    } else if digit == 1 {
        '1'
    } else if digit == 2 {
        '2'
    } else if digit == 3 {
        '3'
    } else if digit == 4 {
        '4'
    } else if digit == 5 {
        '5'
    } else if digit == 6 {
        '6'
    } else if digit == 7 {
        '7'
    } else if digit == 8 {
        '8'
    } else {
        '9'
    }
}

/// `n` written in base ten, without leading zeros.
pub open spec fn decimal_digits(n: nat) -> Seq<char>
    decreases n,
{
    if n < 10 {
        seq![digit_char(n)]
    } else {
        decimal_digits(n / 10).push(digit_char(n % 10))
    }
}

fn digit_str(digit: u32) -> (text: &'static str)
    requires
        digit < 10,
    ensures
        text@ == seq![digit_char(digit as nat)],
{
    proof {
        reveal_strlit("0");
        reveal_strlit("1");
        reveal_strlit("2");
        reveal_strlit("3");
        reveal_strlit("4");
        reveal_strlit("5");
        reveal_strlit("6");
        reveal_strlit("7");
        reveal_strlit("8");
        reveal_strlit("9");
    }
    let text = match digit {
        0 => "0",
        1 => "1",
        2 => "2",
        3 => "3",
        4 => "4",
        5 => "5",
        6 => "6",
        7 => "7",
        8 => "8",
        _ => "9",
    };
    assert(text@ =~= seq![digit_char(digit as nat)]);
    text
}

/// Writes `n` in base ten, as it stands in the address of an offer.
pub fn decimal_string(n: u32) -> (text: String)
    ensures
        text@ == decimal_digits(n as nat),
    decreases n,
{
    if n < 10 {
        String::from_str(digit_str(n))
    } else {
        let mut text = decimal_string(n / 10);
        text.append(digit_str(n % 10));
        assert(text@ =~= decimal_digits(n as nat));
        text
    }
}

/// Ten to the power of `exponent`.
pub open spec fn pow10(exponent: nat) -> nat
    decreases exponent,
{
    if exponent == 0 {
        1
    } else {
        10 * pow10((exponent - 1) as nat)
    }
}

/// A number below ten to the power of `width` is written with at most `width` digits.
pub proof fn lemma_decimal_digits_len(n: nat, width: nat)
    requires
        width >= 1,
        n < pow10(width),
    ensures
        1 <= decimal_digits(n).len() <= width,
    decreases width,
{
    reveal_with_fuel(pow10, 2);
    if n >= 10 {
        assert(width >= 2);
        assert(n / 10 < pow10((width - 1) as nat));
        lemma_decimal_digits_len(n / 10, (width - 1) as nat);
    }
}

} // verus!
