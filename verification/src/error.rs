//! The ways in which de-identification can fail.

use vstd::prelude::*;
use vstd::string::*;

verus! {

/// A failure of the library.
#[derive(Clone, Copy, Debug, PartialEq, Eq, Structural)]
pub enum Error {
    /// The salt cannot key a pseudonym.
    InvalidConfiguration,
    /// A time of processing is not written as year, month, day, hour, minute
    /// and second.
    MalformedTimestamp,
    /// A purchase names a person that the table of people does not hold.
    MissingPerson { id: i64 },
}

/// The character that writes the digit `d`.
pub open spec fn digit_of(d: int) -> char {
    seq!['0', '1', '2', '3', '4', '5', '6', '7', '8', '9'][d]
}

/// The decimal digits of `n`, most significant first, without leading zeros.
pub open spec fn digits_of(n: nat) -> Seq<char>
    decreases n,
{
    if n < 10 {
        seq![digit_of(n as int)]
    } else {
        digits_of(n / 10).push(digit_of((n % 10) as int))
    }
}

/// The decimal text of `n`, with a minus sign where it is negative.
pub open spec fn decimal_of(n: int) -> Seq<char> {
    if n < 0 {
        seq!['-'] + digits_of((-n) as nat)
    } else {
        digits_of(n as nat)
    }
}

/// What is reported for a purchase whose person is missing.
pub open spec fn missing_person_text(id: i64) -> Seq<char> {
    "missing person with id: "@ + decimal_of(id as int)
}

/// The text that writes the digit `d`.
fn digit_text(d: u64) -> (text: &'static str)
    requires
        d < 10,
    ensures
        text@ == seq![digit_of(d as int)],
{
    proof {
        reveal_strlit("0");
        reveal_strlit("1");
        reveal_strlit("2");
        reveal_strlit("3");
        reveal_strlit("4");
        reveal_strlit("5");
        reveal_strlit("6");
        reveal_strlit("7");
        reveal_strlit("8");
        reveal_strlit("9");
    }
    let text = if d == 0 {
        "0"
    } else if d == 1 {
        "1"
    } else if d == 2 {
        "2"
    } else if d == 3 {
        "3"
    } else if d == 4 {
        "4"
    } else if d == 5 {
        "5"
    } else if d == 6 {
        "6"
    } else if d == 7 {
        "7"
    } else if d == 8 {
        "8"
    } else {
        "9"
    };
    assert(text@ =~= seq![digit_of(d as int)]);
    text
}

/// Appends the decimal digits of `n` to `out`.
fn append_digits(out: &mut String, n: u64)
    ensures
        final(out)@ == old(out)@ + digits_of(n as nat),
    decreases n,
{
    if n >= 10 {
        append_digits(out, n / 10);
    }
    out.append(digit_text(n % 10));
    assert(final(out)@ =~= old(out)@ + digits_of(n as nat));
}

/// Appends the decimal text of `n` to `out`.
pub fn append_decimal(out: &mut String, n: i64)
    ensures
        final(out)@ == old(out)@ + decimal_of(n as int),
{
    if n < 0 {
        proof {
            reveal_strlit("-");
        }
        out.append("-");
        let magnitude: u64 = if n == i64::MIN {
            9223372036854775808u64
        } else {
            (-n) as u64
        };
        append_digits(out, magnitude);
        assert(final(out)@ =~= old(out)@ + decimal_of(n as int));
    } else {
        append_digits(out, n as u64);
    }
}

impl Error {
    /// What `message` returns.
    pub open spec fn spec_message(self) -> Seq<char> {
        match self {
            Error::InvalidConfiguration => "invalid configuration: the salt is empty"@,
            Error::MalformedTimestamp => "malformed timestamp"@,
            Error::MissingPerson { id } => missing_person_text(id),
        }
    }

    /// The line that reports this failure.
    pub fn message(&self) -> (text: String)
        ensures
            text@ == self.spec_message(),
    {
        match self {
            Error::InvalidConfiguration => String::from_str(
                "invalid configuration: the salt is empty",
            ),
            Error::MalformedTimestamp => String::from_str("malformed timestamp"),
            Error::MissingPerson { id } => {
                let mut text = String::from_str("missing person with id: ");
                append_decimal(&mut text, *id);
                text
            },
        }
    }
}

} // verus!
