//! The retry error type.
use vstd::prelude::*;

verus! {

/// An error with a numeric code and a message.
#[derive(Debug)]
pub struct RetryError {
    code: i32,
    message: String,
}

/// The character of decimal digit `d`.
pub open spec fn digit_char(d: nat) -> char {
    (48 + d) as char
}

/// The decimal digits of `n`, most significant first.
pub open spec fn decimal_digits(n: nat) -> Seq<char>
    decreases n,
{
    if n < 10 {
        seq![digit_char(n)]
    } else {
        decimal_digits(n / 10).push(digit_char(n % 10))
    }
}

/// `n` written in decimal, with a leading `-` when negative.
pub open spec fn decimal(n: int) -> Seq<char> {
    if n < 0 {
        seq!['-'] + decimal_digits((-n) as nat)
    } else {
        decimal_digits(n as nat)
    }
}

/// The text of decimal digit `d`.
fn digit_str(d: u32) -> (s: &'static str)
    requires
        d < 10,
    ensures
        s@ == seq![digit_char(d as nat)],
{
    if d == 0 {
        proof {
            reveal_strlit("0");
        }
        "0"
    } else if d == 1 {
        proof {
            reveal_strlit("1");
        }
        "1"
    } else if d == 2 {
        proof {
            reveal_strlit("2");
        }
        "2"
    } else if d == 3 {
        proof {
            reveal_strlit("3");
        }
        "3"
    } else if d == 4 {
        proof {
            reveal_strlit("4");
        }
        "4"
    } else if d == 5 {
        proof {
            reveal_strlit("5");
        }
        "5"
    } else if d == 6 {
        proof {
            reveal_strlit("6");
        }
        "6"
    } else if d == 7 {
        proof {
            reveal_strlit("7");
        }
        "7"
    } else if d == 8 {
        proof {
            reveal_strlit("8");
        }
        "8"
    } else {
        proof {
            reveal_strlit("9");
        }
        "9"
    }
}

/// Appends the decimal digits of `n` to `out`.
fn push_decimal_digits(out: &mut String, n: u32)
    ensures
        final(out)@ == old(out)@ + decimal_digits(n as nat),
    decreases n,
{
    if n >= 10 {
        push_decimal_digits(out, n / 10);
    }
    out.append(digit_str(n % 10));
    proof {
        if n >= 10 {
            assert(decimal_digits(n as nat) == decimal_digits((n / 10) as nat).push(
                digit_char((n % 10) as nat),
            ));
        }
    }
}

impl RetryError {
    /// The error code.
    pub closed spec fn spec_code(self) -> i32 {
        self.code
    }

    /// The error message.
    pub closed spec fn spec_message(self) -> Seq<char> {
        self.message@
    }

    /// An error with code -1 and the given message.
    pub fn new(message: &str) -> (r: Self)
        ensures
            r.spec_code() == -1,
            r.spec_message() == message@,
    {
        RetryError { code: -1, message: String::from_str(message) }
    }

    /// An error with the given code and message.
    pub fn custom(code: i32, message: &str) -> (r: Self)
        ensures
            r.spec_code() == code,
            r.spec_message() == message@,
    {
        let message = String::from_str(message);
        RetryError { code, message }
    }

    /// The error code.
    pub fn code(&self) -> (r: i32)
        ensures
            r == self.spec_code(),
    {
        self.code
    }

    /// The error message.
    pub fn message(&self) -> (r: &str)
        ensures
            r@ == self.spec_message(),
    {
        self.message.as_str()
    }

    /// The error as text: `Err code: <code>, Err message: <message>`.
    pub fn to_string(&self) -> (r: String)
        ensures
            r@ == "Err code: "@ + decimal(self.spec_code() as int) + ", Err message: "@
                + self.spec_message(),
    {
        let mut text = String::from_str("Err code: ");
        if self.code < 0 {
            text.append("-");
            proof {
                reveal_strlit("-");
            }
            let magnitude: u32 = (-(self.code as i64)) as u32;
            push_decimal_digits(&mut text, magnitude);
        } else {
            push_decimal_digits(&mut text, self.code as u32);
        }
        text.append(", Err message: ");
        text.append(self.message.as_str());
        text
    }
}

} // verus!
