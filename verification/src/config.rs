//! The settings of the service, read from the texts of its environment.

use vstd::prelude::*;
use vstd::string::*;

verus! {

/// The port on which the service listens where none is set.
pub const DEFAULT_PORT: u16 = 3000;

/// The value of a decimal digit, if the character is one.
pub open spec fn digit_value(c: char) -> Option<nat> {
    if '0' <= c <= '9' {
        Some((c as u32 - '0' as u32) as nat)
    } else {
        None
    }
}

/// The number that a text of decimal digits denotes; none where a character
/// of the text is no digit.
pub open spec fn digits_value(digits: Seq<char>) -> Option<nat>
    decreases digits.len(),
{
    if digits.len() == 0 {
        Some(0)
    } else {
        match (digits_value(digits.drop_last()), digit_value(digits.last())) {
            (Some(before), Some(digit)) => Some(before * 10 + digit),
            _ => None,
        }
    }
}

/// The number up to `max` that a text denotes: decimal digits, at least
/// one, which a plus sign may precede. Anything else, a number above `max`
/// too, denotes none.
pub open spec fn number_of(text: Seq<char>, max: nat) -> Option<nat> {
    let digits = if text.len() > 0 && text[0] == '+' {
        text.drop_first()
    } else {
        text
    };
    if digits.len() == 0 {
        None
    } else {
        match digits_value(digits) {
            Some(value) => if value <= max {
                Some(value)
            } else {
                None
            },
            None => None,
        }
    }
}

proof fn lemma_digits_grow(digits: Seq<char>, n: int)
    requires
        0 <= n <= digits.len(),
    ensures
        digits_value(digits) matches Some(value) ==> (digits_value(digits.subrange(0, n))
            matches Some(part) && part <= value),
    decreases digits.len() - n,
{
    if n == digits.len() {
        assert(digits.subrange(0, n) =~= digits);
    } else {
        lemma_digits_grow(digits, n + 1);
        assert(digits.subrange(0, n + 1).drop_last() =~= digits.subrange(0, n));
    }
}

/// Reads a number up to `max` from a text.
pub fn parse_number(text: &str, max: u64) -> (number: Option<u64>)
    ensures
        match number {
            Some(n) => number_of(text@, max as nat) == Some(n as nat),
            None => number_of(text@, max as nat) is None,
        },
{
    let count = text.unicode_len();
    if count == 0 {
        return None;
    }
    let start: usize = if text.get_char(0) == '+' {
        1
    } else {
        0
    };
    if start == count {
        assert(text@.drop_first().len() == 0);
        return None;
    }
    let ghost digits = text@.subrange(start as int, count as int);
    assert(digits =~= if text@.len() > 0 && text@[0] == '+' {
        text@.drop_first()
    } else {
        text@
    });
    let mut value: u64 = 0;
    let mut i: usize = start;
    assert(digits.subrange(0, 0) =~= Seq::<char>::empty());
    while i < count
        invariant
            count == text@.len(),
            start <= i <= count,
            digits == text@.subrange(start as int, count as int),
            digits.len() > 0,
            digits == (if text@.len() > 0 && text@[0] == '+' {
                text@.drop_first()
            } else {
                text@
            }),
            digits_value(digits.subrange(0, i - start)) == Some(value as nat),
            value <= max,
        decreases count - i,
    {
        let c = text.get_char(i);
        let ghost upto = digits.subrange(0, i - start + 1);
        assert(upto.drop_last() =~= digits.subrange(0, i - start));
        assert(upto.last() == c);
        if !('0' <= c && c <= '9') {
            proof {
                assert(digit_value(c) is None);
                assert(digits_value(upto) is None);
                lemma_digits_grow(digits, i - start + 1);
            }
            return None;
        }
        let digit: u64 = (c as u32 - '0' as u32) as u64;
        assert(digit_value(c) == Some(digit as nat));
        if digit > max || value > (max - digit) / 10 {
            proof {
                assert(value * 10 + digit > max) by (nonlinear_arith)
                    requires
                        digit > max || value > (max - digit) / 10,
                        digit <= 9,
                ;
                assert(digits_value(upto) == Some((value * 10 + digit) as nat));
                lemma_digits_grow(digits, i - start + 1);
            }
            return None;
        }
        assert(value * 10 + digit <= max) by (nonlinear_arith)
            requires
                value <= (max - digit) / 10,
                digit <= max,
        ;
        value = value * 10 + digit;
        i = i + 1;
    }
    assert(digits.subrange(0, count - start) =~= digits);
    Some(value)
}

/// The settings of the service.
#[derive(Clone, Copy, Debug, PartialEq, Eq, Structural)]
pub struct Config {
    pub port: u16,
}

/// The port that the text of a setting denotes: the default where the
/// setting is absent or denotes no port.
pub open spec fn port_of(text: Option<Seq<char>>) -> u16 {
    match text {
        Some(t) => match number_of(t, u16::MAX as nat) {
            Some(port) => port as u16,
            None => DEFAULT_PORT,
        },
        None => DEFAULT_PORT,
    }
}

impl Config {
    /// Makes the settings from the text of the port setting, if it is set.
    pub fn from_port_text(port: Option<&str>) -> (config: Config)
        ensures
            config.port == port_of(
                match port {
                    Some(t) => Some(t@),
                    None => None,
                },
            ),
    {
        let port: u16 = match port {
            Some(text) => match parse_number(text, 65535) {
                Some(n) => n as u16,
                None => DEFAULT_PORT,
            },
            None => DEFAULT_PORT,
        };
        Config { port }
    }
}

} // verus!
