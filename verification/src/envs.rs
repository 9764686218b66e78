//! The settings that the gateway starts with.
//!
//! Reading the environment is the caller's part. What a missing variable
//! stands for and how a port is read from its text is decided here.

use vstd::prelude::*;
use vstd::string::StrSliceExecFns;

verus! {

/// The variable that names the address to listen on, and its default.
pub const HOST_VAR: &'static str = "HOST";

pub const DEFAULT_HOST: &'static str = "127.0.0.1";

/// The variable that names the port to listen on, and its default.
pub const PORT_VAR: &'static str = "PORT";

pub const DEFAULT_PORT: &'static str = "8000";

/// The variable that names the backend's host, and its default.
pub const DB_LOADER_HOST_VAR: &'static str = "DB_LOADER_HOST";

pub const DEFAULT_DB_LOADER_HOST: &'static str = "[::]";

/// The variable that names the backend's port, and its default.
pub const DB_LOADER_PORT_VAR: &'static str = "DB_LOADER_PORT";

pub const DEFAULT_DB_LOADER_PORT: &'static str = "8002";

/// The variable that names the log verbosity, and its default.
pub const MODE_VAR: &'static str = "MODE";

pub const DEFAULT_MODE: &'static str = "info";

/// Whether `c` is one of the ten decimal digits.
pub open spec fn is_digit(c: char) -> bool {
    '0' <= c <= '9'
}

/// The number that the decimal digit `c` writes.
pub open spec fn digit_value(c: char) -> nat
    recommends
        is_digit(c),
{
    (c as u32 - '0' as u32) as nat
}

/// Whether every character of `text` is a decimal digit.
pub open spec fn all_digits(text: Seq<char>) -> bool {
    forall|i: int| 0 <= i < text.len() ==> is_digit(#[trigger] text[i])
}

/// The number that a text of decimal digits writes.
pub open spec fn decimal_value(digits: Seq<char>) -> nat
    decreases digits.len(),
{
    if digits.len() == 0 {
        0
    } else {
        decimal_value(digits.drop_last()) * 10 + digit_value(digits.last())
    }
}

/// The digits of a port's text: the text less a leading `+`.
pub open spec fn port_digits(text: Seq<char>) -> Seq<char> {
    if text.len() > 0 && text[0] == '+' {
        text.drop_first()
    } else {
        text
    }
}

/// The port that `text` writes: one or more decimal digits, with or without
/// a `+` before them, whose number is at most 65535.
pub open spec fn spec_parse_port(text: Seq<char>) -> Option<u16> {
    let digits = port_digits(text);
    if digits.len() > 0 && all_digits(digits) && decimal_value(digits) <= u16::MAX {
        Some(decimal_value(digits) as u16)
    } else {
        None
    }
}

/// A text of digits writes at least as much as any of its beginnings.
proof fn lemma_decimal_value_grows(digits: Seq<char>, n: int)
    requires
        0 <= n <= digits.len(),
    ensures
        decimal_value(digits.take(n)) <= decimal_value(digits),
    decreases digits.len() - n,
{
    if n == digits.len() {
        assert(digits.take(n) =~= digits);
    } else {
        lemma_decimal_value_grows(digits, n + 1);
        assert(digits.take(n + 1).drop_last() =~= digits.take(n));
    }
}

/// Reads a port from its text.
pub fn parse_port(text: &str) -> (port: Option<u16>)
    ensures
        port == spec_parse_port(text@),
{
    let len = text.unicode_len();
    if len == 0 {
        return None;
    }
    let start: usize = if text.get_char(0) == '+' {
        1
    } else {
        0
    };
    let ghost digits = port_digits(text@);
    assert(digits =~= text@.subrange(start as int, len as int));
    if start == len {
        return None;
    }
    let mut value: u32 = 0;
    let mut i: usize = start;
    while i < len
        invariant
            start <= i <= len,
            len == text@.len(),
            digits == text@.subrange(start as int, len as int),
            digits == port_digits(text@),
            all_digits(digits.take(i - start)),
            value == decimal_value(digits.take(i - start)),
            value <= u16::MAX,
        decreases len - i,
    {
        let c = text.get_char(i);
        assert(c == digits[i - start]);
        if !('0' <= c && c <= '9') {
            assert(!all_digits(digits));
            return None;
        }
        let d: u32 = c as u32 - '0' as u32;
        proof {
            assert(digits.take(i + 1 - start).drop_last() =~= digits.take(i - start));
            assert(digits.take(i + 1 - start).last() == c);
        }
        value = value * 10 + d;
        if value > 65535 {
            proof {
                lemma_decimal_value_grows(digits, i + 1 - start);
            }
            return None;
        }
        i += 1;
    }
    assert(digits.take(len - start) =~= digits);
    Some(value as u16)
}

/// The settings of the gateway.
#[derive(Debug, PartialEq, Eq)]
pub struct Envs {
    pub host: String,
    pub port: u16,
    pub db_loader_host: String,
    pub db_loader_port: u16,
    pub mode: String,
}

impl Envs {
    /// The settings that the five values stand for, each the value of its
    /// variable or, where the variable is not set, its default. `None` where
    /// one of the two ports is no port.
    pub fn parse(
        host: String,
        port: &str,
        db_loader_host: String,
        db_loader_port: &str,
        mode: String,
    ) -> (r: Option<Envs>)
        ensures
            r == match (spec_parse_port(port@), spec_parse_port(db_loader_port@)) {
                (Some(p), Some(q)) => Some(
                    Envs { host, port: p, db_loader_host, db_loader_port: q, mode },
                ),
                _ => None,
            },
    {
        match (parse_port(port), parse_port(db_loader_port)) {
            (Some(p), Some(q)) => Some(
                Envs { host, port: p, db_loader_host, db_loader_port: q, mode },
            ),
            _ => None,
        }
    }
}

} // verus!
