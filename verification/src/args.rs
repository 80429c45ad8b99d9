//! The command line: how many processes, and how long the simulation lasts.

use vstd::prelude::*;

verus! {

pub const DEFAULT_NUM_PROCS: usize = 5;

pub const DEFAULT_DURATION_SECS: u64 = 10;

/// What the command line asks for.
#[derive(Debug, Clone, Copy, PartialEq, Eq, Structural)]
pub struct Config {
    pub num_procs: usize,
    pub sim_duration_secs: u64,
}

/// `c` is a decimal digit.
pub open spec fn is_digit(c: char) -> bool {
    '0' <= c <= '9'
}

/// The number that a row of decimal digits stands for.
pub open spec fn digits_value(s: Seq<char>) -> nat
    decreases s.len(),
{
    if s.len() == 0 {
        0
    } else {
        digits_value(s.drop_last()) * 10 + (s.last() as nat - '0' as nat) as nat
    }
}

/// The digits of a number with an optional plus sign before it.
pub open spec fn unsigned_digits(s: Seq<char>) -> Seq<char> {
    if s.len() > 0 && s[0] == '+' {
        s.drop_first()
    } else {
        s
    }
}

/// The number that `s` writes: an optional plus sign, then decimal digits, at
/// least one, and nothing else, with a value of at most `max`.
pub open spec fn parsed(s: Seq<char>, max: nat) -> Option<nat> {
    let digits = unsigned_digits(s);
    if digits.len() > 0 && (forall|i: int| 0 <= i < digits.len() ==> is_digit(#[trigger] digits[i]))
        && digits_value(digits) <= max {
        Some(digits_value(digits))
    } else {
        None
    }
}

/// The number that the argument at `i` writes, or `default` where there is no
/// such argument or it writes none.
pub open spec fn number_at(args: Seq<String>, i: int, max: nat, default: nat) -> nat {
    if i < args.len() {
        match parsed(args[i]@, max) {
            Some(n) => n,
            None => default,
        }
    } else {
        default
    }
}

/// The number that `s` writes, where it fits.
///
/// Calls `str::parse::<usize>` of the standard library and drops the error.
/// Trusted: it takes an optional plus sign followed by decimal digits only, at
/// least one, whose value fits the type; it refuses everything else.
#[verifier::external_body]
fn parse_usize(s: &str) -> (r: Option<usize>)
    ensures
        match r {
            Some(n) => parsed(s@, usize::MAX as nat) == Some(n as nat),
            None => parsed(s@, usize::MAX as nat) is None,
        },
{
    s.parse::<usize>().ok()
}

/// The number that `s` writes, where it fits.
///
/// Calls `str::parse::<u64>` of the standard library and drops the error.
/// Trusted: as `parse_usize`, for the larger type.
#[verifier::external_body]
fn parse_u64(s: &str) -> (r: Option<u64>)
    ensures
        match r {
            Some(n) => parsed(s@, u64::MAX as nat) == Some(n as nat),
            None => parsed(s@, u64::MAX as nat) is None,
        },
{
    s.parse::<u64>().ok()
}

/// Reads the command line `args`, the program's name first: the number of
/// processes and then the duration in seconds. What is missing or is no number
/// is replaced by its default.
pub fn read_args(args: &Vec<String>) -> (config: Config)
    ensures
        config.num_procs == number_at(
            args@,
            1,
            usize::MAX as nat,
            DEFAULT_NUM_PROCS as nat,
        ),
        config.sim_duration_secs == number_at(
            args@,
            2,
            u64::MAX as nat,
            DEFAULT_DURATION_SECS as nat,
        ),
{
    let mut num_procs: usize = DEFAULT_NUM_PROCS;
    if args.len() > 1 {
        if let Some(n) = parse_usize(args[1].as_str()) {
            num_procs = n;
        }
    }
    let mut sim_duration_secs: u64 = DEFAULT_DURATION_SECS;
    if args.len() > 2 {
        if let Some(n) = parse_u64(args[2].as_str()) {
            sim_duration_secs = n;
        }
    }
    Config { num_procs, sim_duration_secs }
}

} // verus!
