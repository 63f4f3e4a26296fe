//! Invocation options and the sample-rate argument parser.

use vstd::prelude::*;

verus! {

/// The default sample rate: practically all audio equipment and file
/// formats use 48000 Hz nowadays.
pub const DEFAULT_SAMPLE_RATE: usize = 48000;

/// The lowest sample rate the decoder supports.
pub const MIN_SAMPLE_RATE: usize = 8000;

/// The highest sample rate the decoder supports.
pub const MAX_SAMPLE_RATE: usize = 192000;

/// What the player was asked to do.
pub struct Options {
    /// Paths to individual modules, archives or directories.
    pub paths: Vec<String>,
    pub sample_rate: usize,
    pub shuffle: bool,
    /// Look inside nested archives instead of using file-name heuristics.
    pub deep_archive_search: bool,
}

impl Default for Options {
    fn default() -> (r: Options)
        ensures
            r.paths@.len() == 0,
            r.sample_rate == DEFAULT_SAMPLE_RATE,
            !r.shuffle,
            !r.deep_archive_search,
    {
        Options {
            paths: Vec::new(),
            sample_rate: DEFAULT_SAMPLE_RATE,
            shuffle: false,
            deep_archive_search: false,
        }
    }
}

/// Why a numeric argument was rejected.
#[derive(Clone, Copy, PartialEq, Eq, Structural, Debug)]
pub enum RangeParseError {
    TooLow,
    TooHigh,
    Invalid,
}

pub open spec fn is_digit(c: char) -> bool {
    48 <= c as int <= 57
}

pub open spec fn digit_val(c: char) -> int {
    c as int - 48
}

pub open spec fn digits_wf(s: Seq<char>) -> bool {
    s.len() > 0 && forall|k: int| 0 <= k < s.len() ==> is_digit(#[trigger] s[k])
}

/// The number a digit string denotes.
pub open spec fn digits_value(s: Seq<char>) -> int
    decreases s.len(),
{
    if s.len() == 0 {
        0
    } else {
        digits_value(s.drop_last()) * 10 + digit_val(s.last())
    }
}

/// The strings accepted as a number: an optional leading `+`, then at
/// least one decimal digit.
pub open spec fn parse_wf(s: Seq<char>) -> bool {
    if s.len() > 0 && s[0] == '+' {
        digits_wf(s.drop_first())
    } else {
        digits_wf(s)
    }
}

/// The number an accepted string denotes.
pub open spec fn parse_value(s: Seq<char>) -> int {
    if s.len() > 0 && s[0] == '+' {
        digits_value(s.drop_first())
    } else {
        digits_value(s)
    }
}

proof fn lemma_digits_value_nonneg(s: Seq<char>)
    requires
        forall|k: int| 0 <= k < s.len() ==> is_digit(#[trigger] s[k]),
    ensures
        digits_value(s) >= 0,
    decreases s.len(),
{
    if s.len() > 0 {
        lemma_digits_value_nonneg(s.drop_last());
    }
}

/// Parse a decimal number and require it to lie in `[low, high]`.
/// Accepted input yields its value or the side of the range it missed;
/// anything that is not an optionally `+`-signed digit string is invalid.
pub fn usize_range_parse(v: &str, low: usize, high: usize) -> (r: Result<usize, RangeParseError>)
    ensures
        match r {
            Ok(n) => parse_wf(v@) && low <= n <= high && n == parse_value(v@),
            Err(e) => match e {
                RangeParseError::Invalid => !parse_wf(v@),
                RangeParseError::TooLow => parse_wf(v@) && parse_value(v@) < low,
                RangeParseError::TooHigh => parse_wf(v@) && parse_value(v@) > high,
            },
        },
{
    let n = v.unicode_len();
    let start: usize = if n > 0 && v.get_char(0) == '+' {
        1
    } else {
        0
    };
    if n == start {
        return Err(RangeParseError::Invalid);
    }
    let ghost digits = if start == 1 {
        v@.drop_first()
    } else {
        v@
    };
    proof {
        assert(digits =~= v@.subrange(start as int, n as int));
    }
    let mut acc: usize = 0;
    let mut overflowed: bool = false;
    let mut i: usize = start;
    while i < n
        invariant
            start <= i <= n,
            n == v@.len(),
            start <= 1,
            start == 1 ==> v@[0] == '+',
            start == 0 ==> v@[0] != '+',
            n > start,
            digits == v@.subrange(start as int, n as int),
            forall|k: int| start <= k < i ==> is_digit(#[trigger] v@[k]),
            !overflowed ==> acc == digits_value(v@.subrange(start as int, i as int)),
            overflowed ==> digits_value(v@.subrange(start as int, i as int)) > usize::MAX,
        decreases n - i,
    {
        let c = v.get_char(i);
        let code = c as u32;
        if code < 48 || code > 57 {
            proof {
                assert(!is_digit(v@[i as int]));
                assert(digits[i - start] == v@[i as int]);
                assert(!digits_wf(digits));
            }
            return Err(RangeParseError::Invalid);
        }
        let d = (code - 48) as usize;
        let ghost pre = v@.subrange(start as int, i as int);
        proof {
            assert(v@.subrange(start as int, i + 1).drop_last() =~= pre);
            assert(v@.subrange(start as int, i + 1).last() == v@[i as int]);
            assert(forall|k: int| 0 <= k < pre.len() ==> is_digit(#[trigger] pre[k]));
            lemma_digits_value_nonneg(pre);
        }
        if overflowed {
            // The value can only grow: ten times the old value plus a digit.
            proof {
                assert(digits_value(pre) * 10 + digit_val(v@[i as int]) > usize::MAX);
            }
        } else if acc > (usize::MAX - d) / 10 {
            proof {
                vstd::arithmetic::div_mod::lemma_fundamental_div_mod(
                    (usize::MAX - d) as int,
                    10,
                );
                vstd::arithmetic::div_mod::lemma_mod_bound((usize::MAX - d) as int, 10);
                assert(acc * 10 >= ((usize::MAX - d) as int / 10) * 10 + 10);
                assert(digits_value(pre) * 10 + digit_val(v@[i as int]) > usize::MAX);
            }
            overflowed = true;
        } else {
            acc = acc * 10 + d;
        }
        i = i + 1;
    }
    proof {
        assert(v@.subrange(start as int, n as int) =~= digits);
        assert(digits.len() > 0);
        if start == 1 {
            assert(parse_wf(v@) == digits_wf(digits));
        }
    }
    if overflowed {
        return Err(RangeParseError::TooHigh);
    }
    if acc < low {
        Err(RangeParseError::TooLow)
    } else if acc > high {
        Err(RangeParseError::TooHigh)
    } else {
        Ok(acc)
    }
}

/// Parse the sample-rate argument, with the message shown for a rejected
/// value.
pub fn parse_sample_rate(v: &str) -> (r: Result<usize, String>)
    ensures
        match r {
            Ok(n) => parse_wf(v@) && MIN_SAMPLE_RATE <= n <= MAX_SAMPLE_RATE && n == parse_value(
                v@,
            ),
            Err(m) => {
                &&& !(parse_wf(v@) && MIN_SAMPLE_RATE <= parse_value(v@) <= MAX_SAMPLE_RATE)
                &&& if !parse_wf(v@) {
                    m@ == "Expected integer within 8000-192000"@
                } else {
                    m@ == "Out of range.  Supported sample rate range: 8000-192000"@
                }
            },
        },
{
    match usize_range_parse(v, MIN_SAMPLE_RATE, MAX_SAMPLE_RATE) {
        Ok(n) => Ok(n),
        Err(RangeParseError::Invalid) => Err(
            "Expected integer within 8000-192000".to_owned(),
        ),
        Err(RangeParseError::TooLow) => Err(
            "Out of range.  Supported sample rate range: 8000-192000".to_owned(),
        ),
        Err(RangeParseError::TooHigh) => Err(
            "Out of range.  Supported sample rate range: 8000-192000".to_owned(),
        ),
    }
}

} // verus!
