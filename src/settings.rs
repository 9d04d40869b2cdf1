//! Process-wide token settings, fixed at startup, and the clock.

use crate::claims::DEFAULT_VALIDITY_DAYS;
use vstd::prelude::*;

verus! {

/// The longest validity period accepted, in days (about 292,000 years); a longer
/// configured value falls back to the default. It keeps the period in seconds
/// far inside `u64`, so that issue time plus period fits for any real clock.
pub const MAX_VALIDITY_DAYS: u64 = 106751991;

/// Every character of `s` is an ASCII decimal digit.
pub open spec fn all_digits(s: Seq<char>) -> bool {
    forall|i: int| 0 <= i < s.len() ==> '0' <= #[trigger] s[i] && s[i] <= '9'
}

/// The value of the decimal digits `s`.
pub open spec fn digits_value(s: Seq<char>) -> int
    decreases s.len(),
{
    if s.len() == 0 {
        0
    } else {
        digits_value(s.drop_last()) * 10 + (s.last() as int - '0' as int)
    }
}

/// What `str::parse::<i64>` gives for `text`: an optional `+` or `-` sign
/// followed by at least one ASCII digit, whose value lies in the range of `i64`.
pub open spec fn parsed_i64(text: Seq<char>) -> Option<i64> {
    let signed = text.len() > 0 && (text[0] == '-' || text[0] == '+');
    let digits = if signed {
        text.subrange(1, text.len() as int)
    } else {
        text
    };
    let v = if signed && text[0] == '-' {
        -digits_value(digits)
    } else {
        digits_value(digits)
    };
    if digits.len() > 0 && all_digits(digits) && i64::MIN <= v <= i64::MAX {
        Some(v as i64)
    } else {
        None
    }
}

/// Relies on `str::parse::<i64>`, mapping its error to `None`.
#[verifier::external_body]
fn parse_i64(text: &str) -> (r: Option<i64>)
    ensures
        r == parsed_i64(text@),
{
    text.parse::<i64>().ok()
}

/// Relies on `SystemTime::elapsed` of `UNIX_EPOCH`: the whole seconds since
/// 1970, or `None` where the clock reads earlier.
#[verifier::external_body]
fn unix_now() -> (r: Option<u64>) {
    match std::time::UNIX_EPOCH.elapsed() {
        Ok(d) => Some(d.as_secs()),
        Err(_) => None,
    }
}

/// The validity period that a configured value gives: a decimal number of days
/// from 1 up to the longest period; anything else, or no value, gives the default.
pub open spec fn validity_days_of(raw: Option<Seq<char>>) -> u64 {
    match raw {
        None => DEFAULT_VALIDITY_DAYS,
        Some(t) => match parsed_i64(t) {
            Some(d) => if 1 <= d && d <= MAX_VALIDITY_DAYS {
                d as u64
            } else {
                DEFAULT_VALIDITY_DAYS
            },
            None => DEFAULT_VALIDITY_DAYS,
        },
    }
}

/// The signing secret and the validity period of issued tokens.
pub struct TokenSettings {
    pub secret: Vec<u8>,
    pub validity_days: u64,
}

impl TokenSettings {
    pub open spec fn wf(&self) -> bool {
        1 <= self.validity_days <= MAX_VALIDITY_DAYS
    }

    /// Settings with `secret` and the validity period that `raw_days` configures.
    pub fn new(secret: Vec<u8>, raw_days: Option<&str>) -> (r: TokenSettings)
        ensures
            r.wf(),
            r.secret@ == secret@,
            r.validity_days == validity_days_of(
                match raw_days {
                    Some(t) => Some(t@),
                    None => None,
                },
            ),
    {
        let validity_days = validity_days(raw_days);
        TokenSettings { secret, validity_days }
    }
}

/// The validity period in days that the configured value `raw` gives.
pub fn validity_days(raw: Option<&str>) -> (r: u64)
    ensures
        r == validity_days_of(
            match raw {
                Some(t) => Some(t@),
                None => None,
            },
        ),
        1 <= r <= MAX_VALIDITY_DAYS,
{
    match raw {
        None => DEFAULT_VALIDITY_DAYS,
        Some(t) => match parse_i64(t) {
            Some(d) => if 1 <= d && d <= MAX_VALIDITY_DAYS as i64 {
                d as u64
            } else {
                DEFAULT_VALIDITY_DAYS
            },
            None => DEFAULT_VALIDITY_DAYS,
        },
    }
}

/// The word whose presence in the log filter marks development mode.
pub open spec fn debug_word() -> Seq<char> {
    seq!['d', 'e', 'b', 'u', 'g']
}

/// `text` holds `word` at some position.
pub open spec fn contains_at(text: Seq<char>, word: Seq<char>, i: int) -> bool {
    0 <= i && i + word.len() <= text.len() && text.subrange(i, i + word.len()) == word
}

/// The text mentions `debug`.
pub open spec fn mentions_debug(text: Seq<char>) -> bool {
    exists|i: int| #[trigger] contains_at(text, debug_word(), i)
}

/// Development mode: the log filter `rust_log` is set and mentions `debug`.
pub fn development_mode(rust_log: Option<&str>) -> (r: bool)
    ensures
        r == (rust_log matches Some(t) && mentions_debug(t@)),
{
    let t = match rust_log {
        None => {
            return false;
        },
        Some(t) => t,
    };
    let word = "debug";
    proof {
        reveal_strlit("debug");
    }
    assert(word@ =~= debug_word());
    let n = t.unicode_len();
    if n < 5 {
        assert forall|i: int| !contains_at(t@, debug_word(), i) by {}
        return false;
    }
    let mut i: usize = 0;
    while i <= n - 5
        invariant
            rust_log == Some(t),
            n == t@.len(),
            5 <= n,
            word@ == debug_word(),
            i <= n - 4,
            forall|k: int| 0 <= k < i ==> !contains_at(t@, debug_word(), k),
        decreases n - i,
    {
        let mut j: usize = 0;
        let mut same = true;
        while j < 5
            invariant
                rust_log == Some(t),
                i + 5 <= n,
                n == t@.len(),
                forall|k: int| 0 <= k < i ==> !contains_at(t@, debug_word(), k),
                word@ == debug_word(),
                j <= 5,
                same == (forall|m: int| 0 <= m < j ==> t@[i + m] == debug_word()[m]),
            decreases 5 - j,
        {
            if t.get_char(i + j) != word.get_char(j) {
                same = false;
            }
            j = j + 1;
        }
        if same {
            assert(t@.subrange(i as int, i + 5) =~= debug_word());
            assert(contains_at(t@, debug_word(), i as int));
            return true;
        }
        assert(!contains_at(t@, debug_word(), i as int)) by {
            if contains_at(t@, debug_word(), i as int) {
                assert forall|m: int| 0 <= m < 5 implies t@[i + m] == debug_word()[m] by {
                    assert(t@.subrange(i as int, i + 5)[m] == t@[i + m]);
                }
            }
        }
        i = i + 1;
    }
    assert forall|k: int| !contains_at(t@, debug_word(), k) by {}
    false
}

/// The current time in Unix seconds; a clock set before 1970 reads as 0.
pub fn current_unix_time() -> (r: u64) {
    match unix_now() {
        Some(t) => t,
        None => 0,
    }
}

} // verus!
