//! The settings of a run, as they are made from the values of the
//! environment.

use crate::github::models::{clone_opt_text, opt_text};
use crate::text::same_text;
use vstd::prelude::*;

verus! {

/// Seconds between two refreshes where the environment names no other
/// number.
pub const DEFAULT_REFRESH_SECS: u64 = 60;

/// The value of a decimal digit; `None` for any other character.
pub open spec fn digit_value(c: char) -> Option<nat> {
    if c == '0' {
        Some(0)
    } else if c == '1' {
        Some(1)
    } else if c == '2' {
        Some(2)
    } else if c == '3' {
        Some(3)
    } else if c == '4' {
        Some(4)
    } else if c == '5' {
        Some(5)
    } else if c == '6' {
        Some(6)
    } else if c == '7' {
        Some(7)
    } else if c == '8' {
        Some(8)
    } else if c == '9' {
        Some(9)
    } else {
        None
    }
}

/// The number that a run of decimal digits writes; `None` where one of
/// the characters is no digit. The empty run writes zero.
pub open spec fn digits_value(s: Seq<char>) -> Option<nat>
    decreases s.len(),
{
    if s.len() == 0 {
        Some(0)
    } else {
        match (digits_value(s.drop_last()), digit_value(s.last())) {
            (Some(high), Some(low)) => Some(high * 10 + low),
            _ => None,
        }
    }
}

/// The 64-bit number that `s` writes: an optional `+`, then one or more
/// decimal digits and nothing else, the number within range.
pub open spec fn unsigned_value(s: Seq<char>) -> Option<u64> {
    let digits = if s.len() > 0 && s[0] == '+' {
        s.drop_first()
    } else {
        s
    };
    if digits.len() == 0 {
        None
    } else {
        match digits_value(digits) {
            Some(n) => if n <= u64::MAX {
                Some(n as u64)
            } else {
                None
            },
            None => None,
        }
    }
}

/// A run of digits that continues one that is no number, or too large a
/// one, is no number or too large as well.
proof fn lemma_digits_grow(s: Seq<char>, k: int)
    requires
        0 <= k <= s.len(),
    ensures
        digits_value(s.take(k)) is None ==> digits_value(s) is None,
        digits_value(s) matches Some(n) ==> digits_value(s.take(k))->0 <= n,
    decreases s.len() - k,
{
    if k == s.len() {
        assert(s.take(k) =~= s);
    } else {
        lemma_digits_grow(s, k + 1);
        assert(s.take(k + 1).drop_last() =~= s.take(k));
    }
}

/// The value of a decimal digit.
fn digit_of(c: char) -> (r: Option<u64>)
    ensures
        match r {
            Some(d) => digit_value(c) == Some(d as nat) && d < 10,
            None => digit_value(c) is None,
        },
{
    if c == '0' {
        Some(0)
    } else if c == '1' {
        Some(1)
    } else if c == '2' {
        Some(2)
    } else if c == '3' {
        Some(3)
    } else if c == '4' {
        Some(4)
    } else if c == '5' {
        Some(5)
    } else if c == '6' {
        Some(6)
    } else if c == '7' {
        Some(7)
    } else if c == '8' {
        Some(8)
    } else if c == '9' {
        Some(9)
    } else {
        None
    }
}

/// Reads an unsigned number written in decimal.
pub fn parse_unsigned(s: &str) -> (r: Option<u64>)
    ensures
        r == unsigned_value(s@),
{
    let len = s.unicode_len();
    let start: usize = if len > 0 && s.get_char(0) == '+' {
        1
    } else {
        0
    };
    if start == len {
        return None;
    }
    let ghost digits = if s@.len() > 0 && s@[0] == '+' {
        s@.drop_first()
    } else {
        s@
    };
    let mut value: u64 = 0;
    let mut i: usize = start;
    assert(digits.take(0) =~= Seq::<char>::empty());
    while i < len
        invariant
            start <= i <= len,
            start < len,
            len == s@.len(),
            digits == (if s@.len() > 0 && s@[0] == '+' {
                s@.drop_first()
            } else {
                s@
            }),
            digits.len() == len - start,
            forall|j: int| 0 <= j < digits.len() ==> digits[j] == s@[start + j],
            digits_value(digits.take(i - start)) == Some(value as nat),
        decreases len - i,
    {
        let c = s.get_char(i);
        proof {
            let next = digits.take(i - start + 1);
            assert(next.drop_last() =~= digits.take(i - start));
            assert(next.last() == c);
            lemma_digits_grow(digits, i - start + 1);
        }
        let digit = match digit_of(c) {
            Some(d) => d,
            None => {
                return None;
            },
        };
        assert(digits_value(digits.take(i - start + 1)) == Some((value * 10 + digit) as nat));
        let shifted = match value.checked_mul(10) {
            Some(v) => v,
            None => {
                return None;
            },
        };
        value = match shifted.checked_add(digit) {
            Some(v) => v,
            None => {
                return None;
            },
        };
        i += 1;
    }
    assert(digits.take(i - start) =~= digits);
    Some(value)
}

/// The seconds between refreshes that the environment asks for: the number
/// it names, or the default where it names none or no number.
pub open spec fn refresh_secs_of(value: Option<Seq<char>>) -> u64 {
    match value {
        Some(text) => match unsigned_value(text) {
            Some(n) => n,
            None => DEFAULT_REFRESH_SECS,
        },
        None => DEFAULT_REFRESH_SECS,
    }
}

/// Whether the environment asks for reduced motion: only `true` and `1`
/// do.
pub open spec fn reduced_motion_of(value: Option<Seq<char>>) -> bool {
    match value {
        Some(text) => text == "true"@ || text == "1"@,
        None => false,
    }
}

/// Why no settings could be made.
#[derive(Debug, Clone, Copy, PartialEq, Eq, Structural)]
pub enum ConfigError {
    /// The environment names no user.
    MissingUser,
}

impl ConfigError {
    /// The error in words.
    pub fn message(&self) -> (r: &'static str)
        ensures
            r@ == "GITHUB_USER environment variable is required"@,
    {
        "GITHUB_USER environment variable is required"
    }
}

/// The settings of a run.
#[derive(Debug)]
pub struct Config {
    /// Access token for the service; without one fewer calls are allowed.
    pub github_token: Option<String>,
    /// The user whose data is shown.
    pub github_user: String,
    /// Seconds between two refreshes.
    pub refresh_secs: u64,
    /// Whether animations are to be left out.
    pub reduced_motion: bool,
    /// Where the cache file lies.
    pub cache_path: String,
}

/// What a `Config` stands for.
pub struct ConfigView {
    pub github_token: Option<Seq<char>>,
    pub github_user: Seq<char>,
    pub refresh_secs: u64,
    pub reduced_motion: bool,
    pub cache_path: Seq<char>,
}

impl View for Config {
    type V = ConfigView;

    open spec fn view(&self) -> ConfigView {
        ConfigView {
            github_token: opt_text(self.github_token),
            github_user: self.github_user@,
            refresh_secs: self.refresh_secs,
            reduced_motion: self.reduced_motion,
            cache_path: self.cache_path@,
        }
    }
}

impl Clone for Config {
    fn clone(&self) -> (r: Self)
        ensures
            r@ == self@,
    {
        Config {
            github_token: clone_opt_text(&self.github_token),
            github_user: self.github_user.clone(),
            refresh_secs: self.refresh_secs,
            reduced_motion: self.reduced_motion,
            cache_path: self.cache_path.clone(),
        }
    }
}

impl Config {
    /// The settings that the values of the environment give: the token, the
    /// user, the seconds between refreshes and the wish for reduced motion,
    /// each as the environment holds it or `None` where it is not set. The
    /// user is required; every other value has a default.
    pub fn from_vars(
        github_token: Option<String>,
        github_user: Option<String>,
        refresh_secs: Option<String>,
        reduced_motion: Option<String>,
        cache_path: String,
    ) -> (r: Result<Config, ConfigError>)
        ensures
            github_user is None <==> r is Err,
            r matches Ok(config) ==> config@ == (ConfigView {
                github_token: opt_text(github_token),
                github_user: github_user->0@,
                refresh_secs: refresh_secs_of(opt_text(refresh_secs)),
                reduced_motion: reduced_motion_of(opt_text(reduced_motion)),
                cache_path: cache_path@,
            }),
            r matches Err(e) ==> e == ConfigError::MissingUser,
    {
        let user = match github_user {
            Some(user) => user,
            None => {
                return Err(ConfigError::MissingUser);
            },
        };
        let secs = match &refresh_secs {
            Some(text) => match parse_unsigned(text.as_str()) {
                Some(n) => n,
                None => DEFAULT_REFRESH_SECS,
            },
            None => DEFAULT_REFRESH_SECS,
        };
        let reduced = match &reduced_motion {
            Some(text) => same_text(text.as_str(), "true") || same_text(text.as_str(), "1"),
            None => false,
        };
        Ok(
            Config {
                github_token,
                github_user: user,
                refresh_secs: secs,
                reduced_motion: reduced,
                cache_path,
            },
        )
    }

    /// Whether an access token is set.
    pub fn has_token(&self) -> (r: bool)
        ensures
            r == (self@.github_token is Some),
    {
        self.github_token.is_some()
    }
}

} // verus!
