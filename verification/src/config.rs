//! The allocation limit as configured through the environment.
use crate::gc_heap::DEFAULT_LIMIT_BYTES;
use vstd::prelude::*;

verus! {

/// What the environment holds for the limit variable.
pub enum LimitSetting {
    /// The variable is not set.
    NotPresent,
    /// The variable is set but is not valid Unicode.
    NotUnicode,
    /// The variable holds this text.
    Present(String),
}

/// The limit to use, and whether the setting deserves a warning.
#[derive(Clone, Copy, Debug, PartialEq, Eq, Structural)]
pub struct LimitChoice {
    pub limit: usize,
    pub warn: bool,
}

/// Whether `c` is an ASCII decimal digit.
pub open spec fn is_decimal_digit(c: char) -> bool {
    '0' <= c && c <= '9'
}

/// The number that a sequence of decimal digits spells.
pub open spec fn digits_value(d: Seq<char>) -> nat
    decreases d.len(),
{
    if d.len() == 0 {
        0
    } else {
        digits_value(d.drop_last()) * 10 + (d.last() as int - '0' as int) as nat
    }
}

/// The digits of an unsigned number: the text after an optional leading `+`.
pub open spec fn unsigned_digits(s: Seq<char>) -> Seq<char> {
    if s.len() > 0 && s[0] == '+' {
        s.drop_first()
    } else {
        s
    }
}

/// How `usize` parses a decimal text: an optional `+` followed by at least
/// one digit and nothing else, spelling a number that fits in a `usize`.
pub open spec fn parse_decimal_usize(s: Seq<char>) -> Option<usize> {
    let d = unsigned_digits(s);
    if d.len() > 0 && (forall|i: int| 0 <= i < d.len() ==> is_decimal_digit(#[trigger] d[i]))
        && digits_value(d) <= usize::MAX {
        Some(digits_value(d) as usize)
    } else {
        None
    }
}

/// Parses a decimal `usize`.
///
/// Trusted: calls `str::parse::<usize>`, which the standard library documents
/// (`usize::from_str_radix` with radix 10) to accept an optional `+` sign
/// followed by only digits, with any other character, an empty digit string or
/// an overflowing value being an error.
#[verifier::external_body]
fn parse_usize(text: &str) -> (r: Option<usize>)
    ensures
        r == parse_decimal_usize(text@),
{
    text.parse::<usize>().ok()
}

/// The limit that the setting selects: a positive decimal number is taken as
/// the limit; anything else falls back to the default limit, with a warning
/// unless the variable is simply not set.
pub open spec fn spec_limit_choice(setting: LimitSetting) -> LimitChoice {
    match setting {
        LimitSetting::NotPresent => LimitChoice { limit: DEFAULT_LIMIT_BYTES, warn: false },
        LimitSetting::NotUnicode => LimitChoice { limit: DEFAULT_LIMIT_BYTES, warn: true },
        LimitSetting::Present(text) => match parse_decimal_usize(text@) {
            Some(limit) if limit > 0 => LimitChoice { limit, warn: false },
            _ => LimitChoice { limit: DEFAULT_LIMIT_BYTES, warn: true },
        },
    }
}

/// Chooses the allocation limit from the environment setting.
pub fn configured_limit(setting: &LimitSetting) -> (r: LimitChoice)
    ensures
        r == spec_limit_choice(*setting),
{
    match setting {
        LimitSetting::NotPresent => LimitChoice { limit: DEFAULT_LIMIT_BYTES, warn: false },
        LimitSetting::NotUnicode => LimitChoice { limit: DEFAULT_LIMIT_BYTES, warn: true },
        LimitSetting::Present(text) => match parse_usize(text.as_str()) {
            Some(limit) => {
                if limit > 0 {
                    LimitChoice { limit, warn: false }
                } else {
                    LimitChoice { limit: DEFAULT_LIMIT_BYTES, warn: true }
                }
            },
            None => LimitChoice { limit: DEFAULT_LIMIT_BYTES, warn: true },
        },
    }
}

/// A setting that spells a positive number `n` is taken as the limit, silently.
pub proof fn law_positive_setting_is_the_limit(text: String, n: usize)
    requires
        parse_decimal_usize(text@) == Some(n),
        n > 0,
    ensures
        spec_limit_choice(LimitSetting::Present(text)) == (LimitChoice { limit: n, warn: false }),
{
}

/// Every setting that does not spell a positive number yields the default
/// limit, with a warning exactly when the variable is set.
pub proof fn law_other_settings_use_the_default(setting: LimitSetting)
    ensures
        match setting {
            LimitSetting::Present(t) => match parse_decimal_usize(t@) {
                Some(n) => n > 0 || spec_limit_choice(setting) == (LimitChoice {
                    limit: DEFAULT_LIMIT_BYTES,
                    warn: true,
                }),
                None => spec_limit_choice(setting) == (LimitChoice {
                    limit: DEFAULT_LIMIT_BYTES,
                    warn: true,
                }),
            },
            LimitSetting::NotUnicode => spec_limit_choice(setting) == (LimitChoice {
                limit: DEFAULT_LIMIT_BYTES,
                warn: true,
            }),
            LimitSetting::NotPresent => spec_limit_choice(setting) == (LimitChoice {
                limit: DEFAULT_LIMIT_BYTES,
                warn: false,
            }),
        },
{
}

/// The chosen limit is never zero.
pub proof fn law_limit_is_positive(setting: LimitSetting)
    ensures
        spec_limit_choice(setting).limit > 0,
{
}

} // verus!
