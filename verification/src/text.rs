use vstd::prelude::*;

use crate::candle::Source;
use vstd::string::StrSliceExecFns;

verus! {

/// A decimal digit.
pub open spec fn is_digit(c: char) -> bool {
    48 <= c as int <= 57
}

/// The numeric value of a decimal digit.
pub open spec fn digit_val(c: char) -> int {
    c as int - 48
}

/// The number a sequence of decimal digits denotes, most significant first.
pub open spec fn dec_value(s: Seq<char>) -> int
    decreases s.len(),
{
    if s.len() == 0 {
        0
    } else {
        dec_value(s.drop_last()) * 10 + digit_val(s.last())
    }
}

/// The text is a plain decimal numeral: non-empty and all digits.
pub open spec fn is_dec(s: Seq<char>) -> bool {
    s.len() >= 1 && forall|i: int| 0 <= i < s.len() ==> is_digit(s[i])
}

/// The text denotes a period: a decimal numeral whose value fits the bounded
/// period type.
pub open spec fn parses_to_period(s: Seq<char>) -> bool {
    is_dec(s) && dec_value(s) <= u8::MAX as int
}

/// A digit sequence denotes a non-negative number.
proof fn lemma_dec_value_nonneg(s: Seq<char>)
    requires
        forall|i: int| 0 <= i < s.len() ==> is_digit(s[i]),
    ensures
        dec_value(s) >= 0,
    decreases s.len(),
{
    if s.len() > 0 {
        lemma_dec_value_nonneg(s.drop_last());
    }
}

/// Extending a digit sequence never shrinks its value.
proof fn lemma_dec_value_prefix_le(s: Seq<char>, k: int)
    requires
        forall|i: int| 0 <= i < s.len() ==> is_digit(s[i]),
        0 <= k <= s.len(),
    ensures
        dec_value(s.take(k)) <= dec_value(s),
    decreases s.len() - k,
{
    if k < s.len() {
        assert(s.take(k + 1).drop_last() =~= s.take(k));
        assert(s.take(k + 1).last() == s[k]);
        lemma_dec_value_nonneg(s.take(k));
        lemma_dec_value_prefix_le(s, k + 1);
    } else {
        assert(s.take(k) =~= s);
    }
}

/// Parses a period parameter from plain decimal text. Returns the denoted
/// value exactly when the text is a numeral that fits the period type, and
/// nothing otherwise.
pub fn parse_period(s: &str) -> (r: Option<u8>)
    ensures
        match r {
            Some(v) => parses_to_period(s@) && v as int == dec_value(s@),
            None => !parses_to_period(s@),
        },
{
    let n = s.unicode_len();
    if n == 0 {
        return None;
    }
    let mut acc: u32 = 0;
    let mut i: usize = 0;
    while i < n
        invariant
            i <= n,
            n == s@.len(),
            forall|j: int| 0 <= j < i ==> is_digit(s@[j]),
            acc as int == dec_value(s@.take(i as int)),
            acc <= 255,
        decreases n - i,
    {
        let c = s.get_char(i);
        let cu = c as u32;
        if cu < 48 || cu > 57 {
            return None;
        }
        let t: u32 = acc * 10 + (cu - 48);
        proof {
            assert(s@.take(i + 1).drop_last() =~= s@.take(i as int));
            assert(s@.take(i + 1).last() == s@[i as int]);
        }
        if t > 255 {
            proof {
                if is_dec(s@) {
                    lemma_dec_value_prefix_le(s@, i + 1);
                }
            }
            return None;
        }
        acc = t;
        i = i + 1;
    }
    proof {
        assert(s@.take(n as int) =~= s@);
    }
    Some(acc as u8)
}

/// Compares two pieces of text character for character.
pub fn str_eq(a: &str, b: &str) -> (r: bool)
    ensures
        r == (a@ == b@),
{
    let na = a.unicode_len();
    let nb = b.unicode_len();
    if na != nb {
        proof {
            assert(a@ != b@) by {
                if a@ == b@ {
                    assert(a@.len() == b@.len());
                }
            }
        }
        return false;
    }
    let mut i: usize = 0;
    while i < na
        invariant
            i <= na,
            na == a@.len(),
            na == b@.len(),
            forall|j: int| 0 <= j < i ==> a@[j] == b@[j],
        decreases na - i,
    {
        let ca = a.get_char(i);
        let cb = b.get_char(i);
        if ca != cb {
            return false;
        }
        i = i + 1;
    }
    proof {
        assert(a@ =~= b@);
    }
    true
}

/// The source selector a piece of configuration text names, if any.
pub open spec fn source_of_name(s: Seq<char>) -> Option<Source> {
    if s == "open"@ {
        Some(Source::Open)
    } else if s == "high"@ {
        Some(Source::High)
    } else if s == "low"@ {
        Some(Source::Low)
    } else if s == "close"@ {
        Some(Source::Close)
    } else if s == "volume"@ {
        Some(Source::Volume)
    } else if s == "hl2"@ {
        Some(Source::Hl2)
    } else {
        None
    }
}

/// Parses a source selector from its configuration name.
pub fn parse_source(s: &str) -> (r: Option<Source>)
    ensures
        r == source_of_name(s@),
{
    if str_eq(s, "open") {
        Some(Source::Open)
    } else if str_eq(s, "high") {
        Some(Source::High)
    } else if str_eq(s, "low") {
        Some(Source::Low)
    } else if str_eq(s, "close") {
        Some(Source::Close)
    } else if str_eq(s, "volume") {
        Some(Source::Volume)
    } else if str_eq(s, "hl2") {
        Some(Source::Hl2)
    } else {
        None
    }
}

} // verus!
