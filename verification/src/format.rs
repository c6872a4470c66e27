//! Turning a computed number into the text that an output field shows.
//!
//! The number itself is rendered by the caller, with a fixed count of
//! fraction digits; what is decided here is which text stands for a number
//! that cannot be shown, and how much of the rendered tail is noise.

use vstd::prelude::*;
use vstd::string::*;

verus! {

/// The sign that follows an angle in degrees.
pub const DEGREE_SIGN: &'static str = "°";

/// What is shown in place of a result that is not a number.
pub const NAN_FTOA: &'static str = "<error>";

/// What is shown for an infinite result, after its sign.
pub const INFINITY_FTOA: &'static str = "∞";

/// A computed number as far as showing it is concerned.
#[derive(Clone, Debug)]
pub enum Reading {
    /// The computation had no result.
    NotANumber,
    /// The result is beyond every number, on the negative side or the positive.
    Infinite { negative: bool },
    /// An ordinary number, written out in decimal with a fixed count of
    /// fraction digits.
    Finite { fixed: String },
}

/// How many characters `'0'` stand at the end of `s` without a gap.
pub open spec fn zeros_at_end(s: Seq<char>) -> nat
    decreases s.len(),
{
    if s.len() > 0 && s.last() == '0' {
        1 + zeros_at_end(s.drop_last())
    } else {
        0
    }
}

/// `s` without the zeros at its end and, where a point then stands last,
/// without that point.
pub open spec fn trimmed(s: Seq<char>) -> Seq<char> {
    let digits = s.take(s.len() - zeros_at_end(s));
    if digits.len() > 0 && digits.last() == '.' {
        digits.drop_last()
    } else {
        digits
    }
}

/// The eleven exponent bits of a double-precision number given by its bits.
pub open spec fn exponent_bits(bits: u64) -> u64 {
    (bits >> 52) & 0x7ff
}

/// The fifty-two fraction bits of a double-precision number given by its bits.
pub open spec fn fraction_bits(bits: u64) -> u64 {
    bits & 0x000f_ffff_ffff_ffff
}

/// Whether the sign bit of a double-precision number given by its bits is set.
pub open spec fn sign_bit(bits: u64) -> bool {
    bits >> 63 == 1
}

impl Reading {
    /// The reading of the double-precision number with the given bits, of
    /// which `fixed` is the decimal rendering. With all exponent bits set the
    /// number is infinite where no fraction bit is set, and not a number
    /// otherwise; any other exponent belongs to an ordinary number.
    pub open spec fn of_bits(bits: u64, fixed: String) -> Reading {
        if exponent_bits(bits) != 0x7ff {
            Reading::Finite { fixed }
        } else if fraction_bits(bits) == 0 {
            Reading::Infinite { negative: sign_bit(bits) }
        } else {
            Reading::NotANumber
        }
    }

    /// Reads a double-precision number from its bits; `fixed` is its decimal
    /// rendering, which is kept for an ordinary number and dropped otherwise.
    pub fn from_bits(bits: u64, fixed: String) -> (r: Reading)
        ensures
            r == Reading::of_bits(bits, fixed),
    {
        if (bits >> 52) & 0x7ff != 0x7ff {
            Reading::Finite { fixed }
        } else if bits & 0x000f_ffff_ffff_ffff == 0 {
            Reading::Infinite { negative: bits >> 63 == 1 }
        } else {
            Reading::NotANumber
        }
    }

    /// The text that an output field shows for the reading.
    pub open spec fn friendly(self) -> Seq<char> {
        match self {
            Reading::NotANumber => NAN_FTOA@,
            Reading::Infinite { negative } => if negative {
                "-"@ + INFINITY_FTOA@
            } else {
                INFINITY_FTOA@
            },
            Reading::Finite { fixed } => trimmed(fixed@),
        }
    }
}

/// The zeros at the end of `s` never outnumber its characters, and the
/// character before them, where there is one, is no zero.
pub proof fn lemma_zeros_at_end(s: Seq<char>)
    ensures
        zeros_at_end(s) <= s.len(),
        forall|i: int| s.len() - zeros_at_end(s) <= i < s.len() ==> s[i] == '0',
        zeros_at_end(s) < s.len() ==> s[s.len() - zeros_at_end(s) - 1] != '0',
    decreases s.len(),
{
    if s.len() > 0 && s.last() == '0' {
        let head = s.drop_last();
        lemma_zeros_at_end(head);
        assert forall|i: int| s.len() - zeros_at_end(s) <= i < s.len() implies s[i] == '0' by {
            if i < head.len() {
                assert(head[i] == s[i]);
            }
        }
        if zeros_at_end(s) < s.len() {
            assert(head[head.len() - zeros_at_end(head) - 1] == s[s.len() - zeros_at_end(s) - 1]);
        }
    }
}

/// What is left of a trimmed text is its beginning: trimming removes
/// characters at the end only, zeros and at most one point.
pub proof fn lemma_trimmed_is_prefix(s: Seq<char>)
    ensures
        trimmed(s).len() <= s.len(),
        trimmed(s) == s.take(trimmed(s).len() as int),
        s.len() - trimmed(s).len() - zeros_at_end(s) <= 1,
{
    lemma_zeros_at_end(s);
    let digits = s.take(s.len() - zeros_at_end(s));
    if digits.len() > 0 && digits.last() == '.' {
        assert(digits.drop_last() =~= s.take(digits.len() - 1));
    }
}

/// The zeros at the end of a text that ends in `tail`: those of `tail`
/// alone, unless `tail` is nothing but zeros, in which case the zeros at the
/// end of `head` join them.
pub proof fn lemma_zeros_at_end_of_joined(head: Seq<char>, tail: Seq<char>)
    ensures
        zeros_at_end(tail) < tail.len() ==> zeros_at_end(head + tail) == zeros_at_end(tail),
        zeros_at_end(tail) == tail.len() ==> zeros_at_end(head + tail) == tail.len()
            + zeros_at_end(head),
    decreases tail.len(),
{
    lemma_zeros_at_end(tail);
    if tail.len() == 0 {
        assert(head + tail =~= head);
    } else {
        assert((head + tail).last() == tail.last());
        assert((head + tail).drop_last() =~= head + tail.drop_last());
        if tail.last() == '0' {
            lemma_zeros_at_end_of_joined(head, tail.drop_last());
        }
    }
}

/// A number written as a whole part, a point and fraction digits keeps its
/// whole part as it stands, zeros included. Where the fraction is nothing
/// but zeros, the whole part is all that is left. Otherwise the point stays,
/// followed by the fraction up to its last digit that is no zero.
pub proof fn lemma_trimmed_fixed_point(whole: Seq<char>, fraction: Seq<char>)
    requires
        forall|i: int| 0 <= i < fraction.len() ==> fraction[i] != '.',
    ensures
        zeros_at_end(fraction) == fraction.len() ==> trimmed(whole + seq!['.'] + fraction)
            == whole,
        zeros_at_end(fraction) < fraction.len() ==> trimmed(whole + seq!['.'] + fraction)
            == whole + seq!['.'] + fraction.take(fraction.len() - zeros_at_end(fraction)),
{
    let head = whole + seq!['.'];
    let text = head + fraction;
    lemma_zeros_at_end(fraction);
    lemma_zeros_at_end_of_joined(head, fraction);
    assert(head.last() == '.');
    assert(zeros_at_end(head) == 0);
    if zeros_at_end(fraction) == fraction.len() {
        assert(text.take(text.len() - zeros_at_end(text)) =~= head);
        assert(head.drop_last() =~= whole);
    } else {
        let kept = fraction.take(fraction.len() - zeros_at_end(fraction));
        let digits = text.take(text.len() - zeros_at_end(text));
        assert(digits =~= head + kept);
        assert(digits.last() == fraction[fraction.len() - zeros_at_end(fraction) - 1]);
    }
}

/// Removes the zeros at the end of a number written with fraction digits,
/// and the point too where no fraction digit is left.
pub fn friendly_ftoa_base(formatted: &str) -> (r: String)
    ensures
        r@ == trimmed(formatted@),
{
    let len: usize = formatted.unicode_len();
    let mut keep: usize = len;
    assert(formatted@.take(len as int) =~= formatted@);
    while keep > 0 && formatted.get_char(keep - 1) == '0'
        invariant
            keep <= len,
            len == formatted@.len(),
            zeros_at_end(formatted@) == (len - keep) + zeros_at_end(formatted@.take(keep as int)),
        decreases keep,
    {
        proof {
            let head = formatted@.take(keep as int);
            assert(head.last() == formatted@[keep - 1]);
            assert(head.drop_last() =~= formatted@.take(keep - 1));
        }
        keep = keep - 1;
    }
    proof {
        let head = formatted@.take(keep as int);
        if keep > 0 {
            assert(head.last() == formatted@[keep - 1]);
        }
        assert(zeros_at_end(head) == 0);
        assert(formatted@.take(formatted@.len() - zeros_at_end(formatted@)) == head);
    }
    if keep > 0 && formatted.get_char(keep - 1) == '.' {
        proof {
            let head = formatted@.take(keep as int);
            assert(head.last() == formatted@[keep - 1]);
            assert(head.drop_last() =~= formatted@.subrange(0, keep - 1));
        }
        keep = keep - 1;
    } else {
        proof {
            let head = formatted@.take(keep as int);
            if keep > 0 {
                assert(head.last() == formatted@[keep - 1]);
            }
            assert(head =~= formatted@.subrange(0, keep as int));
        }
    }
    String::from_str(formatted.substring_char(0, keep))
}

/// The text that an output field shows for a computed number.
pub fn friendly_ftoa(val: &Reading) -> (r: String)
    ensures
        r@ == val.friendly(),
{
    match val {
        Reading::NotANumber => String::from_str(NAN_FTOA),
        Reading::Infinite { negative } => {
            if *negative {
                String::from_str("-").concat(INFINITY_FTOA)
            } else {
                String::from_str(INFINITY_FTOA)
            }
        },
        Reading::Finite { fixed } => friendly_ftoa_base(fixed.as_str()),
    }
}

} // verus!
