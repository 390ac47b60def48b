//! Human-readable sizes and compression ratios.

use crate::text::{append_decimal, decimal, digit_char, digit_text};
use vstd::arithmetic::div_mod::lemma_fundamental_div_mod;
use vstd::prelude::*;

verus! {

/// Bytes in a kibibyte.
pub const KB: u64 = 1024;

/// Bytes in a mebibyte.
pub const MB: u64 = 1024 * 1024;

/// Bytes in a gibibyte.
pub const GB: u64 = 1024 * 1024 * 1024;

/// Bytes in a tebibyte.
pub const TB: u64 = 1024 * 1024 * 1024 * 1024;

/// The quotient of `numerator` by `denominator` rounded to the nearest
/// integer, a tie going to the even one.
pub open spec fn round_half_even(numerator: nat, denominator: nat) -> nat {
    let quotient = numerator / denominator;
    let remainder = numerator % denominator;
    if 2 * remainder > denominator || (2 * remainder == denominator && quotient % 2 == 1) {
        quotient + 1
    } else {
        quotient
    }
}

/// The unit a size is shown in: the largest of TB, GB and MB that it
/// reaches, KB below that.
pub open spec fn size_unit(bytes: u64) -> u64 {
    if bytes >= TB {
        TB
    } else if bytes >= GB {
        GB
    } else if bytes >= MB {
        MB
    } else {
        KB
    }
}

/// The name of a unit.
pub open spec fn unit_label(unit: u64) -> Seq<char> {
    if unit == TB {
        " TB"@
    } else if unit == GB {
        " GB"@
    } else if unit == MB {
        " MB"@
    } else {
        " KB"@
    }
}

/// A number of hundredths written with two decimals.
pub open spec fn two_decimals(hundredths: nat) -> Seq<char> {
    decimal(hundredths / 100) + seq![
        '.',
        digit_char((hundredths % 100) / 10),
        digit_char(hundredths % 10),
    ]
}

/// A number of tenths written with one decimal.
pub open spec fn one_decimal(tenths: nat) -> Seq<char> {
    decimal(tenths / 10) + seq!['.', digit_char(tenths % 10)]
}

/// A size as it is shown: in its unit, with two decimals, rounded to the
/// nearest hundredth, a tie going to the even one.
pub open spec fn size_text(bytes: u64) -> Seq<char> {
    two_decimals(round_half_even(bytes as nat * 100, size_unit(bytes) as nat)) + unit_label(
        size_unit(bytes),
    )
}

/// A compression ratio as it is shown: the share of the original size that
/// was saved, or added, in percent with one decimal, rounded to the nearest
/// tenth, a tie going to the even one; nothing can be said of an empty
/// original.
pub open spec fn ratio_text(original: u64, compressed: u64) -> Seq<char> {
    if original == 0 {
        "N/A"@
    } else if compressed <= original {
        one_decimal(round_half_even((original - compressed) as nat * 1000, original as nat))
            + "% riduzione"@
    } else {
        one_decimal(round_half_even((compressed - original) as nat * 1000, original as nat))
            + "% aumento"@
    }
}

/// Divides and rounds to the nearest integer, a tie going to the even one.
pub fn divide_half_even(numerator: u128, denominator: u128) -> (rounded: u128)
    requires
        denominator > 0,
    ensures
        rounded == round_half_even(numerator as nat, denominator as nat),
{
    let quotient: u128 = numerator / denominator;
    let remainder: u128 = numerator % denominator;
    let rest: u128 = denominator - remainder;
    if remainder > rest || (remainder == rest && quotient % 2 == 1) {
        proof {
            lemma_fundamental_div_mod(numerator as int, denominator as int);
            assert(quotient < u128::MAX) by (nonlinear_arith)
                requires
                    numerator == denominator * quotient + remainder,
                    remainder >= 1,
                    denominator >= 1,
                    numerator <= u128::MAX,
            ;
        }
        quotient + 1
    } else {
        quotient
    }
}

/// Shows a size in bytes in a readable unit: KB, MB, GB or TB.
pub fn format_size(bytes: u64) -> (text: String)
    ensures
        text@ == size_text(bytes),
{
    proof {
        reveal_strlit(".");
        reveal_strlit(" TB");
        reveal_strlit(" GB");
        reveal_strlit(" MB");
        reveal_strlit(" KB");
    }
    let unit: u64 = if bytes >= TB {
        TB
    } else if bytes >= GB {
        GB
    } else if bytes >= MB {
        MB
    } else {
        KB
    };
    let label: &'static str = if unit == TB {
        " TB"
    } else if unit == GB {
        " GB"
    } else if unit == MB {
        " MB"
    } else {
        " KB"
    };
    let hundredths: u128 = divide_half_even(bytes as u128 * 100, unit as u128);
    let mut text = String::new();
    append_decimal(&mut text, hundredths / 100);
    text.append(".");
    text.append(digit_text(((hundredths % 100) / 10) as u8));
    text.append(digit_text((hundredths % 10) as u8));
    text.append(label);
    proof {
        assert(text@ =~= two_decimals(hundredths as nat) + unit_label(unit));
    }
    text
}

/// Shows how much smaller, or larger, the compressed size is than the
/// original.
pub fn format_ratio(original: u64, compressed: u64) -> (text: String)
    ensures
        text@ == ratio_text(original, compressed),
{
    if original == 0 {
        return "N/A".to_owned();
    }
    proof {
        reveal_strlit(".");
    }
    let (difference, word): (u64, &'static str) = if compressed <= original {
        (original - compressed, "% riduzione")
    } else {
        (compressed - original, "% aumento")
    };
    let tenths: u128 = divide_half_even(difference as u128 * 1000, original as u128);
    let mut text = String::new();
    append_decimal(&mut text, tenths / 10);
    text.append(".");
    text.append(digit_text((tenths % 10) as u8));
    text.append(word);
    proof {
        assert(text@ =~= one_decimal(tenths as nat) + word@);
    }
    text
}

} // verus!
