use crate::strutil::{dec_digits, digit_char, digit_str, u64_to_string};
use vstd::arithmetic::div_mod::{
    lemma_div_is_ordered, lemma_fundamental_div_mod, lemma_fundamental_div_mod_converse,
    lemma_mod_pos_bound,
};
use vstd::arithmetic::mul::lemma_mul_inequality;
use vstd::prelude::*;

verus! {

/// `num / den` rounded to the nearest integer, ties to the even neighbour.
pub open spec fn round_half_even(num: nat, den: nat) -> nat
    recommends
        den > 0,
{
    let q = num / den;
    let r = num % den;
    if 2 * r > den {
        q + 1
    } else if 2 * r == den && q % 2 == 1 {
        q + 1
    } else {
        q
    }
}

/// Hundredths of the display unit with divisor `den` that stand for `n` bytes.
pub open spec fn size_centi(n: nat, den: nat) -> nat
    recommends
        den > 0,
{
    round_half_even(100 * n, den)
}

/// The divisor of the unit tier that the size formatter picks for `n` bytes:
/// bytes below 1024, then KB, MB and GB in powers of 1024.  There is no
/// larger tier; huge counts still render as GB.
pub open spec fn size_divisor(n: u64) -> nat {
    if n < 1024 {
        1
    } else if n < 1048576 {
        1024
    } else if n < 1073741824 {
        1048576
    } else {
        1073741824
    }
}

/// A hundredths count rendered as `whole.dd` with exactly two fractional
/// digits.
pub open spec fn centi_digits(c: nat) -> Seq<char> {
    dec_digits(c / 100) + seq!['.', digit_char((c % 100) / 10), digit_char(c % 10)]
}

/// The text the size formatter returns for `n` bytes: an integer count of
/// bytes below 1024, otherwise the rounded hundredths of the chosen unit.
pub open spec fn spec_format_size(n: u64) -> Seq<char> {
    if n < 1024 {
        dec_digits(n as nat) + " B"@
    } else if n < 1048576 {
        centi_digits(size_centi(n as nat, 1024)) + " KB"@
    } else if n < 1073741824 {
        centi_digits(size_centi(n as nat, 1048576)) + " MB"@
    } else {
        centi_digits(size_centi(n as nat, 1073741824)) + " GB"@
    }
}

/// The displayed quantity scaled back to hundredths of a byte: the number
/// shown, times its unit's byte count, times one hundred.
pub open spec fn displayed_value_scaled(n: u64) -> nat {
    size_centi(n as nat, size_divisor(n)) * size_divisor(n)
}

proof fn lemma_rhe_monotone(a: nat, b: nat, den: nat)
    requires
        den > 0,
        a <= b,
    ensures
        round_half_even(a, den) <= round_half_even(b, den),
{
    lemma_div_is_ordered(a as int, b as int, den as int);
    let qa = a / den;
    let qb = b / den;
    if qa == qb {
        lemma_fundamental_div_mod(a as int, den as int);
        lemma_fundamental_div_mod(b as int, den as int);
        assert(a % den <= b % den);
    } else {
        assert(round_half_even(a, den) <= qa + 1);
        assert(qa + 1 <= qb);
    }
}

proof fn lemma_centi_fits(n: nat, den: nat)
    requires
        1024 <= den,
        n <= 0xFFFF_FFFF_FFFF_FFFF,
    ensures
        size_centi(n, den) < 0xFFFF_FFFF_FFFF_FFFF,
{
    let num = 100 * n;
    let q = num / den;
    lemma_fundamental_div_mod(num as int, den as int);
    assert(q * den <= num);
    assert(q < 0xFFFF_FFFF_FFFF_FFFEnat) by (nonlinear_arith)
        requires
            q * den <= num,
            num <= 100 * 0xFFFF_FFFF_FFFF_FFFFnat,
            1024 <= den,
    ;
}

/// Exact rounding on the machine integers used by the formatter.
fn round_half_even_u128(num: u128, den: u128) -> (r: u128)
    requires
        0 < den <= 1073741824,
        num < 0xFFFF_FFFF_FFFF_FFFF_FFFF_FFFF_FFFF_FFFF,
    ensures
        r == round_half_even(num as nat, den as nat),
{
    let q = num / den;
    let r = num % den;
    proof {
        lemma_fundamental_div_mod(num as int, den as int);
        lemma_mod_pos_bound(num as int, den as int);
        assert(q == num as int / den as int);
        assert(q * den <= num);
        assert(q <= num) by (nonlinear_arith)
            requires
                q * den <= num,
                den >= 1,
                q >= 0,
        ;
    }
    if 2 * r > den {
        q + 1
    } else if 2 * r == den && q % 2 == 1 {
        q + 1
    } else {
        q
    }
}

/// Renders a hundredths count as `whole.dd`.
fn centi_string(c: u64) -> (r: String)
    ensures
        r@ == centi_digits(c as nat),
{
    let mut s = u64_to_string(c / 100);
    proof {
        reveal_strlit(".");
    }
    s.append(".");
    s.append(digit_str((c % 100) / 10));
    s.append(digit_str(c % 10));
    proof {
        assert((c % 100) % 10 == c % 10) by (nonlinear_arith);
        assert(s@ =~= centi_digits(c as nat));
    }
    s
}

/// Converts a raw byte count into the human-readable size string:
/// `"{n} B"` below 1024 bytes, otherwise `"{q}.{dd} {unit}"` with two
/// fractional digits for the KB, MB and GB tiers.
pub fn format_size(size: u64) -> (r: String)
    ensures
        r@ == spec_format_size(size),
{
    if size < 1024 {
        let r = u64_to_string(size).concat(" B");
        r
    } else if size < 1048576 {
        let num: u128 = (size as u128) * 100;
        let c = round_half_even_u128(num, 1024);
        proof {
            lemma_centi_fits(size as nat, 1024);
        }
        let r = centi_string(c as u64).concat(" KB");
        r
    } else if size < 1073741824 {
        let num: u128 = (size as u128) * 100;
        let c = round_half_even_u128(num, 1048576);
        proof {
            lemma_centi_fits(size as nat, 1048576);
        }
        let r = centi_string(c as u64).concat(" MB");
        r
    } else {
        let num: u128 = (size as u128) * 100;
        let c = round_half_even_u128(num, 1073741824);
        proof {
            lemma_centi_fits(size as nat, 1073741824);
        }
        let r = centi_string(c as u64).concat(" GB");
        r
    }
}

proof fn lemma_displayed_byte_tier(n: u64)
    requires
        n < 1024,
    ensures
        displayed_value_scaled(n) == 100 * (n as nat),
{
    lemma_fundamental_div_mod_converse(100 * (n as int), 1, 100 * (n as int), 0);
}

proof fn lemma_displayed_low(n: u64)
    ensures
        1024 <= n < 1048576 ==> displayed_value_scaled(n) >= 102400,
        1048576 <= n < 1073741824 ==> displayed_value_scaled(n) >= 104857600,
        1073741824 <= n ==> displayed_value_scaled(n) >= 107374182400,
{
    if 1024 <= n < 1048576 {
        lemma_fundamental_div_mod_converse(102400, 1024, 100, 0);
        lemma_rhe_monotone(102400, 100 * (n as nat), 1024);
        assert(size_centi(n as nat, 1024) >= 100);
        lemma_mul_inequality(100, size_centi(n as nat, 1024) as int, 1024);
    } else if 1048576 <= n < 1073741824 {
        lemma_fundamental_div_mod_converse(104857600, 1048576, 100, 0);
        lemma_rhe_monotone(104857600, 100 * (n as nat), 1048576);
        assert(size_centi(n as nat, 1048576) >= 100);
        lemma_mul_inequality(100, size_centi(n as nat, 1048576) as int, 1048576);
    } else if 1073741824 <= n {
        lemma_fundamental_div_mod_converse(107374182400, 1073741824, 100, 0);
        lemma_rhe_monotone(107374182400, 100 * (n as nat), 1073741824);
        assert(size_centi(n as nat, 1073741824) >= 100);
        lemma_mul_inequality(100, size_centi(n as nat, 1073741824) as int, 1073741824);
    }
}

proof fn lemma_displayed_high(n: u64)
    ensures
        n < 1024 ==> displayed_value_scaled(n) <= 102300,
        n < 1048576 ==> displayed_value_scaled(n) <= 104857600,
        n < 1073741824 ==> displayed_value_scaled(n) <= 107374182400,
{
    if n < 1024 {
        lemma_displayed_byte_tier(n);
    } else if n < 1048576 {
        lemma_fundamental_div_mod_converse(104857500, 1024, 102399, 924);
        lemma_rhe_monotone(100 * (n as nat), 104857500, 1024);
        assert(round_half_even(104857500, 1024) == 102400);
        lemma_mul_inequality(size_centi(n as nat, 1024) as int, 102400, 1024);
    } else if n < 1073741824 {
        lemma_fundamental_div_mod_converse(107374182300, 1048576, 102399, 1048476);
        lemma_rhe_monotone(100 * (n as nat), 107374182300, 1048576);
        assert(round_half_even(107374182300, 1048576) == 102400);
        lemma_mul_inequality(size_centi(n as nat, 1048576) as int, 102400, 1048576);
    }
}

/// The size formatter never shows a smaller quantity for a larger file:
/// scaled back to a common unit, the displayed value is monotonically
/// non-decreasing in the byte count, across tier boundaries included.
pub proof fn lemma_format_size_monotone(n1: u64, n2: u64)
    requires
        n1 <= n2,
    ensures
        displayed_value_scaled(n1) <= displayed_value_scaled(n2),
{
    if size_divisor(n1) == size_divisor(n2) {
        lemma_rhe_monotone(100 * (n1 as nat), 100 * (n2 as nat), size_divisor(n1));
        lemma_mul_inequality(
            size_centi(n1 as nat, size_divisor(n1)) as int,
            size_centi(n2 as nat, size_divisor(n2)) as int,
            size_divisor(n1) as int,
        );
    } else {
        lemma_displayed_high(n1);
        lemma_displayed_low(n2);
    }
}

} // verus!
