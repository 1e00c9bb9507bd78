//! Deterministic decimal formatting.
//!
//! Canonical payloads render unsigned integers in plain decimal and
//! fractional scores as fixed-point text with exactly 8 digits after the
//! decimal point, so equal values always serialize identically.

use vstd::prelude::*;
use vstd::string::StringExecFns;

verus! {

/// The decimal digit character for a value below ten.
pub open spec fn dec_digit_of(v: int) -> char
    recommends
        0 <= v < 10,
{
    seq!['0', '1', '2', '3', '4', '5', '6', '7', '8', '9'][v]
}

/// Plain decimal rendering of a natural number, no leading zeros
/// (a single zero for 0).
pub open spec fn dec_str_of(n: nat) -> Seq<char>
    decreases n,
{
    if n < 10 {
        seq![dec_digit_of(n as int)]
    } else {
        dec_str_of(n / 10).push(dec_digit_of((n % 10) as int))
    }
}

/// Decimal rendering of a natural number in exactly `width` digits,
/// zero-padded on the left (higher digits beyond `width` are dropped).
pub open spec fn dec_width_of(n: nat, width: nat) -> Seq<char>
    decreases width,
{
    if width == 0 {
        Seq::<char>::empty()
    } else {
        dec_width_of(n / 10, (width - 1) as nat).push(dec_digit_of((n % 10) as int))
    }
}

/// The number a digit string denotes, most significant digit first.
pub open spec fn dec_val_of(s: Seq<char>) -> int
    decreases s.len(),
{
    if s.len() == 0 {
        0
    } else {
        dec_val_of(s.drop_last()) * 10 + (s.last() as int - 48)
    }
}

/// A fixed-point fraction in units of 10^-8: `units == 150000000` denotes
/// 1.5 and renders as `1.50000000`.
#[derive(Clone, Copy, Debug, PartialEq, Eq, Structural)]
pub struct Fixed8 {
    pub units: u64,
}

/// The canonical 8-decimal-place rendering of a fixed-point value.
pub open spec fn fixed8_str_of(units: u64) -> Seq<char> {
    dec_str_of((units / 100000000) as nat) + seq!['.'] + dec_width_of((units % 100000000) as nat, 8)
}

/// The decimal digit for each value below ten decodes back to it.
pub proof fn lemma_dec_digit_val(v: int)
    requires
        0 <= v < 10,
    ensures
        dec_digit_of(v) as int - 48 == v,
        48 <= dec_digit_of(v) as int <= 57,
{
}

/// Decimal rendering decodes back to the number it renders.
pub proof fn lemma_dec_str_val(n: nat)
    ensures
        dec_val_of(dec_str_of(n)) == n,
        dec_str_of(n).len() >= 1,
    decreases n,
{
    if n < 10 {
        lemma_dec_digit_val(n as int);
        let s = dec_str_of(n);
        assert(s.drop_last() =~= Seq::<char>::empty());
        assert(dec_val_of(Seq::<char>::empty()) == 0);
        assert(s.last() == dec_digit_of(n as int));
        assert(dec_val_of(s) == dec_val_of(s.drop_last()) * 10 + (s.last() as int - 48));
    } else {
        lemma_dec_str_val(n / 10);
        lemma_dec_digit_val((n % 10) as int);
        let s = dec_str_of(n);
        assert(s.drop_last() =~= dec_str_of(n / 10));
        assert(s.last() == dec_digit_of((n % 10) as int));
        assert(dec_val_of(s) == dec_val_of(s.drop_last()) * 10 + (s.last() as int - 48));
        assert(dec_val_of(s) == (n / 10) * 10 + n % 10);
    }
}

/// Distinct numbers have distinct decimal renderings.
pub proof fn lemma_dec_str_injective(a: nat, b: nat)
    requires
        dec_str_of(a) == dec_str_of(b),
    ensures
        a == b,
{
    lemma_dec_str_val(a);
    lemma_dec_str_val(b);
}

/// Ten to the `width`.
pub open spec fn pow10(width: nat) -> nat
    decreases width,
{
    if width == 0 {
        1
    } else {
        10 * pow10((width - 1) as nat)
    }
}

/// Fixed-width rendering decodes back to the number, for numbers that fit
/// the width.
pub proof fn lemma_dec_width_val(n: nat, width: nat)
    requires
        n < pow10(width),
    ensures
        dec_val_of(dec_width_of(n, width)) == n,
        dec_width_of(n, width).len() == width,
    decreases width,
{
    if width == 0 {
    } else {
        assert(n / 10 < pow10((width - 1) as nat)) by {
            if n / 10 >= pow10((width - 1) as nat) {
                assert(n >= 10 * pow10((width - 1) as nat));
            }
        }
        lemma_dec_width_val(n / 10, (width - 1) as nat);
        lemma_dec_digit_val((n % 10) as int);
        let s = dec_width_of(n, width);
        assert(s.drop_last() =~= dec_width_of(n / 10, (width - 1) as nat));
        assert(s.last() == dec_digit_of((n % 10) as int));
        assert(dec_val_of(s) == dec_val_of(s.drop_last()) * 10 + (s.last() as int - 48));
        assert(dec_val_of(s) == (n / 10) * 10 + n % 10);
    }
}

/// Distinct fixed-point values render to distinct 8-decimal strings:
/// the integer parts stand before the dot, the fractional parts in the
/// fixed-width 8 digits after it.
pub proof fn lemma_fixed8_str_injective(a: u64, b: u64)
    requires
        fixed8_str_of(a) == fixed8_str_of(b),
    ensures
        a == b,
{
    let sa = fixed8_str_of(a);
    let sb = fixed8_str_of(b);
    let ia = dec_str_of((a / 100000000) as nat);
    let ib = dec_str_of((b / 100000000) as nat);
    let fa = dec_width_of((a % 100000000) as nat, 8);
    let fb = dec_width_of((b % 100000000) as nat, 8);
    assert(pow10(8) == 100000000) by {
        reveal_with_fuel(pow10, 9);
    }
    lemma_dec_width_val((a % 100000000) as nat, 8);
    lemma_dec_width_val((b % 100000000) as nat, 8);
    lemma_dec_str_val((a / 100000000) as nat);
    lemma_dec_str_val((b / 100000000) as nat);
    // the fractional parts are the last 8 characters of equal strings
    assert(sa.len() == ia.len() + 1 + 8);
    assert(sb.len() == ib.len() + 1 + 8);
    assert(ia.len() == ib.len());
    assert(fa =~= sa.subrange(sa.len() - 8, sa.len() as int));
    assert(fb =~= sb.subrange(sb.len() - 8, sb.len() as int));
    assert(fa == fb);
    assert(ia =~= sa.subrange(0, ia.len() as int));
    assert(ib =~= sb.subrange(0, ib.len() as int));
    assert(ia == ib);
    lemma_dec_str_injective((a / 100000000) as nat, (b / 100000000) as nat);
    assert(a == 100000000 * (a / 100000000) + a % 100000000);
    assert(b == 100000000 * (b / 100000000) + b % 100000000);
}

/// The one-character string for a decimal digit.
fn digit_str(d: u64) -> (s: &'static str)
    requires
        d < 10,
    ensures
        s@ == seq![dec_digit_of(d as int)],
{
    if d == 0 {
        proof { reveal_strlit("0"); }
        let s = "0";
        proof { assert(s@ =~= seq![dec_digit_of(0int)]); }
        s
    } else if d == 1 {
        proof { reveal_strlit("1"); }
        let s = "1";
        proof { assert(s@ =~= seq![dec_digit_of(1int)]); }
        s
    } else if d == 2 {
        proof { reveal_strlit("2"); }
        let s = "2";
        proof { assert(s@ =~= seq![dec_digit_of(2int)]); }
        s
    } else if d == 3 {
        proof { reveal_strlit("3"); }
        let s = "3";
        proof { assert(s@ =~= seq![dec_digit_of(3int)]); }
        s
    } else if d == 4 {
        proof { reveal_strlit("4"); }
        let s = "4";
        proof { assert(s@ =~= seq![dec_digit_of(4int)]); }
        s
    } else if d == 5 {
        proof { reveal_strlit("5"); }
        let s = "5";
        proof { assert(s@ =~= seq![dec_digit_of(5int)]); }
        s
    } else if d == 6 {
        proof { reveal_strlit("6"); }
        let s = "6";
        proof { assert(s@ =~= seq![dec_digit_of(6int)]); }
        s
    } else if d == 7 {
        proof { reveal_strlit("7"); }
        let s = "7";
        proof { assert(s@ =~= seq![dec_digit_of(7int)]); }
        s
    } else if d == 8 {
        proof { reveal_strlit("8"); }
        let s = "8";
        proof { assert(s@ =~= seq![dec_digit_of(8int)]); }
        s
    } else {
        proof { reveal_strlit("9"); }
        let s = "9";
        proof { assert(s@ =~= seq![dec_digit_of(9int)]); }
        s
    }
}

/// Render an unsigned integer in plain decimal.
pub fn u64_to_dec_string(n: u64) -> (r: String)
    ensures
        r@ == dec_str_of(n as nat),
    decreases n,
{
    if n < 10 {
        String::from_str(digit_str(n))
    } else {
        let mut s = u64_to_dec_string(n / 10);
        s.append(digit_str(n % 10));
        proof {
            assert(s@ =~= dec_str_of((n / 10) as nat).push(dec_digit_of((n % 10) as int)));
        }
        s
    }
}

/// Render the low `width` decimal digits of an unsigned integer,
/// zero-padded on the left.
pub fn u64_to_width_string(n: u64, width: u64) -> (r: String)
    ensures
        r@ == dec_width_of(n as nat, width as nat),
    decreases width,
{
    if width == 0 {
        String::new()
    } else {
        let mut s = u64_to_width_string(n / 10, width - 1);
        s.append(digit_str(n % 10));
        proof {
            assert(s@ =~= dec_width_of((n / 10) as nat, (width - 1) as nat).push(
                dec_digit_of((n % 10) as int),
            ));
        }
        s
    }
}

/// Render a fixed-point value with exactly 8 digits after the decimal point.
pub fn format_fixed8(x: Fixed8) -> (r: String)
    ensures
        r@ == fixed8_str_of(x.units),
{
    let mut s = u64_to_dec_string(x.units / 100000000);
    proof { reveal_strlit("."); }
    s.append(".");
    let frac = u64_to_width_string(x.units % 100000000, 8);
    s.append(frac.as_str());
    proof {
        assert(("."@) =~= seq!['.']);
        assert(s@ =~= fixed8_str_of(x.units));
    }
    s
}

/// Canonical rendering of a flag: `"1"` when set, `"0"` when not.
pub open spec fn bool_str_of(b: bool) -> Seq<char> {
    if b {
        "1"@
    } else {
        "0"@
    }
}

/// The two flag renderings differ.
pub proof fn lemma_bool_str_ne()
    ensures
        "1"@ != "0"@,
{
    reveal_strlit("1");
    reveal_strlit("0");
    assert("1"@[0] == '1');
    assert("0"@[0] == '0');
}

/// Emit the canonical flag rendering.
pub fn bool_to_string(b: bool) -> (r: &'static str)
    ensures
        r@ == bool_str_of(b),
{
    if b {
        "1"
    } else {
        "0"
    }
}

/// Big-endian byte rendering of an unsigned 64-bit integer.
pub open spec fn u64_be_bytes_of(x: u64) -> Seq<u8> {
    seq![
        (x >> 56) as u8,
        (x >> 48) as u8,
        (x >> 40) as u8,
        (x >> 32) as u8,
        (x >> 24) as u8,
        (x >> 16) as u8,
        (x >> 8) as u8,
        x as u8,
    ]
}

/// Emit the eight big-endian bytes of an unsigned 64-bit integer.
pub fn u64_to_be_bytes(x: u64) -> (r: Vec<u8>)
    ensures
        r@ == u64_be_bytes_of(x),
{
    let mut r: Vec<u8> = Vec::new();
    r.push((x >> 56) as u8);
    r.push((x >> 48) as u8);
    r.push((x >> 40) as u8);
    r.push((x >> 32) as u8);
    r.push((x >> 24) as u8);
    r.push((x >> 16) as u8);
    r.push((x >> 8) as u8);
    r.push(x as u8);
    proof {
        assert(r@ =~= u64_be_bytes_of(x));
    }
    r
}

} // verus!
