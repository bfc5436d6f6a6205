//! Image-size input: validation and conversion to a byte count.
//!
//! The operator enters the image size in GiB as a plain decimal such as
//! `1.2`.  An entry is accepted for image creation only when it parses as
//! a non-negative decimal number strictly greater than 0.1; exponents and
//! other float spellings are not part of the accepted grammar.

use crate::strutil::{find_char_from, lemma_scan_to_determined, spec_scan_to};
use vstd::prelude::*;

verus! {

/// A decimal digit.
pub open spec fn is_digit(c: char) -> bool {
    c == '0' || c == '1' || c == '2' || c == '3' || c == '4' || c == '5' || c == '6' || c == '7'
        || c == '8' || c == '9'
}

/// The value of a decimal digit.
pub open spec fn digit_val(c: char) -> int {
    if c == '0' {
        0
    } else if c == '1' {
        1
    } else if c == '2' {
        2
    } else if c == '3' {
        3
    } else if c == '4' {
        4
    } else if c == '5' {
        5
    } else if c == '6' {
        6
    } else if c == '7' {
        7
    } else if c == '8' {
        8
    } else {
        9
    }
}

pub open spec fn all_digits(s: Seq<char>) -> bool {
    forall|i: int| 0 <= i < s.len() ==> is_digit(#[trigger] s[i])
}

/// The integer written by a digit string (0 for the empty string).
pub open spec fn digits_val(s: Seq<char>) -> int
    decreases s.len(),
{
    if s.len() == 0 {
        0
    } else {
        digits_val(s.drop_last()) * 10 + digit_val(s.last())
    }
}

pub open spec fn pow10(k: int) -> int
    decreases k,
{
    if k <= 0 {
        1
    } else {
        10 * pow10(k - 1)
    }
}

pub proof fn lemma_pow10_pos(k: int)
    ensures
        pow10(k) >= 1,
    decreases k,
{
    if k > 0 {
        lemma_pow10_pos(k - 1);
    }
}

pub proof fn lemma_dv_bounds(s: Seq<char>)
    requires
        all_digits(s),
    ensures
        0 <= digits_val(s) < pow10(s.len() as int),
    decreases s.len(),
{
    if s.len() == 0 {
    } else {
        let h = s.drop_last();
        assert(all_digits(h)) by {
            assert(forall|i: int| 0 <= i < h.len() ==> h[i] == s[i]);
        }
        lemma_dv_bounds(h);
        assert(is_digit(s.last()));
        assert(digit_val(s.last()) <= 9);
        assert(pow10(s.len() as int) == 10 * pow10(s.len() - 1));
    }
}

pub proof fn lemma_dv_pos(s: Seq<char>)
    requires
        all_digits(s),
    ensures
        (digits_val(s) > 0) <==> (exists|i: int| 0 <= i < s.len() && s[i] != '0'),
    decreases s.len(),
{
    if s.len() == 0 {
    } else {
        let h = s.drop_last();
        assert(all_digits(h)) by {
            assert(forall|i: int| 0 <= i < h.len() ==> h[i] == s[i]);
        }
        lemma_dv_pos(h);
        lemma_dv_bounds(h);
        let d = digit_val(s.last());
        assert(d >= 0);
        if digits_val(s) > 0 {
            if digits_val(h) > 0 {
                let i = choose|i: int| 0 <= i < h.len() && h[i] != '0';
                assert(s[i] != '0');
            } else {
                assert(d > 0);
                assert(s[s.len() - 1] != '0');
            }
        }
        if exists|i: int| 0 <= i < s.len() && s[i] != '0' {
            let i = choose|i: int| 0 <= i < s.len() && s[i] != '0';
            if i < h.len() {
                assert(h[i] != '0');
                assert(digits_val(h) > 0);
            } else {
                assert(s.last() != '0');
                assert(d > 0);
            }
        }
    }
}

pub proof fn lemma_dv_split_first(s: Seq<char>)
    requires
        s.len() > 0,
        all_digits(s),
    ensures
        digits_val(s) == digit_val(s[0]) * pow10(s.len() - 1) + digits_val(s.skip(1)),
    decreases s.len(),
{
    if s.len() == 1 {
        assert(s.drop_last() =~= Seq::<char>::empty());
        assert(s.skip(1) =~= Seq::<char>::empty());
        assert(s.last() == s[0]);
    } else {
        let h = s.drop_last();
        assert(all_digits(h)) by {
            assert(forall|i: int| 0 <= i < h.len() ==> h[i] == s[i]);
        }
        lemma_dv_split_first(h);
        assert(h.skip(1) =~= s.skip(1).drop_last());
        assert(s.skip(1).last() == s.last());
        assert(h[0] == s[0]);
        let d = digit_val(s[0]);
        let p2 = pow10(s.len() - 2);
        let dl = digit_val(s.last());
        assert(h.len() - 1 == s.len() - 2);
        assert(digits_val(h) == d * p2 + digits_val(h.skip(1)));
        assert(digits_val(s) == digits_val(h) * 10 + dl);
        assert(digits_val(s.skip(1)) == digits_val(h.skip(1)) * 10 + dl);
        assert(digits_val(h) * 10 == (d * p2 + digits_val(h.skip(1))) * 10);
        assert((d * p2 + digits_val(h.skip(1))) * 10 == d * p2 * 10 + digits_val(h.skip(1)) * 10)
            by (nonlinear_arith);
        assert(d * p2 * 10 == d * (p2 * 10)) by (nonlinear_arith);
        assert(pow10(s.len() - 1) == 10 * p2);
        assert(d * (p2 * 10) == d * pow10(s.len() - 1));
    }
}

pub proof fn lemma_dv_prefix_mono(s: Seq<char>, k: int)
    requires
        all_digits(s),
        0 <= k <= s.len(),
    ensures
        digits_val(s) >= digits_val(s.take(k)),
    decreases s.len(),
{
    if k == s.len() {
        assert(s.take(k) =~= s);
    } else {
        let h = s.drop_last();
        assert(all_digits(h)) by {
            assert(forall|i: int| 0 <= i < h.len() ==> h[i] == s[i]);
        }
        lemma_dv_prefix_mono(h, k);
        assert(h.take(k) =~= s.take(k));
        lemma_dv_bounds(h);
        assert(digits_val(s) == digits_val(h) * 10 + digit_val(s.last()));
        assert(digit_val(s.last()) >= 0);
        assert(digits_val(h) * 10 >= digits_val(h));
    }
}

/// The integer and fractional digit strings of a decimal entry:
/// an optional leading `+`, digits, at most one `.`, at least one digit
/// in all.  Anything else is not a size entry.
pub open spec fn spec_decimal_parts(s: Seq<char>) -> Option<(Seq<char>, Seq<char>)> {
    let b = if s.len() > 0 && s[0] == '+' {
        s.skip(1)
    } else {
        s
    };
    let p = spec_scan_to(b, '.');
    if p == b.len() {
        if b.len() > 0 && all_digits(b) {
            Some((b, Seq::empty()))
        } else {
            None
        }
    } else {
        let intd = b.take(p);
        let fracd = b.skip(p + 1);
        if all_digits(intd) && all_digits(fracd) && intd.len() + fracd.len() > 0 {
            Some((intd, fracd))
        } else {
            None
        }
    }
}

/// The entry reads as a number strictly greater than 0.1:
/// with value `(vi * 10^k + vf) / 10^k`, that is `10 * (vi * 10^k + vf) > 10^k`.
pub open spec fn spec_size_valid(s: Seq<char>) -> bool {
    match spec_decimal_parts(s) {
        None => false,
        Some((intd, fracd)) => 10 * (digits_val(intd) * pow10(fracd.len() as int) + digits_val(
            fracd,
        )) > pow10(fracd.len() as int),
    }
}

/// The entry reads as a number strictly greater than zero.
pub open spec fn spec_size_positive(s: Seq<char>) -> bool {
    match spec_decimal_parts(s) {
        None => false,
        Some((intd, fracd)) => digits_val(intd) + digits_val(fracd) > 0,
    }
}

proof fn lemma_gt_tenth(intd: Seq<char>, fracd: Seq<char>)
    requires
        all_digits(intd),
        all_digits(fracd),
    ensures
        (10 * (digits_val(intd) * pow10(fracd.len() as int) + digits_val(fracd)) > pow10(
            fracd.len() as int,
        )) <==> (digits_val(intd) > 0 || (fracd.len() > 0 && (digit_val(fracd[0]) >= 2 || (
        digit_val(fracd[0]) == 1 && digits_val(fracd.skip(1)) > 0)))),
{
    let vi = digits_val(intd);
    let vf = digits_val(fracd);
    let kk = fracd.len() as int;
    let pk = pow10(kk);
    lemma_dv_bounds(intd);
    lemma_dv_bounds(fracd);
    lemma_pow10_pos(kk);
    if vi > 0 {
        assert(vi * pk >= pk) by (nonlinear_arith)
            requires
                vi >= 1,
                pk >= 1,
        ;
        assert(10 * (vi * pk + vf) > pk);
    } else {
        assert(vi == 0);
        assert(vi * pk == 0) by (nonlinear_arith)
            requires
                vi == 0,
        ;
        if kk == 0 {
            assert(vf < pow10(0));
            assert(vf == 0);
        } else {
            lemma_dv_split_first(fracd);
            let d1 = digit_val(fracd[0]);
            let r = digits_val(fracd.skip(1));
            let pk1 = pow10(kk - 1);
            assert(all_digits(fracd.skip(1))) by {
                assert(forall|i: int|
                    0 <= i < fracd.skip(1).len() ==> fracd.skip(1)[i] == fracd[i + 1]);
            }
            lemma_dv_bounds(fracd.skip(1));
            assert(fracd.skip(1).len() == kk - 1);
            assert(0 <= r < pk1);
            lemma_pow10_pos(kk - 1);
            assert(pk == 10 * pk1);
            assert(vf == d1 * pk1 + r);
            // 10 * vf > pk  <==>  d1 * pk1 + r > pk1
            if d1 >= 2 {
                assert(d1 * pk1 >= 2 * pk1) by (nonlinear_arith)
                    requires
                        d1 >= 2,
                        pk1 >= 1,
                ;
                assert(10 * (d1 * pk1 + r) > 10 * pk1);
            } else if d1 == 1 {
                assert(vf == pk1 + r);
                if r > 0 {
                    assert(10 * vf > 10 * pk1);
                } else {
                    assert(10 * vf == 10 * pk1);
                }
            } else {
                assert(d1 == 0);
                assert(vf == r);
                assert(10 * vf < 10 * pk1);
            }
        }
    }
}

/// Does any position in `[from, to)` hold a character other than `0`,
/// and are they all digits?
fn digits_info(s: &str, from: usize, to: usize) -> (r: (bool, bool))
    requires
        from <= to <= s@.len(),
    ensures
        r.0 == all_digits(s@.subrange(from as int, to as int)),
        r.0 ==> r.1 == (digits_val(s@.subrange(from as int, to as int)) > 0),
{
    let ghost w = s@.subrange(from as int, to as int);
    let mut k: usize = from;
    let mut nonzero = false;
    while k < to
        invariant
            from <= k <= to <= s@.len(),
            w == s@.subrange(from as int, to as int),
            forall|i: int| 0 <= i < k - from ==> is_digit(#[trigger] w[i]),
            nonzero == (exists|i: int| 0 <= i < k - from && w[i] != '0'),
        decreases to - k,
    {
        let c = s.get_char(k);
        proof {
            assert(w[k - from] == s@[k as int]);
        }
        let dig = c == '0' || c == '1' || c == '2' || c == '3' || c == '4' || c == '5' || c == '6'
            || c == '7' || c == '8' || c == '9';
        if !dig {
            proof {
                assert(!is_digit(w[k - from]));
            }
            return (false, false);
        }
        if c != '0' {
            nonzero = true;
        }
        k += 1;
    }
    proof {
        lemma_dv_pos(w);
    }
    (true, nonzero)
}

/// Accept a size entry exactly when it reads as a decimal number
/// strictly greater than 0.1.
pub fn validate_size_input(input: &str) -> (r: bool)
    ensures
        r == spec_size_valid(input@),
{
    let slen = input.unicode_len();
    let st: usize = if slen > 0 && input.get_char(0) == '+' {
        1
    } else {
        0
    };
    let ghost b = if st == 1 {
        input@.skip(1)
    } else {
        input@
    };
    proof {
        if st == 0 {
            assert(input@.skip(0) =~= input@);
        }
    }
    let dot = match find_char_from(input, st, '.') {
        Some(p) => p,
        None => slen,
    };
    proof {
        assert forall|k: int| 0 <= k < dot - st implies b[k] != '.' by {
            assert(b[k] == input@[st + k]);
        }
        assert(dot - st < b.len() ==> b[dot - st] == '.') by {
            if dot - st < b.len() {
                assert(b[dot - st] == input@[dot as int]);
            }
        }
        lemma_scan_to_determined(b, '.', dot - st);
    }
    let ghost intd = b.take(dot - st);
    let ghost fracd = if dot < slen {
        b.skip(dot - st + 1)
    } else {
        Seq::<char>::empty()
    };
    let (int_ok, int_nonzero) = digits_info(input, st, dot);
    proof {
        assert(input@.subrange(st as int, dot as int) =~= intd);
    }
    if !int_ok {
        return false;
    }
    if dot == slen {
        // no fractional part: the whole body must be non-empty digits
        if st == slen {
            return false;
        }
        proof {
            assert(intd =~= b);
            lemma_gt_tenth(intd, fracd);
        }
        return int_nonzero;
    }
    // fractional part present
    let (frac_ok, _) = digits_info(input, dot + 1, slen);
    proof {
        assert(input@.subrange(dot + 1, slen as int) =~= fracd);
    }
    if !frac_ok {
        return false;
    }
    if st == dot && dot + 1 == slen {
        // a bare dot with no digits at all
        return false;
    }
    proof {
        lemma_gt_tenth(intd, fracd);
    }
    if int_nonzero {
        return true;
    }
    // integer part is zero: decide on the fractional digits
    if dot + 1 == slen {
        return false;
    }
    let d1 = input.get_char(dot + 1);
    proof {
        assert(fracd[0] == input@[dot + 1]);
    }
    if d1 == '0' {
        return false;
    }
    if d1 != '1' {
        return true;
    }
    // first fractional digit is 1: something non-zero must follow
    let (_, rest_nonzero) = digits_info(input, dot + 2, slen);
    proof {
        assert(input@.subrange(dot + 2, slen as int) =~= fracd.skip(1));
        assert(all_digits(fracd.skip(1))) by {
            assert(forall|i: int| 0 <= i < fracd.skip(1).len() ==> fracd.skip(1)[i] == fracd[i
                + 1]);
        }
    }
    rest_nonzero
}

/// Accept a size entry exactly when it reads as a number greater than zero.
pub fn size_input_positive(input: &str) -> (r: bool)
    ensures
        r == spec_size_positive(input@),
{
    let slen = input.unicode_len();
    let st: usize = if slen > 0 && input.get_char(0) == '+' {
        1
    } else {
        0
    };
    let ghost b = if st == 1 {
        input@.skip(1)
    } else {
        input@
    };
    proof {
        if st == 0 {
            assert(input@.skip(0) =~= input@);
        }
    }
    let dot = match find_char_from(input, st, '.') {
        Some(p) => p,
        None => slen,
    };
    proof {
        assert forall|k: int| 0 <= k < dot - st implies b[k] != '.' by {
            assert(b[k] == input@[st + k]);
        }
        assert(dot - st < b.len() ==> b[dot - st] == '.') by {
            if dot - st < b.len() {
                assert(b[dot - st] == input@[dot as int]);
            }
        }
        lemma_scan_to_determined(b, '.', dot - st);
    }
    let ghost intd = b.take(dot - st);
    let (int_ok, int_nonzero) = digits_info(input, st, dot);
    proof {
        assert(input@.subrange(st as int, dot as int) =~= intd);
    }
    if !int_ok {
        return false;
    }
    if dot == slen {
        if st == slen {
            return false;
        }
        proof {
            assert(intd =~= b);
            lemma_dv_bounds(intd);
        }
        return int_nonzero;
    }
    let ghost fracd = b.skip(dot - st + 1);
    let (frac_ok, frac_nonzero) = digits_info(input, dot + 1, slen);
    proof {
        assert(input@.subrange(dot + 1, slen as int) =~= fracd);
    }
    if !frac_ok {
        return false;
    }
    if st == dot && dot + 1 == slen {
        return false;
    }
    proof {
        lemma_dv_bounds(intd);
        lemma_dv_bounds(fracd);
    }
    int_nonzero || frac_nonzero
}

/// The fractional digits that enter the byte count: everything past the
/// 27th digit lies below one byte and is passed over.
pub open spec fn spec_frac_digits_used(fracd: Seq<char>) -> Seq<char> {
    if fracd.len() <= 27 {
        fracd
    } else {
        fracd.take(27)
    }
}

/// Byte count of a size entry of `v` GiB: the integer part of `v * 2^30`,
/// computed from the integer digits and the used fractional digits.
pub open spec fn spec_gib_bytes(intd: Seq<char>, fracd: Seq<char>) -> int {
    let f = spec_frac_digits_used(fracd);
    digits_val(intd) * 0x40000000 + (digits_val(f) * 0x40000000) / pow10(f.len() as int)
}

fn digit_of(c: char) -> (r: u64)
    requires
        is_digit(c),
    ensures
        r == digit_val(c),
{
    if c == '0' {
        0
    } else if c == '1' {
        1
    } else if c == '2' {
        2
    } else if c == '3' {
        3
    } else if c == '4' {
        4
    } else if c == '5' {
        5
    } else if c == '6' {
        6
    } else if c == '7' {
        7
    } else if c == '8' {
        8
    } else {
        9
    }
}

/// Value of the digits in `[from, to)`, unless it exceeds `cap`.
fn dv_range_capped(s: &str, from: usize, to: usize, cap: u128) -> (r: Option<u128>)
    requires
        from <= to <= s@.len(),
        all_digits(s@.subrange(from as int, to as int)),
        cap <= 0xffff_ffff_ffff_ffff_ffff_ffff,
    ensures
        match r {
            Some(v) => v == digits_val(s@.subrange(from as int, to as int)) && v <= cap,
            None => digits_val(s@.subrange(from as int, to as int)) > cap,
        },
{
    let ghost w = s@.subrange(from as int, to as int);
    let mut v: u128 = 0;
    let mut k: usize = from;
    proof {
        assert(w.take(0) =~= Seq::<char>::empty());
    }
    while k < to
        invariant
            from <= k <= to <= s@.len(),
            w == s@.subrange(from as int, to as int),
            all_digits(w),
            cap <= 0xffff_ffff_ffff_ffff_ffff_ffff,
            v == digits_val(w.take(k - from)),
            v <= cap,
        decreases to - k,
    {
        let c = s.get_char(k);
        proof {
            assert(w[k - from] == s@[k as int]);
        }
        let d = digit_of(c);
        proof {
            assert(w.take(k - from + 1).drop_last() =~= w.take(k - from));
            assert(w.take(k - from + 1).last() == w[k - from]);
        }
        v = v * 10 + (d as u128);
        if v > cap {
            proof {
                lemma_dv_prefix_mono(w, k - from + 1);
            }
            return None;
        }
        k += 1;
    }
    proof {
        assert(w.take(to - from) =~= w);
    }
    Some(v)
}

fn pow10_u128(k: usize) -> (r: u128)
    requires
        k <= 27,
    ensures
        r == pow10(k as int),
        r >= 1,
{
    let mut r: u128 = 1;
    let mut i: usize = 0;
    while i < k
        invariant
            i <= k <= 27,
            r == pow10(i as int),
            r >= 1,
        decreases k - i,
    {
        proof {
            lemma_pow10_pos(i as int);
            lemma_pow10_le_27(i as int + 1);
        }
        r = r * 10;
        i += 1;
    }
    r
}

proof fn lemma_pow10_mono(a: int, b: int)
    requires
        a <= b,
    ensures
        pow10(a) <= pow10(b),
    decreases b - a,
{
    if a < b {
        lemma_pow10_mono(a, b - 1);
        if b > 0 {
            lemma_pow10_pos(b - 1);
        }
    }
}

proof fn lemma_pow10_le_27(k: int)
    requires
        k <= 27,
    ensures
        pow10(k) <= 0x33b2_e3c9_fd08_03ce_8000_000,
{
    lemma_pow10_mono(k, 27);
    assert(pow10(0) == 1);
    assert(pow10(1) == 10);
    assert(pow10(2) == 100);
    assert(pow10(3) == 1000);
    assert(pow10(4) == 10000);
    assert(pow10(5) == 100000);
    assert(pow10(6) == 1000000);
    assert(pow10(7) == 10000000);
    assert(pow10(8) == 100000000);
    assert(pow10(9) == 1000000000);
    assert(pow10(10) == 10000000000);
    assert(pow10(11) == 100000000000);
    assert(pow10(12) == 1000000000000);
    assert(pow10(13) == 10000000000000);
    assert(pow10(14) == 100000000000000);
    assert(pow10(15) == 1000000000000000);
    assert(pow10(16) == 10000000000000000);
    assert(pow10(17) == 100000000000000000);
    assert(pow10(18) == 1000000000000000000);
    assert(pow10(19) == 10000000000000000000);
    assert(pow10(20) == 100000000000000000000);
    assert(pow10(21) == 1000000000000000000000);
    assert(pow10(22) == 10000000000000000000000);
    assert(pow10(23) == 100000000000000000000000);
    assert(pow10(24) == 1000000000000000000000000);
    assert(pow10(25) == 10000000000000000000000000);
    assert(pow10(26) == 100000000000000000000000000);
    assert(pow10(27) == 1000000000000000000000000000);
}

/// The byte count for a size entry, if the entry is a decimal number and
/// the count fits in an unsigned 64-bit quantity.
pub fn image_size_bytes(input: &str) -> (r: Option<u64>)
    ensures
        match spec_decimal_parts(input@) {
            None => r is None,
            Some((intd, fracd)) => if spec_gib_bytes(intd, fracd) <= u64::MAX {
                r == Some(spec_gib_bytes(intd, fracd) as u64)
            } else {
                r is None
            },
        },
        spec_decimal_parts(input@) matches Some((intd, fracd)) ==> spec_gib_bytes(intd, fracd)
            >= 0,
{
    let slen = input.unicode_len();
    let st: usize = if slen > 0 && input.get_char(0) == '+' {
        1
    } else {
        0
    };
    let ghost b = if st == 1 {
        input@.skip(1)
    } else {
        input@
    };
    proof {
        if st == 0 {
            assert(input@.skip(0) =~= input@);
        }
    }
    let dot = match find_char_from(input, st, '.') {
        Some(p) => p,
        None => slen,
    };
    proof {
        assert forall|k: int| 0 <= k < dot - st implies b[k] != '.' by {
            assert(b[k] == input@[st + k]);
        }
        assert(dot - st < b.len() ==> b[dot - st] == '.') by {
            if dot - st < b.len() {
                assert(b[dot - st] == input@[dot as int]);
            }
        }
        lemma_scan_to_determined(b, '.', dot - st);
    }
    let ghost intd = b.take(dot - st);
    let ghost fracd = if dot < slen {
        b.skip(dot - st + 1)
    } else {
        Seq::<char>::empty()
    };
    let (int_ok, _) = digits_info(input, st, dot);
    proof {
        assert(input@.subrange(st as int, dot as int) =~= intd);
        if dot == slen {
            assert(intd =~= b);
        }
    }
    if !int_ok {
        return None;
    }
    if dot == slen && st == slen {
        return None;
    }
    if dot < slen {
        let (frac_ok, _) = digits_info(input, dot + 1, slen);
        proof {
            assert(input@.subrange(dot + 1, slen as int) =~= fracd);
        }
        if !frac_ok {
            return None;
        }
        if st == dot && dot + 1 == slen {
            return None;
        }
    }
    // the entry is a decimal number: compute its byte count
    let gib: u128 = 0x40000000;
    let vi = match dv_range_capped(input, st, dot, 0x4_0000_0000) {
        Some(v) => v,
        None => {
            // the integer part alone already puts the count past 64 bits
            proof {
                lemma_gib_bytes_nonneg(intd, fracd);
                lemma_frac_part_nonneg(fracd);
                assert(digits_val(intd) * 0x40000000 >= 0x4_0000_0001 * 0x40000000)
                    by (nonlinear_arith)
                    requires
                        digits_val(intd) >= 0x4_0000_0001,
                ;
            }
            return None;
        },
    };
    let flen = if dot < slen {
        slen - (dot + 1)
    } else {
        0
    };
    let used: usize = if flen <= 27 {
        flen
    } else {
        27
    };
    let ghost f = spec_frac_digits_used(fracd);
    proof {
        if dot < slen {
            assert(input@.subrange(dot + 1, dot + 1 + used as int) =~= f);
            assert(all_digits(f)) by {
                assert(forall|i: int| 0 <= i < f.len() ==> f[i] == fracd[i]);
            }
        } else {
            assert(f =~= Seq::<char>::empty());
            assert(input@.subrange(slen as int, slen as int) =~= f);
        }
        lemma_dv_bounds(f);
        lemma_pow10_le_27(used as int);
    }
    let vf = match dv_range_capped(input, if dot < slen {
        dot + 1
    } else {
        slen
    }, if dot < slen {
        dot + 1 + used
    } else {
        slen
    }, 0x33b2_e3c9_fd08_03ce_8000_000) {
        Some(v) => v,
        None => {
            proof {
                assert(false);
            }
            return None;
        },
    };
    let pw = pow10_u128(used);
    proof {
        lemma_gib_bytes_nonneg(intd, fracd);
        assert(pw as int == pow10(f.len() as int));
        assert(vi * gib <= 0x4_0000_0000 * 0x40000000) by (nonlinear_arith)
            requires
                vi <= 0x4_0000_0000,
                gib == 0x40000000,
        ;
        assert(vf * gib <= 0x33b2_e3c9_fd08_03ce_8000_000 * 0x40000000) by (nonlinear_arith)
            requires
                vf <= 0x33b2_e3c9_fd08_03ce_8000_000,
                gib == 0x40000000,
        ;
        assert(vf as int * gib as int >= 0) by (nonlinear_arith)
            requires
                vf as int >= 0,
                gib as int >= 0,
        ;
        assert((vf as int * gib as int) / (pw as int) <= vf as int * gib as int) by {
            vstd::arithmetic::div_mod::lemma_div_nonincreasing(vf as int * gib as int, pw as int);
        }
        assert((vf as int * gib as int) / (pw as int) >= 0) by {
            vstd::arithmetic::div_mod::lemma_div_pos_is_pos(vf as int * gib as int, pw as int);
        }
    }
    let frac_bytes: u128 = (vf * gib) / pw;
    let bytes: u128 = vi * gib + frac_bytes;
    if bytes > 0xffff_ffff_ffff_ffff {
        None
    } else {
        Some(bytes as u64)
    }
}

/// A menu selection entry: a plain digit string whose value fits 64 bits.
pub open spec fn spec_index_valid(s: Seq<char>) -> bool {
    s.len() > 0 && all_digits(s) && digits_val(s) <= u64::MAX
}

/// Read a selection entry as a number; anything but a plain digit string
/// with a value that fits 64 bits is refused.
pub fn parse_index(s: &str) -> (r: Option<u64>)
    ensures
        r is Some <==> spec_index_valid(s@),
        r is Some ==> r->0 == digits_val(s@),
{
    let slen = s.unicode_len();
    if slen == 0 {
        return None;
    }
    let (ok, _) = digits_info(s, 0, slen);
    proof {
        assert(s@.subrange(0, slen as int) =~= s@);
    }
    if !ok {
        return None;
    }
    match dv_range_capped(s, 0, slen, 0xffff_ffff_ffff_ffff) {
        None => None,
        Some(v) => Some(v as u64),
    }
}

/// The byte count of a decimal entry is non-negative.
proof fn lemma_gib_bytes_nonneg(intd: Seq<char>, fracd: Seq<char>)
    requires
        all_digits(intd),
        all_digits(fracd),
    ensures
        spec_gib_bytes(intd, fracd) >= 0,
{
    lemma_dv_bounds(intd);
    lemma_frac_part_nonneg(fracd);
    assert(digits_val(intd) * 0x40000000 >= 0) by (nonlinear_arith)
        requires
            digits_val(intd) >= 0,
    ;
}

/// The fractional contribution to the byte count is non-negative.
proof fn lemma_frac_part_nonneg(fracd: Seq<char>)
    requires
        all_digits(fracd),
    ensures
        (digits_val(spec_frac_digits_used(fracd)) * 0x40000000) / pow10(
            spec_frac_digits_used(fracd).len() as int,
        ) >= 0,
{
    let f = spec_frac_digits_used(fracd);
    assert(all_digits(f)) by {
        assert(forall|i: int| 0 <= i < f.len() ==> f[i] == fracd[i]);
    }
    lemma_dv_bounds(f);
    lemma_pow10_pos(f.len() as int);
    assert(digits_val(f) * 0x40000000 >= 0) by (nonlinear_arith)
        requires
            digits_val(f) >= 0,
    ;
    vstd::arithmetic::div_mod::lemma_div_pos_is_pos(digits_val(f) * 0x40000000, pow10(
        f.len() as int,
    ));
}

} // verus!

