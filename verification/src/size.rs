//! Human-readable byte sizes, rendered exactly as `format!` renders the
//! `f64` quotient with one, two or no fractional digits.
use vstd::prelude::*;
use crate::text::{all_digits, decimal, digits_value, lemma_decimal_reads_back, lemma_zero_padded_reads_back, pad_left, push_decimal, push_decimal_zero_padded, push_str};

verus! {

pub const KIB: u64 = 1024;
pub const MIB: u64 = 1048576;
pub const GIB: u64 = 1073741824;

/// Distance between neighbouring `f64` values around `b`: 1 below 2^53,
/// doubling with every binade above.
pub open spec fn f64_spacing(b: nat) -> nat
    decreases b,
{
    if b < 0x20_0000_0000_0000 {
        1
    } else {
        2 * f64_spacing(b / 2)
    }
}

/// `n / d` rounded to the nearest integer, ties to the even neighbour.
pub open spec fn round_half_even(n: nat, d: nat) -> nat
    recommends
        d > 0,
{
    let q = n / d;
    let r = n % d;
    if 2 * r > d || (2 * r == d && q % 2 == 1) {
        q + 1
    } else {
        q
    }
}

/// The integer value of `b as f64` (round to nearest, ties to even).
pub open spec fn as_f64(b: nat) -> nat {
    round_half_even(b, f64_spacing(b)) * f64_spacing(b)
}

pub open spec fn pow10(k: nat) -> nat
    decreases k,
{
    if k == 0 { 1 } else { 10 * pow10((k - 1) as nat) }
}

/// `n / d` printed with `k` fractional digits, rounded half to even, the way
/// `format!("{:.k$}")` prints an exactly representable quotient.
pub open spec fn fixed_point(n: nat, d: nat, k: nat) -> Seq<char> {
    let r = round_half_even(n, d);
    if k == 0 {
        decimal(r)
    } else {
        decimal(r / pow10(k)) + seq!['.'] + pad_left(decimal(r % pow10(k)), k, '0')
    }
}

/// What the Recent panel and the upload gauge show for a byte count.
pub open spec fn size_text(bytes: nat) -> Seq<char> {
    if bytes >= GIB {
        fixed_point(as_f64(bytes) * 100, GIB as nat, 2) + " GB"@
    } else if bytes >= MIB {
        fixed_point(bytes * 10, MIB as nat, 1) + " MB"@
    } else if bytes >= KIB {
        fixed_point(bytes, KIB as nat, 0) + " KB"@
    } else {
        decimal(bytes) + " B"@
    }
}

pub fn round_half_even_div(n: u128, d: u128) -> (r: u128)
    requires
        d > 0,
    ensures
        r == round_half_even(n as nat, d as nat),
        r <= n / d + 1,
{
    let q = n / d;
    let rem = n % d;
    assert(rem < d);
    if rem > d - rem || (rem == d - rem && q % 2 == 1) {
        assert(q <= n) by (nonlinear_arith)
            requires q == n / d, d > 0;
        assert(q < u128::MAX) by (nonlinear_arith)
            requires q == n / d, d > 0, rem == n % d, rem > 0 || d > 1, n <= u128::MAX;
        q + 1
    } else {
        q
    }
}

proof fn lemma_spacing_bounds(b: nat)
    ensures
        f64_spacing(b) >= 1,
        f64_spacing(b) <= b + 1,
        b >= 1 ==> f64_spacing(b) <= b,
        b < 0x20_0000_0000_0000 ==> f64_spacing(b) == 1,
    decreases b,
{
    if b >= 0x20_0000_0000_0000 {
        lemma_spacing_bounds(b / 2);
    }
}

/// `b as f64`, as an exact integer.
pub fn f64_of(b: u64) -> (r: u128)
    ensures
        r == as_f64(b as nat),
        r <= b as nat + f64_spacing(b as nat),
{
    let mut u: u128 = 1;
    let mut t: u64 = b;
    while t >= 0x20_0000_0000_0000
        invariant
            f64_spacing(b as nat) == u * f64_spacing(t as nat),
            1 <= u,
            u * t <= b,
            u == 1 || u <= b,
        decreases t,
    {
        assert(u <= b) by (nonlinear_arith)
            requires u * t <= b, t >= 0x20_0000_0000_0000, u >= 1;
        let ghost old_t = t;
        let ghost old_u = u;
        t = t / 2;
        u = u * 2;
        proof {
            assert(f64_spacing(old_t as nat) == 2 * f64_spacing(t as nat));
            assert(old_u * (2 * f64_spacing(t as nat)) == (old_u * 2) * f64_spacing(t as nat))
                by (nonlinear_arith);
            assert(old_u * 2 <= b) by (nonlinear_arith)
                requires old_u * old_t <= b, old_t >= 0x20_0000_0000_0000, old_u >= 1;
            assert(u * t <= old_u * old_t) by (nonlinear_arith)
                requires u == old_u * 2, t == old_t / 2, old_u >= 1;
        }
    }
    proof {
        lemma_spacing_bounds(t as nat);
    }
    assert(u == f64_spacing(b as nat));
    let q = round_half_even_div(b as u128, u);
    proof {
        assert((b as u128 / u) * u <= b) by (nonlinear_arith)
            requires u >= 1;
        assert(q * u <= (b as u128 / u) * u + u) by (nonlinear_arith)
            requires q <= b as u128 / u + 1, u >= 1;
    }
    q * u
}

/// Renders `r` as an integer part, a dot and `k` zero-padded fractional
/// digits (or just the integer when `k` is 0).
fn push_fixed(s: &mut String, r: u128, k: u32, scale: u128)
    requires
        scale == pow10(k as nat),
        scale > 0,
    ensures
        final(s)@ == old(s)@ + (if k == 0 {
            decimal(r as nat)
        } else {
            decimal((r / scale) as nat) + seq!['.'] + pad_left(decimal((r % scale) as nat), k as nat, '0')
        }),
{
    if k == 0 {
        push_decimal(s, r);
    } else {
        push_decimal(s, r / scale);
        crate::text::push_char(s, '.');
        push_decimal_zero_padded(s, r % scale, k as usize);
    }
    assert(final(s)@ =~= old(s)@ + (if k == 0 {
            decimal(r as nat)
        } else {
            decimal((r / scale) as nat) + seq!['.'] + pad_left(decimal((r % scale) as nat), k as nat, '0')
        }));
}

/// "1.5 MB", "12 KB", "512 B", "2.00 GB" — the size label used by the
/// Recent panel and the upload gauge.
pub fn format_size(bytes: u64) -> (r: String)
    ensures
        r@ == size_text(bytes as nat),
{
    let mut s = String::new();
    if bytes >= GIB {
        let fb = f64_of(bytes);
        proof {
            lemma_spacing_bounds(bytes as nat);
        }
        let q = round_half_even_div(fb * 100, GIB as u128);
        assert(pow10(0) == 1);
        assert(pow10(1) == 10);
        assert(pow10(2) == 100);
        push_fixed(&mut s, q, 2, 100);
        push_str(&mut s, " GB");
    } else if bytes >= MIB {
        let q = round_half_even_div(bytes as u128 * 10, MIB as u128);
        assert(pow10(0) == 1);
        assert(pow10(1) == 10);
        push_fixed(&mut s, q, 1, 10);
        push_str(&mut s, " MB");
    } else if bytes >= KIB {
        let q = round_half_even_div(bytes as u128, KIB as u128);
        push_fixed(&mut s, q, 0, 1);
        push_str(&mut s, " KB");
    } else {
        push_decimal(&mut s, bytes as u128);
        push_str(&mut s, " B");
    }
    assert(s@ =~= size_text(bytes as nat));
    s
}

/// How far apart two integers are.
pub open spec fn distance(a: int, b: int) -> int {
    if a >= b { a - b } else { b - a }
}

/// Rounding `n / d` lands within half a step of the exact quotient.
pub proof fn lemma_round_half_even_close(n: nat, d: nat)
    requires
        d > 0,
    ensures
        2 * distance((round_half_even(n, d) * d) as int, n as int) <= d,
{
    let q = n / d;
    let rem = n % d;
    vstd::arithmetic::div_mod::lemma_fundamental_div_mod(n as int, d as int);
    assert((q + 1) * d == q * d + d) by (nonlinear_arith);
    assert(q * d == d * q) by (nonlinear_arith);
}

/// `fixed_point(n, d, k)` with `k` of 1 or 2 is the integer digits, a dot
/// and exactly `k` fractional digits, which together read as the rounded
/// quotient scaled by `10^k`.
pub proof fn lemma_fixed_point_reads_back(n: nat, d: nat, k: nat)
    requires
        d > 0,
        k == 1 || k == 2,
    ensures
        ({
            let t = fixed_point(n, d, k);
            let m = t.len() as int;
            &&& m >= k + 2
            &&& t[m - k - 1] == '.'
            &&& all_digits(t.subrange(0, m - k - 1))
            &&& all_digits(t.subrange(m - k, m))
            &&& digits_value(t.subrange(0, m - k - 1)) * pow10(k) + digits_value(t.subrange(m - k, m))
                == round_half_even(n, d)
        }),
{
    let r = round_half_even(n, d);
    assert(pow10(0) == 1);
    assert(pow10(1) == 10);
    assert(pow10(2) == 100);
    let i = decimal(r / pow10(k));
    let f = pad_left(decimal(r % pow10(k)), k, '0');
    lemma_decimal_reads_back(r / pow10(k));
    lemma_zero_padded_reads_back(r % pow10(k), k);
    lemma_decimal_reads_back(r % pow10(k));
    assert(f.len() == k);
    let t = fixed_point(n, d, k);
    let m = t.len() as int;
    assert(t =~= i + seq!['.'] + f);
    assert(t.subrange(0, m - k - 1) =~= i);
    assert(t.subrange(m - k, m) =~= f);
    vstd::arithmetic::div_mod::lemma_fundamental_div_mod(r as int, pow10(k) as int);
    assert((r / pow10(k)) * pow10(k) == pow10(k) * (r / pow10(k))) by (nonlinear_arith);
}

/// Below 2^53 bytes the count converts to `f64` exactly.
pub proof fn lemma_as_f64_exact(b: nat)
    requires
        b < 0x20_0000_0000_0000,
    ensures
        as_f64(b) == b,
{
    assert(f64_spacing(b) == 1);
    assert(round_half_even(b, 1) == b) by {
        vstd::arithmetic::div_mod::lemma_fundamental_div_mod(b as int, 1);
    }
}

/// The label of a count of at least 1 GiB.
pub open spec fn reads_as_gib(s: Seq<char>, bytes: nat) -> bool {
    let n = s.len() as int;
    &&& n >= 7
    &&& s.subrange(n - 3, n) == " GB"@
    &&& s[n - 6] == '.'
    &&& all_digits(s.subrange(0, n - 6))
    &&& all_digits(s.subrange(n - 5, n - 3))
    &&& 2 * distance(
        (digits_value(s.subrange(0, n - 6)) * 100 + digits_value(s.subrange(n - 5, n - 3))) * GIB,
        (as_f64(bytes) * 100) as int,
    ) <= GIB
}

/// The label of a count from 1 MiB up to 1 GiB.
pub open spec fn reads_as_mib(s: Seq<char>, bytes: nat) -> bool {
    let n = s.len() as int;
    &&& n >= 6
    &&& s.subrange(n - 3, n) == " MB"@
    &&& s[n - 5] == '.'
    &&& all_digits(s.subrange(0, n - 5))
    &&& all_digits(s.subrange(n - 4, n - 3))
    &&& 2 * distance(
        (digits_value(s.subrange(0, n - 5)) * 10 + digits_value(s.subrange(n - 4, n - 3))) * MIB,
        (bytes * 10) as int,
    ) <= MIB
}

/// The label of a count from 1 KiB up to 1 MiB.
pub open spec fn reads_as_kib(s: Seq<char>, bytes: nat) -> bool {
    let n = s.len() as int;
    &&& n >= 4
    &&& s.subrange(n - 3, n) == " KB"@
    &&& all_digits(s.subrange(0, n - 3))
    &&& 2 * distance(digits_value(s.subrange(0, n - 3)) * KIB, bytes as int) <= KIB
}

/// The label of a count below 1 KiB.
pub open spec fn reads_as_bytes(s: Seq<char>, bytes: nat) -> bool {
    let n = s.len() as int;
    &&& n >= 3
    &&& s.subrange(n - 2, n) == " B"@
    &&& all_digits(s.subrange(0, n - 2))
    &&& digits_value(s.subrange(0, n - 2)) == bytes
}

proof fn lemma_gib_label(bytes: nat)
    requires
        bytes >= GIB,
    ensures
        reads_as_gib(size_text(bytes), bytes),
{
    reveal_strlit(" GB");
    let s = size_text(bytes);
    let n = s.len() as int;
    let t = fixed_point(as_f64(bytes) * 100, GIB as nat, 2);
    lemma_fixed_point_reads_back(as_f64(bytes) * 100, GIB as nat, 2);
    lemma_round_half_even_close(as_f64(bytes) * 100, GIB as nat);
    assert(pow10(0) == 1);
    assert(pow10(1) == 10);
    assert(pow10(2) == 100);
    let m = t.len() as int;
    assert(s =~= t + " GB"@);
    assert(s.subrange(0, n - 6) =~= t.subrange(0, m - 3));
    assert(s.subrange(n - 5, n - 3) =~= t.subrange(m - 2, m));
    assert(s.subrange(n - 3, n) =~= " GB"@);
}

proof fn lemma_mib_label(bytes: nat)
    requires
        MIB <= bytes < GIB,
    ensures
        reads_as_mib(size_text(bytes), bytes),
{
    reveal_strlit(" MB");
    let s = size_text(bytes);
    let n = s.len() as int;
    let t = fixed_point(bytes * 10, MIB as nat, 1);
    lemma_fixed_point_reads_back(bytes * 10, MIB as nat, 1);
    lemma_round_half_even_close(bytes * 10, MIB as nat);
    assert(pow10(0) == 1);
    assert(pow10(1) == 10);
    let m = t.len() as int;
    assert(s =~= t + " MB"@);
    assert(s.subrange(0, n - 5) =~= t.subrange(0, m - 2));
    assert(s.subrange(n - 4, n - 3) =~= t.subrange(m - 1, m));
    assert(s.subrange(n - 3, n) =~= " MB"@);
}

proof fn lemma_kib_label(bytes: nat)
    requires
        KIB <= bytes < MIB,
    ensures
        reads_as_kib(size_text(bytes), bytes),
{
    reveal_strlit(" KB");
    let s = size_text(bytes);
    let n = s.len() as int;
    let t = fixed_point(bytes, KIB as nat, 0);
    lemma_decimal_reads_back(round_half_even(bytes, KIB as nat));
    lemma_round_half_even_close(bytes, KIB as nat);
    assert(s =~= t + " KB"@);
    assert(s.subrange(0, n - 3) =~= t);
    assert(s.subrange(n - 3, n) =~= " KB"@);
}

proof fn lemma_bytes_label(bytes: nat)
    requires
        bytes < KIB,
    ensures
        reads_as_bytes(size_text(bytes), bytes),
{
    reveal_strlit(" B");
    let s = size_text(bytes);
    let n = s.len() as int;
    lemma_decimal_reads_back(bytes);
    assert(s =~= decimal(bytes) + " B"@);
    assert(s.subrange(0, n - 2) =~= decimal(bytes));
    assert(s.subrange(n - 2, n) =~= " B"@);
}

/// The size label names the unit that fits the count and shows it to
/// within half of its last digit: plain bytes below 1 KiB; whole KiB up to
/// 1 MiB; MiB with one decimal up to 1 GiB; GiB with two decimals above
/// (of the count as an `f64`, which is the count itself below 2^53).
pub proof fn size_text_reads_back(bytes: nat)
    ensures
        bytes < KIB ==> reads_as_bytes(size_text(bytes), bytes),
        KIB <= bytes < MIB ==> reads_as_kib(size_text(bytes), bytes),
        MIB <= bytes < GIB ==> reads_as_mib(size_text(bytes), bytes),
        GIB <= bytes ==> reads_as_gib(size_text(bytes), bytes),
        bytes < 0x20_0000_0000_0000 ==> as_f64(bytes) == bytes,
{
    if bytes >= GIB {
        lemma_gib_label(bytes);
    } else if bytes >= MIB {
        lemma_mib_label(bytes);
    } else if bytes >= KIB {
        lemma_kib_label(bytes);
    } else {
        lemma_bytes_label(bytes);
    }
    if bytes < 0x20_0000_0000_0000 {
        lemma_as_f64_exact(bytes);
    }
}

} // verus!
