//! Decimal rendering and padding helpers shared by every formatter.
use vstd::prelude::*;

verus! {

/// The character for a single decimal digit.
pub open spec fn digit_char(d: nat) -> char {
    if d == 0 { '0' }
    else if d == 1 { '1' }
    else if d == 2 { '2' }
    else if d == 3 { '3' }
    else if d == 4 { '4' }
    else if d == 5 { '5' }
    else if d == 6 { '6' }
    else if d == 7 { '7' }
    else if d == 8 { '8' }
    else { '9' }
}

/// Base-10 rendering of a natural number, most significant digit first,
/// without leading zeros (`0` renders as `"0"`).
pub open spec fn decimal(n: nat) -> Seq<char>
    decreases n,
{
    if n < 10 {
        seq![digit_char(n)]
    } else {
        decimal(n / 10).push(digit_char(n % 10))
    }
}

/// `count` copies of `c`.
pub open spec fn repeat(c: char, count: nat) -> Seq<char> {
    Seq::new(count, |_i: int| c)
}

/// `s` right-aligned in a field of `width` characters filled with `fill`
/// (what `format!("{:>width$}")` produces; longer input is kept whole).
pub open spec fn pad_left(s: Seq<char>, width: nat, fill: char) -> Seq<char> {
    if s.len() >= width {
        s
    } else {
        repeat(fill, (width - s.len()) as nat) + s
    }
}

/// `s` left-aligned in a field of `width` characters filled with spaces
/// (what `format!("{:<width$}")` produces).
pub open spec fn pad_right(s: Seq<char>, width: nat) -> Seq<char> {
    if s.len() >= width {
        s
    } else {
        s + repeat(' ', (width - s.len()) as nat)
    }
}

/// Appends one character to a string.
///
/// Trusted: `String::push` appends the character at the end of the string,
/// as std documents; nothing else is claimed.
#[verifier::external_body]
pub(crate) fn push_char(s: &mut String, c: char)
    ensures
        final(s)@ == old(s)@.push(c),
{
    s.push(c);
}

/// Appends a string slice.
pub fn push_str(s: &mut String, t: &str)
    ensures
        final(s)@ == old(s)@ + t@,
{
    s.append(t);
}

pub fn digit(d: u128) -> (c: char)
    requires
        d < 10,
    ensures
        c == digit_char(d as nat),
{
    if d == 0 { '0' }
    else if d == 1 { '1' }
    else if d == 2 { '2' }
    else if d == 3 { '3' }
    else if d == 4 { '4' }
    else if d == 5 { '5' }
    else if d == 6 { '6' }
    else if d == 7 { '7' }
    else if d == 8 { '8' }
    else { '9' }
}

/// Appends the decimal rendering of `n`.
pub fn push_decimal(s: &mut String, n: u128)
    ensures
        final(s)@ == old(s)@ + decimal(n as nat),
    decreases n,
{
    if n >= 10 {
        push_decimal(s, n / 10);
    }
    let c = digit(n % 10);
    push_char(s, c);
    proof {
        if n >= 10 {
            assert(decimal(n as nat) == decimal((n / 10) as nat).push(digit_char((n % 10) as nat)));
        }
    }
    assert(final(s)@ =~= old(s)@ + decimal(n as nat));
}

/// Appends `count` copies of `c`.
pub fn push_repeat(s: &mut String, c: char, count: usize)
    ensures
        final(s)@ == old(s)@ + repeat(c, count as nat),
{
    let mut i: usize = 0;
    while i < count
        invariant
            i <= count,
            s@ == old(s)@ + repeat(c, i as nat),
        decreases count - i,
    {
        push_char(s, c);
        i = i + 1;
        assert(s@ =~= old(s)@ + repeat(c, i as nat));
    }
}

/// The decimal rendering of `n` as a fresh string.
pub fn decimal_string(n: u128) -> (r: String)
    ensures
        r@ == decimal(n as nat),
{
    let mut s = String::new();
    push_decimal(&mut s, n);
    assert(s@ =~= decimal(n as nat));
    s
}

/// Appends `t` right-aligned in a field of `width` characters.
pub fn push_padded_left(s: &mut String, t: &str, width: usize, fill: char)
    ensures
        final(s)@ == old(s)@ + pad_left(t@, width as nat, fill),
{
    let len = t.unicode_len();
    if len < width {
        push_repeat(s, fill, width - len);
    }
    push_str(s, t);
    assert(final(s)@ =~= old(s)@ + pad_left(t@, width as nat, fill));
}

/// Appends `t` left-aligned in a field of `width` characters.
pub fn push_padded_right(s: &mut String, t: &str, width: usize)
    ensures
        final(s)@ == old(s)@ + pad_right(t@, width as nat),
{
    let len = t.unicode_len();
    push_str(s, t);
    if len < width {
        push_repeat(s, ' ', width - len);
    }
    assert(final(s)@ =~= old(s)@ + pad_right(t@, width as nat));
}

/// Appends the decimal rendering of `n`, zero-padded to `width` digits
/// (what `format!("{n:0width$}")` produces).
pub fn push_decimal_zero_padded(s: &mut String, n: u128, width: usize)
    ensures
        final(s)@ == old(s)@ + pad_left(decimal(n as nat), width as nat, '0'),
{
    let d = decimal_string(n);
    push_padded_left(s, d.as_str(), width, '0');
}


/// True when `s` ends with `suffix`.
pub open spec fn has_suffix(s: Seq<char>, suffix: Seq<char>) -> bool {
    suffix.len() <= s.len() && s.subrange(s.len() - suffix.len(), s.len() as int) == suffix
}

/// The characters of `s`, in order.
pub fn chars_of(s: &str) -> (v: Vec<char>)
    ensures
        v@ == s@,
{
    let n = s.unicode_len();
    let mut v: Vec<char> = Vec::new();
    let mut i: usize = 0;
    while i < n
        invariant
            n == s@.len(),
            i <= n,
            v@ == s@.subrange(0, i as int),
        decreases n - i,
    {
        let c = s.get_char(i);
        v.push(c);
        i = i + 1;
        assert(v@ =~= s@.subrange(0, i as int));
    }
    assert(v@ =~= s@);
    v
}

/// A string holding the first `len` characters of `v`.
pub fn string_of_prefix(v: &Vec<char>, len: usize) -> (r: String)
    requires
        len <= v@.len(),
    ensures
        r@ == v@.subrange(0, len as int),
{
    let mut r = String::new();
    let mut i: usize = 0;
    while i < len
        invariant
            len <= v@.len(),
            i <= len,
            r@ == v@.subrange(0, i as int),
        decreases len - i,
    {
        push_char(&mut r, v[i]);
        i = i + 1;
        assert(r@ =~= v@.subrange(0, i as int));
    }
    r
}

/// Whether the character sequence `v` ends with the characters of `suffix`.
pub fn chars_end_with(v: &Vec<char>, len: usize, suffix: &Vec<char>) -> (r: bool)
    requires
        len <= v@.len(),
    ensures
        r == has_suffix(v@.subrange(0, len as int), suffix@),
{
    let n = suffix.len();
    if n > len {
        return false;
    }
    let start = len - n;
    let mut i: usize = 0;
    while i < n
        invariant
            n == suffix@.len(),
            start + n == len,
            len <= v@.len(),
            i <= n,
            forall|j: int| 0 <= j < i ==> v@[start + j] == suffix@[j],
        decreases n - i,
    {
        if v[start + i] != suffix[i] {
            assert(v@.subrange(0, len as int).subrange(start as int, len as int)[i as int] != suffix@[i as int]);
            return false;
        }
        i = i + 1;
    }
    assert(v@.subrange(0, len as int).subrange(start as int, len as int) =~= suffix@);
    true
}

/// Whether `s` ends with `suffix`.
pub fn ends_with(s: &str, suffix: &str) -> (r: bool)
    ensures
        r == has_suffix(s@, suffix@),
{
    let v = chars_of(s);
    let w = chars_of(suffix);
    assert(v@.subrange(0, v@.len() as int) =~= v@);
    chars_end_with(&v, v.len(), &w)
}

/// `s` with every trailing repetition of `suffix` removed, as
/// `str::trim_end_matches` does for a non-empty string pattern.
pub open spec fn trim_end_all(s: Seq<char>, suffix: Seq<char>) -> Seq<char>
    decreases s.len(),
{
    if suffix.len() > 0 && has_suffix(s, suffix) {
        trim_end_all(s.subrange(0, s.len() - suffix.len()), suffix)
    } else {
        s
    }
}

/// `s.trim_end_matches(suffix)`.
pub fn trim_end_matches(s: &str, suffix: &str) -> (r: String)
    ensures
        r@ == trim_end_all(s@, suffix@),
{
    let v = chars_of(s);
    let w = chars_of(suffix);
    let mut len = v.len();
    assert(v@.subrange(0, v@.len() as int) =~= v@);
    if w.len() > 0 {
        while chars_end_with(&v, len, &w)
            invariant
                len <= v@.len(),
                w@.len() > 0,
                w@ == suffix@,
                v@ == s@,
                trim_end_all(v@.subrange(0, len as int), w@) == trim_end_all(s@, suffix@),
            decreases len,
        {
            let ghost before = v@.subrange(0, len as int);
            len = len - w.len();
            assert(before.subrange(0, before.len() - w@.len()) =~= v@.subrange(0, len as int));
        }
    }
    assert(v@.subrange(0, v@.len() as int) =~= v@);
    string_of_prefix(&v, len)
}

/// True when `s` starts with `prefix`.
pub open spec fn has_prefix(s: Seq<char>, prefix: Seq<char>) -> bool {
    prefix.len() <= s.len() && s.subrange(0, prefix.len() as int) == prefix
}

/// Whether `s` starts with `prefix`.
pub fn starts_with(s: &str, prefix: &str) -> (r: bool)
    ensures
        r == has_prefix(s@, prefix@),
{
    let v = chars_of(s);
    let w = chars_of(prefix);
    if w.len() > v.len() {
        return false;
    }
    let mut i: usize = 0;
    while i < w.len()
        invariant
            v@ == s@,
            w@ == prefix@,
            w@.len() <= v@.len(),
            i <= w@.len(),
            forall|j: int| 0 <= j < i ==> v@[j] == w@[j],
        decreases w@.len() - i,
    {
        if v[i] != w[i] {
            assert(v@.subrange(0, w@.len() as int)[i as int] != w@[i as int]);
            return false;
        }
        i = i + 1;
    }
    assert(v@.subrange(0, w@.len() as int) =~= w@);
    true
}


/// Every character of `s` is a decimal digit.
pub open spec fn all_digits(s: Seq<char>) -> bool {
    forall|i: int| 0 <= i < s.len() ==> '0' <= #[trigger] s[i] && s[i] <= '9'
}

/// The number a run of decimal digits reads as (most significant first).
pub open spec fn digits_value(s: Seq<char>) -> int
    decreases s.len(),
{
    if s.len() == 0 {
        0
    } else {
        digits_value(s.drop_last()) * 10 + (s.last() as int - '0' as int)
    }
}

/// `digit_char` writes the digit it is given.
pub proof fn lemma_digit_char(d: nat)
    requires
        d < 10,
    ensures
        '0' <= digit_char(d) <= '9',
        digit_char(d) as int - '0' as int == d,
{
}

/// `decimal(n)` is a run of digits that reads back as `n`, one digit for
/// `n < 10` and two for `n < 100`.
pub proof fn lemma_decimal_reads_back(n: nat)
    ensures
        all_digits(decimal(n)),
        digits_value(decimal(n)) == n,
        decimal(n).len() >= 1,
        n < 10 ==> decimal(n).len() == 1,
        n < 100 ==> decimal(n).len() <= 2,
    decreases n,
{
    if n < 10 {
        lemma_digit_char(n);
        assert(decimal(n).drop_last() =~= Seq::<char>::empty());
        assert(digits_value(decimal(n)) == digits_value(Seq::<char>::empty()) * 10 + (digit_char(n) as int - '0' as int));
    } else {
        lemma_decimal_reads_back(n / 10);
        lemma_digit_char(n % 10);
        let s = decimal(n);
        assert(s.drop_last() =~= decimal(n / 10));
        assert((n / 10) * 10 + n % 10 == n) by {
            vstd::arithmetic::div_mod::lemma_fundamental_div_mod(n as int, 10);
        }
        assert(digits_value(s) == digits_value(decimal(n / 10)) * 10 + (s.last() as int - '0' as int));
        assert(all_digits(s)) by {
            assert forall|i: int| 0 <= i < s.len() implies '0' <= #[trigger] s[i] && s[i] <= '9' by {
                if i < s.len() - 1 {
                    assert(s[i] == decimal(n / 10)[i]);
                }
            }
        }
    }
}

/// Leading zeros do not change what a run of digits reads as.
pub proof fn lemma_zeros_read_as_nothing(k: nat, s: Seq<char>)
    ensures
        digits_value(repeat('0', k) + s) == digits_value(s),
    decreases s.len(), k,
{
    if s.len() == 0 {
        assert(repeat('0', k) + s =~= repeat('0', k));
        if k > 0 {
            assert(repeat('0', k).drop_last() =~= repeat('0', (k - 1) as nat));
            lemma_zeros_read_as_nothing((k - 1) as nat, s);
            assert(repeat('0', (k - 1) as nat) + s =~= repeat('0', (k - 1) as nat));
        }
    } else {
        lemma_zeros_read_as_nothing(k, s.drop_last());
        assert((repeat('0', k) + s).drop_last() =~= repeat('0', k) + s.drop_last());
    }
}

/// Zero-padding a number's digits keeps them digits and keeps the value;
/// the field is `width` wide unless the number needs more digits.
pub proof fn lemma_zero_padded_reads_back(n: nat, width: nat)
    ensures
        all_digits(pad_left(decimal(n), width, '0')),
        digits_value(pad_left(decimal(n), width, '0')) == n,
        pad_left(decimal(n), width, '0').len() >= width,
        n < 100 && width == 2 ==> pad_left(decimal(n), width, '0').len() == 2,
{
    lemma_decimal_reads_back(n);
    let d = decimal(n);
    if d.len() < width {
        let k = (width - d.len()) as nat;
        lemma_zeros_read_as_nothing(k, d);
        let p = repeat('0', k) + d;
        assert(all_digits(p)) by {
            assert forall|i: int| 0 <= i < p.len() implies '0' <= #[trigger] p[i] && p[i] <= '9' by {
                if i >= k {
                    assert(p[i] == d[i - k]);
                }
            }
        }
    }
}


/// Padding with spaces puts only spaces in front of the text.
pub proof fn lemma_space_padded(s: Seq<char>, width: nat)
    ensures
        ({
            let p = pad_left(s, width, ' ');
            let k = p.len() - s.len();
            &&& p.len() >= s.len()
            &&& p.subrange(k, p.len() as int) == s
            &&& forall|i: int| 0 <= i < k ==> #[trigger] p[i] == ' '
        }),
{
    let p = pad_left(s, width, ' ');
    let k = p.len() - s.len();
    assert(p.subrange(k, p.len() as int) =~= s);
}

} // verus!
