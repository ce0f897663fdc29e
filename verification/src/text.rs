//! Decimal rendering of integers and placeholder substitution in strings.

use vstd::prelude::*;

verus! {

/// The character of a decimal digit `d` (`d < 10`).
pub open spec fn digit_char(d: nat) -> char {
    if d == 0 { '0' }
    else if d == 1 { '1' }
    else if d == 2 { '2' }
    else if d == 3 { '3' }
    else if d == 4 { '4' }
    else if d == 5 { '5' }
    else if d == 6 { '6' }
    else if d == 7 { '7' }
    else if d == 8 { '8' }
    else { '9' }
}

/// The decimal digits of `n`, most significant first, without leading zeros.
pub open spec fn nat_digits(n: nat) -> Seq<char>
    decreases n,
{
    if n < 10 {
        seq![digit_char(n)]
    } else {
        nat_digits(n / 10) + seq![digit_char(n % 10)]
    }
}

/// The decimal text of an integer: a minus sign before the digits of its
/// magnitude when it is negative.
pub open spec fn decimal(v: int) -> Seq<char> {
    if v < 0 {
        seq!['-'] + nat_digits((-v) as nat)
    } else {
        nat_digits(v as nat)
    }
}

fn digit_text(d: u32) -> (r: &'static str)
    requires
        d < 10,
    ensures
        r@ == seq![digit_char(d as nat)],
{
    proof {
        reveal_strlit("0");
        reveal_strlit("1");
        reveal_strlit("2");
        reveal_strlit("3");
        reveal_strlit("4");
        reveal_strlit("5");
        reveal_strlit("6");
        reveal_strlit("7");
        reveal_strlit("8");
        reveal_strlit("9");
    }
    if d == 0 { "0" }
    else if d == 1 { "1" }
    else if d == 2 { "2" }
    else if d == 3 { "3" }
    else if d == 4 { "4" }
    else if d == 5 { "5" }
    else if d == 6 { "6" }
    else if d == 7 { "7" }
    else if d == 8 { "8" }
    else { "9" }
}

fn append_digits(n: u32, out: &mut String)
    ensures
        final(out)@ == old(out)@ + nat_digits(n as nat),
    decreases n,
{
    if n >= 10 {
        append_digits(n / 10, out);
    }
    out.append(digit_text(n % 10));
    assert(final(out)@ =~= old(out)@ + nat_digits(n as nat));
}

/// Renders `v` in decimal, as `i32`'s `Display` does.
pub fn i32_to_decimal(v: i32) -> (r: String)
    ensures
        r@ == decimal(v as int),
        is_display_text(r@, v as int),
{
    if v < 0 {
        proof { reveal_strlit("-"); }
        let mut out = String::from_str("-");
        let magnitude: u32 = (0i64 - (v as i64)) as u32;
        append_digits(magnitude, &mut out);
        assert(out@ =~= decimal(v as int));
        proof { decimal_is_display_text(v as int); }
        out
    } else {
        let mut out = String::new();
        append_digits(v as u32, &mut out);
        assert(out@ =~= decimal(v as int));
        proof { decimal_is_display_text(v as int); }
        out
    }
}


/// Every non-overlapping occurrence of the non-empty pattern `pat` in `s`,
/// scanned from the left, replaced by `rep`.
pub open spec fn replace_all(s: Seq<char>, pat: Seq<char>, rep: Seq<char>) -> Seq<char>
    decreases s.len(),
{
    if s.len() == 0 {
        Seq::empty()
    } else if 0 < pat.len() <= s.len() && s.take(pat.len() as int) == pat {
        rep + replace_all(s.skip(pat.len() as int), pat, rep)
    } else {
        seq![s[0]] + replace_all(s.skip(1), pat, rep)
    }
}

/// Whether `pat` occurs in `s` at character position `at`.
fn occurs_at(s: &str, n: usize, pat: &str, m: usize, at: usize) -> (r: bool)
    requires
        n == s@.len(),
        m == pat@.len(),
        at + m <= n,
    ensures
        r == (s@.subrange(at as int, at + m) == pat@),
{
    let mut j: usize = 0;
    while j < m
        invariant
            n == s@.len(),
            m == pat@.len(),
            at + m <= n,
            j <= m,
            forall|k: int| 0 <= k < j ==> s@[at + k] == pat@[k],
        decreases m - j,
    {
        if s.get_char(at + j) != pat.get_char(j) {
            assert(s@.subrange(at as int, at + m)[j as int] != pat@[j as int]);
            return false;
        }
        j = j + 1;
    }
    assert(s@.subrange(at as int, at + m) =~= pat@);
    true
}

/// Replaces every non-overlapping occurrence of `pat` in `s` by `rep`,
/// scanning from the left, as `str::replace` does for a non-empty pattern.
pub fn replace_all_text(s: &str, pat: &str, rep: &str) -> (r: String)
    requires
        pat@.len() > 0,
    ensures
        r@ == replace_all(s@, pat@, rep@),
{
    let n = s.unicode_len();
    let m = pat.unicode_len();
    let mut out = String::new();
    let mut i: usize = 0;
    assert(s@.skip(0) =~= s@);
    while i < n
        invariant
            n == s@.len(),
            m == pat@.len(),
            m > 0,
            i <= n,
            replace_all(s@, pat@, rep@) == out@ + replace_all(s@.skip(i as int), pat@, rep@),
        decreases n - i,
    {
        let ghost rest = s@.skip(i as int);
        if m <= n - i && occurs_at(s, n, pat, m, i) {
            assert(rest.take(m as int) =~= s@.subrange(i as int, i + m));
            assert(rest.skip(m as int) =~= s@.skip(i + m));
            out.append(rep);
            i = i + m;
        } else {
            assert(m <= n - i ==> rest.take(m as int) =~= s@.subrange(i as int, i + m));
            assert(rest.skip(1) =~= s@.skip(i + 1));
            assert(rest[0] == s@[i as int]);
            let one = s.substring_char(i, i + 1);
            assert(one@ =~= seq![rest[0]]);
            out.append(one);
            i = i + 1;
        }
        assert(replace_all(s@, pat@, rep@) =~= out@ + replace_all(s@.skip(i as int), pat@, rep@));
    }
    assert(s@.skip(n as int) =~= Seq::<char>::empty());
    assert(out@ =~= replace_all(s@, pat@, rep@));
    out
}


/// The value of a decimal digit character (zero for any other character).
pub open spec fn char_value(c: char) -> nat {
    if c == '1' { 1 }
    else if c == '2' { 2 }
    else if c == '3' { 3 }
    else if c == '4' { 4 }
    else if c == '5' { 5 }
    else if c == '6' { 6 }
    else if c == '7' { 7 }
    else if c == '8' { 8 }
    else if c == '9' { 9 }
    else { 0 }
}

/// The number that a run of decimal digits denotes.
pub open spec fn digits_value(s: Seq<char>) -> nat
    decreases s.len(),
{
    if s.len() == 0 {
        0
    } else {
        digits_value(s.drop_last()) * 10 + char_value(s.last())
    }
}

/// Reads decimal text back: an optional minus sign, then digits.
pub open spec fn parse_decimal(s: Seq<char>) -> int {
    if s.len() > 0 && s[0] == '-' {
        -(digits_value(s.drop_first()) as int)
    } else {
        digits_value(s) as int
    }
}

proof fn lemma_nat_digits_value(n: nat)
    ensures
        digits_value(nat_digits(n)) == n,
        nat_digits(n).len() > 0,
        nat_digits(n)[0] != '-',
    decreases n,
{
    assert(digits_value(Seq::<char>::empty()) == 0);
    if n < 10 {
        assert(seq![digit_char(n)].drop_last() =~= Seq::<char>::empty());
        assert(char_value(digit_char(n)) == n);
    } else {
        lemma_nat_digits_value(n / 10);
        let d = nat_digits(n);
        assert(d.drop_last() =~= nat_digits(n / 10));
        assert(d.last() == digit_char(n % 10));
        assert(char_value(digit_char(n % 10)) == n % 10);
        assert(n == (n / 10) * 10 + n % 10);
        assert(d[0] == nat_digits(n / 10)[0]);
    }
}

/// Decimal text reads back as the integer it renders.
pub proof fn decimal_round_trip(v: int)
    ensures
        parse_decimal(decimal(v)) == v,
{
    if v < 0 {
        lemma_nat_digits_value((-v) as nat);
        assert((seq!['-'] + nat_digits((-v) as nat)).drop_first() =~= nat_digits((-v) as nat));
    } else {
        lemma_nat_digits_value(v as nat);
    }
}

/// Distinct integers have distinct decimal texts.
pub proof fn decimal_injective(a: int, b: int)
    requires
        a != b,
    ensures
        decimal(a) != decimal(b),
{
    decimal_round_trip(a);
    decimal_round_trip(b);
}

/// Replacement leaves untouched a prefix in which the pattern's first
/// character never occurs.
pub proof fn lemma_replace_all_skips_prefix(p: Seq<char>, t: Seq<char>, pat: Seq<char>, rep: Seq<char>)
    requires
        pat.len() > 0,
        forall|k: int| 0 <= k < p.len() ==> p[k] != pat[0],
    ensures
        replace_all(p + t, pat, rep) == p + replace_all(t, pat, rep),
    decreases p.len(),
{
    if p.len() > 0 {
        let s = p + t;
        if pat.len() <= s.len() {
            assert(s.take(pat.len() as int)[0] == p[0]);
        }
        assert(s.skip(1) =~= p.skip(1) + t);
        lemma_replace_all_skips_prefix(p.skip(1), t, pat, rep);
        assert(s[0] == p[0]);
        assert(p =~= seq![p[0]] + p.skip(1));
        assert(replace_all(p + t, pat, rep) =~= p + replace_all(t, pat, rep));
    } else {
        assert(p + t =~= t);
        assert(p + replace_all(t, pat, rep) =~= replace_all(t, pat, rep));
    }
}

/// A text in which the pattern never occurs is left as it is.
pub proof fn replace_all_without_occurrence(s: Seq<char>, pat: Seq<char>, rep: Seq<char>)
    requires
        pat.len() > 0,
        forall|i: int| 0 <= i && i + pat.len() <= s.len() ==> #[trigger] s.subrange(i, i + pat.len())
            != pat,
    ensures
        replace_all(s, pat, rep) == s,
    decreases s.len(),
{
    if s.len() > 0 {
        let t = s.skip(1);
        assert forall|i: int| 0 <= i && i + pat.len() <= t.len() implies #[trigger] t.subrange(
            i,
            i + pat.len(),
        ) != pat by {
            assert(t.subrange(i, i + pat.len()) =~= s.subrange(i + 1, i + 1 + pat.len()));
        }
        replace_all_without_occurrence(t, pat, rep);
        if pat.len() <= s.len() {
            assert(s.subrange(0int, 0int + pat.len()) != pat);
            assert(s.take(pat.len() as int) =~= s.subrange(0, pat.len() as int));
        }
        assert(replace_all(s, pat, rep) == seq![s[0]] + replace_all(t, pat, rep));
        assert(s =~= seq![s[0]] + t);
    } else {
        assert(s =~= Seq::<char>::empty());
    }
}

/// A text that is exactly the pattern is replaced by the replacement.
pub proof fn lemma_replace_all_whole(pat: Seq<char>, rep: Seq<char>)
    requires
        pat.len() > 0,
    ensures
        replace_all(pat, pat, rep) == rep,
{
    assert(pat.take(pat.len() as int) =~= pat);
    assert(pat.skip(pat.len() as int) =~= Seq::<char>::empty());
    assert(replace_all(Seq::<char>::empty(), pat, rep) == Seq::<char>::empty());
    assert(rep + Seq::<char>::empty() =~= rep);
}


/// Whether a character is one of the decimal digits `'0'..='9'`.
pub open spec fn is_digit(c: char) -> bool {
    '0' <= c && c <= '9'
}

/// The number a digit character stands for, by its code point.
pub open spec fn digit_value(c: char) -> int {
    (c as int) - ('0' as int)
}

/// The number a string of digit characters denotes, most significant first.
pub open spec fn numeral(s: Seq<char>) -> int
    decreases s.len(),
{
    if s.len() == 0 {
        0
    } else {
        numeral(s.drop_last()) * 10 + digit_value(s.last())
    }
}

/// Whether `digits` is the canonical decimal numeral of `n`: non-empty,
/// only the characters `'0'..='9'`, no leading zero unless it is `"0"`, and
/// denoting `n`.
pub open spec fn is_canonical_numeral(digits: Seq<char>, n: int) -> bool {
    &&& digits.len() > 0
    &&& forall|i: int| 0 <= i < digits.len() ==> is_digit(#[trigger] digits[i])
    &&& digits.len() > 1 ==> digits[0] != '0'
    &&& numeral(digits) == n
}

/// Whether `t` is the text `Display` gives an integer `v`: a minus sign
/// exactly when `v` is negative, then the canonical numeral of `v`'s
/// magnitude.
pub open spec fn is_display_text(t: Seq<char>, v: int) -> bool {
    if v < 0 {
        &&& t.len() > 0
        &&& t[0] == '-'
        &&& is_canonical_numeral(t.drop_first(), -v)
    } else {
        is_canonical_numeral(t, v)
    }
}

proof fn lemma_nat_digits_canonical(n: nat)
    ensures
        is_canonical_numeral(nat_digits(n), n as int),
    decreases n,
{
    assert(numeral(Seq::<char>::empty()) == 0);
    if n < 10 {
        let d = nat_digits(n);
        assert(d.drop_last() =~= Seq::<char>::empty());
        assert(is_digit(digit_char(n)));
        assert(digit_value(digit_char(n)) == n);
    } else {
        lemma_nat_digits_canonical(n / 10);
        let p = nat_digits(n / 10);
        let d = nat_digits(n);
        let c = digit_char(n % 10);
        assert(d == p + seq![c]);
        assert(d.drop_last() =~= p);
        assert(is_digit(c));
        assert(digit_value(c) == n % 10);
        assert(n == (n / 10) * 10 + n % 10);
        assert forall|i: int| 0 <= i < d.len() implies is_digit(#[trigger] d[i]) by {
            if i < p.len() {
                assert(d[i] == p[i]);
            }
        }
        assert(d[0] == p[0]);
        if p.len() == 1 {
            assert(n / 10 >= 1);
            assert(numeral(p) == numeral(p.drop_last()) * 10 + digit_value(p.last()));
            assert(p.drop_last() =~= Seq::<char>::empty());
            assert(p[0] != '0');
        }
    }
}

/// The decimal text of every integer is its `Display` text: at most one
/// minus sign, present exactly when the integer is negative, then only the
/// digits `'0'..='9'` with no leading zero, denoting the magnitude.
pub proof fn decimal_is_display_text(v: int)
    ensures
        is_display_text(decimal(v), v),
{
    if v < 0 {
        lemma_nat_digits_canonical((-v) as nat);
        assert((seq!['-'] + nat_digits((-v) as nat)).drop_first() =~= nat_digits((-v) as nat));
    } else {
        lemma_nat_digits_canonical(v as nat);
    }
}

/// A text has at most one `Display` reading: two integers with the same
/// display text are equal.
pub proof fn display_text_unique(t: Seq<char>, a: int, b: int)
    requires
        is_display_text(t, a),
        is_display_text(t, b),
    ensures
        a == b,
{
    if a < 0 {
        assert(t[0] == '-');
        if b >= 0 {
            assert(is_digit(t[0]));
        }
    } else {
        if b < 0 {
            assert(t[0] == '-');
            assert(is_digit(t[0]));
        }
    }
}

} // verus!
