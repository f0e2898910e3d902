//! Text building blocks used in the replies: decimal rendering of integers and
//! substring search.

use vstd::prelude::*;

verus! {

/// The character that stands for the decimal digit `d`.
pub open spec fn digit_char(d: nat) -> char {
    if d == 0 { '0' }
    else if d == 1 { '1' }
    else if d == 2 { '2' }
    else if d == 3 { '3' }
    else if d == 4 { '4' }
    else if d == 5 { '5' }
    else if d == 6 { '6' }
    else if d == 7 { '7' }
    else if d == 8 { '8' }
    else { '9' }
}

/// Decimal digits of a natural number, most significant first, without
/// leading zeros (zero itself is written `0`).
pub open spec fn decimal_digits(n: nat) -> Seq<char>
    decreases n,
{
    if n < 10 {
        seq![digit_char(n)]
    } else {
        decimal_digits(n / 10).push(digit_char(n % 10))
    }
}

/// Decimal rendering of an integer, with a leading `-` for negative values.
pub open spec fn decimal_text(n: int) -> Seq<char> {
    if n < 0 {
        seq!['-'] + decimal_digits((-n) as nat)
    } else {
        decimal_digits(n as nat)
    }
}

/// `needle` occurs in `hay` as a contiguous run of characters.
pub open spec fn contains_text(hay: Seq<char>, needle: Seq<char>) -> bool {
    exists|i: int|
        0 <= i && i + needle.len() <= hay.len() && #[trigger] hay.subrange(i, i + needle.len())
            == needle
}

fn digit_str(d: u64) -> (s: &'static str)
    requires
        d < 10,
    ensures
        s@ == seq![digit_char(d as nat)],
{
    proof {
        reveal_strlit("0");
        reveal_strlit("1");
        reveal_strlit("2");
        reveal_strlit("3");
        reveal_strlit("4");
        reveal_strlit("5");
        reveal_strlit("6");
        reveal_strlit("7");
        reveal_strlit("8");
        reveal_strlit("9");
    }
    if d == 0 { "0" }
    else if d == 1 { "1" }
    else if d == 2 { "2" }
    else if d == 3 { "3" }
    else if d == 4 { "4" }
    else if d == 5 { "5" }
    else if d == 6 { "6" }
    else if d == 7 { "7" }
    else if d == 8 { "8" }
    else { "9" }
}

fn push_digits(out: &mut String, n: u64)
    ensures
        final(out)@ == old(out)@ + decimal_digits(n as nat),
    decreases n,
{
    if n >= 10 {
        push_digits(out, n / 10);
    }
    out.append(digit_str(n % 10));
    proof {
        assert(old(out)@ + decimal_digits(n as nat) =~= old(out)@ + (if n >= 10 {
            decimal_digits((n / 10) as nat)
        } else {
            Seq::<char>::empty()
        }) + seq![digit_char((n % 10) as nat)]);
    }
}

/// Appends the decimal rendering of `n` to `out`.
pub fn append_decimal(out: &mut String, n: i32)
    ensures
        final(out)@ == old(out)@ + decimal_text(n as int),
{
    if n < 0 {
        out.append("-");
        proof {
            reveal_strlit("-");
        }
        let magnitude: u64 = (0i64 - (n as i64)) as u64;
        push_digits(out, magnitude);
        assert(final(out)@ =~= old(out)@ + decimal_text(n as int));
    } else {
        push_digits(out, n as u64);
    }
}

/// Whether `needle` occurs in `hay`.
pub fn contains_str(hay: &str, needle: &str) -> (found: bool)
    ensures
        found == contains_text(hay@, needle@),
{
    let h = hay.unicode_len();
    let m = needle.unicode_len();
    let mut hv: Vec<char> = Vec::new();
    let mut k: usize = 0;
    while k < h
        invariant
            h == hay@.len(),
            k <= h,
            hv@ =~= hay@.subrange(0, k as int),
        decreases h - k,
    {
        hv.push(hay.get_char(k));
        k = k + 1;
    }
    let mut nv: Vec<char> = Vec::new();
    k = 0;
    while k < m
        invariant
            m == needle@.len(),
            k <= m,
            nv@ =~= needle@.subrange(0, k as int),
        decreases m - k,
    {
        nv.push(needle.get_char(k));
        k = k + 1;
    }
    assert(hv@ =~= hay@);
    assert(nv@ =~= needle@);
    if m > h {
        return false;
    }
    let mut i: usize = 0;
    while i <= h - m
        invariant
            h == hv@.len(),
            m == nv@.len(),
            m <= h,
            i <= h - m + 1,
            hv@ == hay@,
            nv@ == needle@,
            forall|j: int| 0 <= j < i ==> #[trigger] hv@.subrange(j, j + m) != nv@,
        decreases h - m + 1 - i,
    {
        let mut t: usize = 0;
        let mut same = true;
        while t < m
            invariant
                h == hv@.len(),
                m == nv@.len(),
                i + m <= h,
                t <= m,
                same == (forall|q: int| 0 <= q < t ==> hv@[i + q] == #[trigger] nv@[q]),
            decreases m - t,
        {
            if hv[i + t] != nv[t] {
                same = false;
            }
            t = t + 1;
        }
        if same {
            assert(hv@.subrange(i as int, i + m) =~= nv@);
            return true;
        }
        assert(hv@.subrange(i as int, i + m) != nv@) by {
            let q = choose|q: int| 0 <= q < m && hv@[i + q] != #[trigger] nv@[q];
            assert(hv@.subrange(i as int, i + m)[q] == hv@[i + q]);
        }
        i = i + 1;
    }
    assert forall|j: int| 0 <= j && j + needle@.len() <= hay@.len() implies #[trigger] hay@.subrange(
        j,
        j + needle@.len(),
    ) != needle@ by {
        assert(hv@.subrange(j, j + m) != nv@);
    }
    false
}

/// The number a sequence of decimal digits stands for, most significant
/// first.
pub open spec fn digits_value(s: Seq<char>) -> int
    decreases s.len(),
{
    if s.len() == 0 {
        0
    } else {
        digits_value(s.drop_last()) * 10 + (s.last() as int - '0' as int)
    }
}

/// Every character of `s` is one of `0`..`9`.
pub open spec fn all_digits(s: Seq<char>) -> bool {
    forall|i: int| 0 <= i < s.len() ==> '0' <= #[trigger] s[i] <= '9'
}

proof fn digit_char_value(d: nat)
    requires
        d < 10,
    ensures
        digit_char(d) as int - '0' as int == d,
        '0' <= digit_char(d) <= '9',
{
    assert('0' as int == 48);
    assert('9' as int == 57);
    if d == 0 { assert('0' as int == 48); }
    else if d == 1 { assert('1' as int == 49); }
    else if d == 2 { assert('2' as int == 50); }
    else if d == 3 { assert('3' as int == 51); }
    else if d == 4 { assert('4' as int == 52); }
    else if d == 5 { assert('5' as int == 53); }
    else if d == 6 { assert('6' as int == 54); }
    else if d == 7 { assert('7' as int == 55); }
    else if d == 8 { assert('8' as int == 56); }
    else { assert('9' as int == 57); }
}

/// The decimal digits of `n` are digits, start with `0` only for zero itself,
/// and read back as `n`.
pub proof fn law_decimal_digits_read_back(n: nat)
    ensures
        decimal_digits(n).len() >= 1,
        all_digits(decimal_digits(n)),
        decimal_digits(n)[0] == '0' ==> n == 0,
        digits_value(decimal_digits(n)) == n,
    decreases n,
{
    digit_char_value(n % 10);
    if n >= 10 {
        law_decimal_digits_read_back(n / 10);
        let prefix = decimal_digits(n / 10);
        let s = prefix.push(digit_char(n % 10));
        assert(s.drop_last() =~= prefix);
        assert(decimal_digits(n) == s);
        assert(digits_value(s) == digits_value(s.drop_last()) * 10 + (s.last() as int - '0' as int));
        assert(digits_value(s) == digits_value(prefix) * 10 + (n % 10));
        assert((n / 10) * 10 + n % 10 == n) by (nonlinear_arith);
        assert(s[0] == prefix[0]);
        assert forall|i: int| 0 <= i < s.len() implies '0' <= #[trigger] s[i] <= '9' by {
            if i < prefix.len() {
                assert(s[i] == prefix[i]);
            }
        }
    } else {
        let s = seq![digit_char(n)];
        assert(s.drop_last() =~= Seq::<char>::empty());
        assert(digits_value(Seq::<char>::empty()) == 0);
        assert(decimal_digits(n) == s);
        assert(n % 10 == n);
        assert(digits_value(s) == digits_value(s.drop_last()) * 10 + (s.last() as int - '0' as int));
    }
}

/// The decimal rendering of an integer is `-` followed by the digits of its
/// magnitude when it is negative, and its digits otherwise; the digits read
/// back as the magnitude.
pub proof fn law_decimal_text_reads_back(n: int)
    ensures
        n < 0 ==> decimal_text(n)[0] == '-' && digits_value(decimal_text(n).drop_first()) == -n
            && all_digits(decimal_text(n).drop_first()) && decimal_text(n).len() >= 2,
        n >= 0 ==> digits_value(decimal_text(n)) == n && all_digits(decimal_text(n)),
{
    if n < 0 {
        law_decimal_digits_read_back((-n) as nat);
        assert(decimal_text(n).drop_first() =~= decimal_digits((-n) as nat));
    } else {
        law_decimal_digits_read_back(n as nat);
    }
}

/// A text contains every piece it is made of, and nothing longer than itself.
pub proof fn law_contains_text(before: Seq<char>, needle: Seq<char>, after: Seq<char>, hay: Seq<char>)
    ensures
        contains_text(before + needle + after, needle),
        needle.len() > hay.len() ==> !contains_text(hay, needle),
        contains_text(hay, needle) ==> needle.len() <= hay.len(),
{
    let h = before + needle + after;
    let i = before.len() as int;
    assert(h.subrange(i, i + needle.len()) =~= needle);
}

} // verus!
