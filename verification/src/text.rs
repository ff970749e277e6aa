//! Small string facts shared by the modules: comparisons from std, decimal
//! rendering of integers, and the character-level searches the parsers use.

use vstd::prelude::*;

verus! {

/// The character of a decimal digit `d < 10`.
pub open spec fn digit_char(d: nat) -> char {
    (('0' as u32) + d) as char
}

/// The decimal rendering of a natural number, most significant digit first,
/// with no leading zeros.
pub open spec fn decimal_digits(n: nat) -> Seq<char>
    decreases n,
{
    if n < 10 {
        seq![digit_char(n)]
    } else {
        decimal_digits(n / 10).push(digit_char(n % 10))
    }
}

/// A decimal rendering is never empty, and it is one digit long exactly for the
/// numbers below ten.
pub proof fn lemma_decimal_digits_len(n: nat)
    ensures
        decimal_digits(n).len() >= 1,
        (decimal_digits(n).len() == 1) <==> n < 10,
    decreases n,
{
    if n >= 10 {
        lemma_decimal_digits_len(n / 10);
    }
}

/// Distinct numbers have distinct decimal renderings.
pub proof fn lemma_decimal_digits_injective(n: nat, m: nat)
    requires
        decimal_digits(n) == decimal_digits(m),
    ensures
        n == m,
    decreases n,
{
    lemma_decimal_digits_len(n);
    lemma_decimal_digits_len(m);
    if n < 10 && m < 10 {
        assert(decimal_digits(n)[0] == digit_char(n));
        assert(decimal_digits(m)[0] == digit_char(m));
    } else if n >= 10 && m >= 10 {
        let dn = decimal_digits(n);
        let dm = decimal_digits(m);
        assert(dn.drop_last() =~= decimal_digits(n / 10));
        assert(dm.drop_last() =~= decimal_digits(m / 10));
        lemma_decimal_digits_injective(n / 10, m / 10);
        assert(dn.last() == digit_char(n % 10));
        assert(dm.last() == digit_char(m % 10));
    }
}

/// The decimal rendering of an integer, with a leading `-` when it is negative.
pub open spec fn decimal_int(n: int) -> Seq<char> {
    if n < 0 {
        seq!['-'] + decimal_digits((-n) as nat)
    } else {
        decimal_digits(n as nat)
    }
}

/// Whether `prefix` is a prefix of `s`.
pub open spec fn has_prefix(s: Seq<char>, prefix: Seq<char>) -> bool {
    prefix.len() <= s.len() && s.subrange(0, prefix.len() as int) == prefix
}

/// Whether two string slices hold the same characters.
pub fn str_eq(a: &str, b: &str) -> (res: bool)
    ensures
        res == (a@ == b@),
{
    let n = a.unicode_len();
    if n != b.unicode_len() {
        return false;
    }
    let mut i: usize = 0;
    while i < n
        invariant
            n == a@.len(),
            n == b@.len(),
            i <= n,
            a@.subrange(0, i as int) == b@.subrange(0, i as int),
        decreases n - i,
    {
        if a.get_char(i) != b.get_char(i) {
            assert(a@[i as int] != b@[i as int]);
            return false;
        }
        assert(a@.subrange(0, i + 1) =~= a@.subrange(0, i as int).push(a@[i as int]));
        assert(b@.subrange(0, i + 1) =~= b@.subrange(0, i as int).push(b@[i as int]));
        i = i + 1;
    }
    assert(a@ =~= a@.subrange(0, n as int));
    assert(b@ =~= b@.subrange(0, n as int));
    true
}

/// Whether `prefix` is a prefix of `s`.
pub fn str_starts_with(s: &str, prefix: &str) -> (res: bool)
    ensures
        res == has_prefix(s@, prefix@),
{
    let m = prefix.unicode_len();
    if m > s.unicode_len() {
        return false;
    }
    let mut i: usize = 0;
    while i < m
        invariant
            m == prefix@.len(),
            m <= s@.len(),
            i <= m,
            s@.subrange(0, i as int) == prefix@.subrange(0, i as int),
        decreases m - i,
    {
        if s.get_char(i) != prefix.get_char(i) {
            assert(s@.subrange(0, m as int)[i as int] != prefix@[i as int]);
            return false;
        }
        assert(s@.subrange(0, i + 1) =~= s@.subrange(0, i as int).push(s@[i as int]));
        assert(prefix@.subrange(0, i + 1) =~= prefix@.subrange(0, i as int).push(prefix@[i as int]));
        i = i + 1;
    }
    assert(prefix@ =~= prefix@.subrange(0, m as int));
    true
}

/// The decimal digit `d < 10` as a one-character string.
fn digit_string(d: usize) -> (s: String)
    requires
        d < 10,
    ensures
        s@ == seq![digit_char(d as nat)],
{
    let digits = "0123456789";
    proof {
        reveal_strlit("0123456789");
        assert(digits@[d as int] == digit_char(d as nat));
    }
    let one = digits.substring_char(d, d + 1);
    assert(one@ =~= seq![digit_char(d as nat)]);
    one.to_owned()
}

/// The decimal rendering of an unsigned integer, as `ToString` gives it.
pub fn usize_to_string(n: usize) -> (s: String)
    ensures
        s@ == decimal_digits(n as nat),
    decreases n,
{
    if n < 10 {
        digit_string(n)
    } else {
        let mut s = usize_to_string(n / 10);
        let last = digit_string(n % 10);
        s.append(last.as_str());
        s
    }
}

/// The decimal rendering of a signed integer, as `ToString` gives it: a leading
/// `-` for negative values.
pub fn i32_to_string(n: i32) -> (s: String)
    ensures
        s@ == decimal_int(n as int),
{
    if n < 0 {
        let magnitude: i64 = -(n as i64);
        let digits = usize_to_string(magnitude as usize);
        let mut s = "-".to_owned();
        proof {
            reveal_strlit("-");
        }
        s.append(digits.as_str());
        assert(s@ =~= seq!['-'] + decimal_digits((-n) as nat));
        s
    } else {
        usize_to_string(n as usize)
    }
}

/// A fresh `String` holding the characters of `s`.
pub fn owned(s: &str) -> (res: String)
    ensures
        res@ == s@,
{
    s.to_owned()
}

/// The concatenation of two string slices.
pub fn concat(a: &str, b: &str) -> (res: String)
    ensures
        res@ == a@ + b@,
{
    let mut r = a.to_owned();
    r.append(b);
    r
}

/// The index of the last occurrence of `c` among the first `end` characters of
/// `s`, if any.
pub fn rfind_char(s: &str, c: char, end: usize) -> (res: Option<usize>)
    requires
        end <= s@.len(),
    ensures
        match res {
            Some(i) => i < end && s@[i as int] == c && !s@.subrange(i + 1, end as int).contains(c),
            None => !s@.subrange(0, end as int).contains(c),
        },
{
    let mut i: usize = end;
    while i > 0
        invariant
            end <= s@.len(),
            i <= end,
            !s@.subrange(i as int, end as int).contains(c),
        decreases i,
    {
        if s.get_char(i - 1) == c {
            return Some(i - 1);
        }
        assert(s@.subrange(i - 1, end as int) =~= seq![s@[i - 1]] + s@.subrange(i as int, end as int));
        i = i - 1;
    }
    None
}

/// The number of occurrences of `c` in a sequence of characters.
pub open spec fn count_char(s: Seq<char>, c: char) -> nat
    decreases s.len(),
{
    if s.len() == 0 {
        0
    } else {
        count_char(s.drop_last(), c) + if s.last() == c { 1nat } else { 0nat }
    }
}

/// Counts the occurrences of `c` in `s`, stopping once `limit` of them are seen.
pub fn count_char_up_to(s: &str, c: char, limit: usize) -> (res: usize)
    ensures
        res == if count_char(s@, c) < limit { count_char(s@, c) } else { limit as nat },
{
    let n = s.unicode_len();
    let mut i: usize = 0;
    let mut k: usize = 0;
    while i < n && k < limit
        invariant
            n == s@.len(),
            i <= n,
            k == count_char(s@.subrange(0, i as int), c),
            k <= limit,
        decreases n - i,
    {
        assert(s@.subrange(0, i + 1).drop_last() =~= s@.subrange(0, i as int));
        if s.get_char(i) == c {
            k = k + 1;
        }
        i = i + 1;
    }
    proof {
        lemma_count_char_prefix_monotone(s@, c, i as int);
        if i == n {
            assert(s@.subrange(0, n as int) =~= s@);
        }
    }
    k
}

/// Counting over a concatenation adds the counts of the parts.
pub proof fn lemma_count_char_concat(a: Seq<char>, b: Seq<char>, c: char)
    ensures
        count_char(a + b, c) == count_char(a, c) + count_char(b, c),
    decreases b.len(),
{
    if b.len() == 0 {
        assert(a + b =~= a);
    } else {
        lemma_count_char_concat(a, b.drop_last(), c);
        assert((a + b).drop_last() =~= a + b.drop_last());
    }
}

/// A sequence without `c` counts it zero times.
pub proof fn lemma_count_char_absent(s: Seq<char>, c: char)
    requires
        !s.contains(c),
    ensures
        count_char(s, c) == 0,
    decreases s.len(),
{
    if s.len() > 0 {
        assert(s.drop_last().len() < s.len());
        assert(!s.drop_last().contains(c)) by {
            if s.drop_last().contains(c) {
                let i = choose|i: int| 0 <= i < s.drop_last().len() && s.drop_last()[i] == c;
                assert(s[i] == c);
            }
        }
        lemma_count_char_absent(s.drop_last(), c);
        assert(s[s.len() - 1] == s.last());
    }
}

/// A sequence holding a character at least once contains it.
pub proof fn lemma_count_positive_contains(s: Seq<char>, c: char)
    requires
        count_char(s, c) > 0,
    ensures
        s.contains(c),
    decreases s.len(),
{
    if s.last() == c {
        assert(s[s.len() - 1] == c);
    } else {
        lemma_count_positive_contains(s.drop_last(), c);
        let i = choose|i: int| 0 <= i < s.drop_last().len() && s.drop_last()[i] == c;
        assert(s[i] == c);
    }
}

/// The count of a character over a prefix never exceeds its count over the whole.
pub proof fn lemma_count_char_prefix_monotone(s: Seq<char>, c: char, i: int)
    requires
        0 <= i <= s.len(),
    ensures
        count_char(s.subrange(0, i), c) <= count_char(s, c),
    decreases s.len() - i,
{
    if i < s.len() {
        lemma_count_char_prefix_monotone(s, c, i + 1);
        assert(s.subrange(0, i + 1).drop_last() =~= s.subrange(0, i));
    } else {
        assert(s.subrange(0, i) =~= s);
    }
}

} // verus!
