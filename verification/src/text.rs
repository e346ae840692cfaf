//! Small verified text helpers: decimal rendering of integers and
//! prefix / substring tests over character sequences.

use vstd::prelude::*;
use vstd::string::*;

verus! {

/// The character of the decimal digit `d` (for `d < 10`).
pub open spec fn digit_char(d: nat) -> char {
    ((('0' as u32) as int) + d) as char
}

/// The decimal rendering of `n`, most significant digit first, with no
/// leading zeros (zero renders as `"0"`).
pub open spec fn decimal(n: nat) -> Seq<char>
    decreases n,
{
    if n < 10 {
        seq![digit_char(n)]
    } else {
        decimal(n / 10).push(digit_char(n % 10))
    }
}

/// The number a string of decimal digits stands for.
pub open spec fn digits_value(s: Seq<char>) -> int
    decreases s.len(),
{
    if s.len() == 0 {
        0
    } else {
        digits_value(s.drop_last()) * 10 + ((s.last() as u32) as int - ('0' as u32) as int)
    }
}

/// Decimal rendering in plain terms: the rendering of `n` is a non-empty
/// string of the characters `0` to `9` that stands for `n`, with no leading
/// zero unless `n` is zero.
pub proof fn lemma_decimal_digits(n: nat)
    ensures
        decimal(n).len() > 0,
        forall|i: int| 0 <= i < decimal(n).len() ==> '0' <= #[trigger] decimal(n)[i] <= '9',
        digits_value(decimal(n)) == n,
        decimal(n)[0] == '0' ==> n == 0,
    decreases n,
{
    if n >= 10 {
        lemma_decimal_digits(n / 10);
        let d = decimal(n);
        assert(d.drop_last() =~= decimal(n / 10));
        assert(d[0] == decimal(n / 10)[0]);
        assert forall|i: int| 0 <= i < d.len() implies '0' <= #[trigger] d[i] <= '9' by {
            if i < d.len() - 1 {
                assert(d[i] == decimal(n / 10)[i]);
            }
        }
        assert(((d.last() as u32) as int) == 48 + n % 10);
        assert(n == (n / 10) * 10 + n % 10);
        assert((('0' as u32) as int) == 48);
        assert(digits_value(d) == digits_value(d.drop_last()) * 10 + ((d.last() as u32) as int - (
        '0' as u32) as int));
        assert(digits_value(d.drop_last()) == n / 10);
    } else {
        assert((('0' as u32) as int) == 48);
        assert(((decimal(n).last() as u32) as int) == 48 + n);
        assert(decimal(n).drop_last() =~= Seq::<char>::empty());
        assert(digits_value(decimal(n).drop_last()) == 0);
        assert(digits_value(decimal(n)) == digits_value(decimal(n).drop_last()) * 10 + ((decimal(
            n,
        ).last() as u32) as int - ('0' as u32) as int));
    }
}

fn digit_str(d: u64) -> (s: &'static str)
    requires
        d < 10,
    ensures
        s@ == seq![digit_char(d as nat)],
{
    proof {
        reveal_strlit("0");
        reveal_strlit("1");
        reveal_strlit("2");
        reveal_strlit("3");
        reveal_strlit("4");
        reveal_strlit("5");
        reveal_strlit("6");
        reveal_strlit("7");
        reveal_strlit("8");
        reveal_strlit("9");
    }
    match d {
        0 => "0",
        1 => "1",
        2 => "2",
        3 => "3",
        4 => "4",
        5 => "5",
        6 => "6",
        7 => "7",
        8 => "8",
        _ => "9",
    }
}

/// Appends the decimal rendering of `n` to `out`.
pub fn push_decimal(out: &mut String, n: u64)
    ensures
        final(out)@ == old(out)@ + decimal(n as nat),
    decreases n,
{
    if n >= 10 {
        push_decimal(out, n / 10);
    }
    out.append(digit_str(n % 10));
    proof {
        if n < 10 {
            assert(n % 10 == n);
        }
    }
}


/// Whether `s` begins with `prefix`.
pub open spec fn starts_with(s: Seq<char>, prefix: Seq<char>) -> bool {
    prefix.len() <= s.len() && s.subrange(0, prefix.len() as int) == prefix
}

/// Whether `needle` occurs in `s` as a contiguous run of characters.
pub open spec fn contains(s: Seq<char>, needle: Seq<char>) -> bool {
    exists|i: int|
        0 <= i && i + needle.len() <= s.len() && #[trigger] s.subrange(i, i + needle.len())
            == needle
}

/// The characters of `s`, one by one.
pub fn chars_of(s: &str) -> (chars: Vec<char>)
    ensures
        chars@ == s@,
{
    let n = s.unicode_len();
    let mut chars: Vec<char> = Vec::new();
    for i in 0..n
        invariant
            n == s@.len(),
            chars@ == s@.subrange(0, i as int),
    {
        chars.push(s.get_char(i));
        assert(chars@ =~= s@.subrange(0, i + 1));
    }
    assert(chars@ =~= s@);
    chars
}

/// Whether `s[at..at + needle.len()]` is `needle`.
fn matches_at(s: &Vec<char>, at: usize, needle: &Vec<char>) -> (r: bool)
    requires
        at + needle.len() <= s.len(),
    ensures
        r == (s@.subrange(at as int, at + needle.len()) == needle@),
{
    let n = needle.len();
    for k in 0..n
        invariant
            n == needle.len(),
            at + n <= s.len(),
            forall|m: int| 0 <= m < k ==> s@[at + m] == needle@[m],
    {
        if s[at + k] != needle[k] {
            assert(s@.subrange(at as int, at + n)[k as int] != needle@[k as int]);
            return false;
        }
    }
    assert(s@.subrange(at as int, at + n) =~= needle@);
    true
}

/// Whether `s` begins with `prefix`.
pub fn has_prefix(s: &str, prefix: &str) -> (r: bool)
    ensures
        r == starts_with(s@, prefix@),
{
    let sc = chars_of(s);
    let pc = chars_of(prefix);
    if pc.len() > sc.len() {
        return false;
    }
    matches_at(&sc, 0, &pc)
}

/// Whether `needle` occurs in `s`.
pub fn has_substring(s: &str, needle: &str) -> (r: bool)
    ensures
        r == contains(s@, needle@),
{
    let sc = chars_of(s);
    let nc = chars_of(needle);
    if nc.len() > sc.len() {
        return false;
    }
    let last = sc.len() - nc.len();
    let mut i: usize = 0;
    loop
        invariant
            i <= last,
            last + nc@.len() == sc@.len(),
            sc@ == s@,
            nc@ == needle@,
            forall|j: int| 0 <= j < i ==> #[trigger] sc@.subrange(j, j + nc@.len()) != nc@,
        decreases last - i,
    {
        if matches_at(&sc, i, &nc) {
            return true;
        }
        if i == last {
            assert forall|j: int|
                0 <= j && j + needle@.len() <= s@.len() implies #[trigger] s@.subrange(
                j,
                j + needle@.len(),
            ) != needle@ by {
                assert(j <= i);
            }
            return false;
        }
        i = i + 1;
    }
}

} // verus!
