//! Text helpers: decimal numerals and the removal of a known substring.

use vstd::prelude::*;
use vstd::string::*;

verus! {

/// The character that stands for the decimal digit `d`.
pub open spec fn digit_char(d: nat) -> char
    recommends
        d < 10,
{
    if d == 0 {
        '0'
    } else if d == 1 {
        '1'
    } else if d == 2 {
        '2'
    } else if d == 3 {
        '3'
    } else if d == 4 {
        '4'
    } else if d == 5 {
        '5'
    } else if d == 6 {
        '6'
    } else if d == 7 {
        '7'
    } else if d == 8 {
        '8'
    } else {
        '9'
    }
}

/// The decimal numeral of `n`, without sign and without leading zeros.
pub open spec fn decimal_text(n: nat) -> Seq<char>
    decreases n,
{
    if n < 10 {
        seq![digit_char(n)]
    } else {
        decimal_text(n / 10).push(digit_char(n % 10))
    }
}

/// Whether `s` begins with `pat`.
pub open spec fn starts_with(s: Seq<char>, pat: Seq<char>) -> bool {
    pat.len() <= s.len() && s.subrange(0, pat.len() as int) == pat
}

/// `s` with every occurrence of `pat` taken out, found from the left and
/// never overlapping. An empty `pat` occurs nowhere.
pub open spec fn without(s: Seq<char>, pat: Seq<char>) -> Seq<char>
    decreases s.len(),
{
    if pat.len() == 0 || s.len() == 0 {
        s
    } else if starts_with(s, pat) {
        without(s.skip(pat.len() as int), pat)
    } else {
        seq![s[0]] + without(s.skip(1), pat)
    }
}

/// The views of a list of strings, in order.
pub open spec fn texts(v: Seq<String>) -> Seq<Seq<char>> {
    Seq::new(v.len(), |i: int| v[i]@)
}

fn digit_str(d: u64) -> (s: &'static str)
    requires
        d < 10,
    ensures
        s@ == seq![digit_char(d as nat)],
{
    proof {
        reveal_strlit("0");
        reveal_strlit("1");
        reveal_strlit("2");
        reveal_strlit("3");
        reveal_strlit("4");
        reveal_strlit("5");
        reveal_strlit("6");
        reveal_strlit("7");
        reveal_strlit("8");
        reveal_strlit("9");
    }
    let s: &'static str = if d == 0 {
        "0"
    } else if d == 1 {
        "1"
    } else if d == 2 {
        "2"
    } else if d == 3 {
        "3"
    } else if d == 4 {
        "4"
    } else if d == 5 {
        "5"
    } else if d == 6 {
        "6"
    } else if d == 7 {
        "7"
    } else if d == 8 {
        "8"
    } else {
        "9"
    };
    assert(s@ =~= seq![digit_char(d as nat)]);
    s
}

/// Writes `n` in decimal.
pub fn decimal(n: u64) -> (s: String)
    ensures
        s@ == decimal_text(n as nat),
    decreases n,
{
    if n < 10 {
        String::from_str(digit_str(n))
    } else {
        let mut s: String = decimal(n / 10);
        s.append(digit_str(n % 10));
        assert(s@ =~= decimal_text((n / 10) as nat).push(digit_char((n % 10) as nat)));
        s
    }
}

/// `first` followed by `second`.
pub fn joined(first: &str, second: &str) -> (s: String)
    ensures
        s@ == first@ + second@,
{
    let mut s: String = String::from_str(first);
    s.append(second);
    s
}

fn occurs_at(s: &str, pat: &str, at: usize, n: usize, m: usize) -> (b: bool)
    requires
        n == s@.len(),
        m == pat@.len(),
        at <= n,
    ensures
        b == starts_with(s@.skip(at as int), pat@),
{
    if m > n - at {
        return false;
    }
    let mut k: usize = 0;
    while k < m
        invariant
            k <= m,
            m <= n - at,
            at <= n,
            n == s@.len(),
            m == pat@.len(),
            forall|j: int| 0 <= j < k ==> s@[at + j] == pat@[j],
        decreases m - k,
    {
        if s.get_char(at + k) != pat.get_char(k) {
            assert(s@.skip(at as int).subrange(0, m as int)[k as int] == s@[at + k]);
            return false;
        }
        k += 1;
    }
    assert(s@.skip(at as int).subrange(0, m as int) =~= pat@);
    true
}

/// Takes every occurrence of `pat` out of `s`.
pub fn remove_all(s: &str, pat: &str) -> (out: String)
    ensures
        out@ == without(s@, pat@),
{
    let n: usize = s.unicode_len();
    let m: usize = pat.unicode_len();
    if m == 0 {
        return String::from_str(s);
    }
    let mut out: String = String::new();
    let mut i: usize = 0;
    assert(s@.skip(0) =~= s@);
    while i < n
        invariant
            i <= n,
            n == s@.len(),
            m == pat@.len(),
            m > 0,
            out@ + without(s@.skip(i as int), pat@) == without(s@, pat@),
        decreases n - i,
    {
        let ghost rest = s@.skip(i as int);
        let ghost before = out@;
        if occurs_at(s, pat, i, n, m) {
            assert(rest.skip(m as int) =~= s@.skip(i + m));
            i += m;
        } else {
            out.append(s.substring_char(i, i + 1));
            proof {
                assert(s@.subrange(i as int, i + 1) =~= seq![rest[0]]);
                assert(rest.skip(1) =~= s@.skip(i + 1));
                assert(before + (seq![rest[0]] + without(rest.skip(1), pat@)) =~= (before
                    + seq![rest[0]]) + without(rest.skip(1), pat@));
            }
            i += 1;
        }
    }
    assert(s@.skip(n as int) =~= Seq::<char>::empty());
    assert(out@ + Seq::<char>::empty() =~= out@);
    out
}

/// A pattern that holds a character which `s` lacks occurs nowhere in `s`.
pub proof fn lemma_without_absent(s: Seq<char>, pat: Seq<char>, c: char)
    requires
        pat.contains(c),
        !s.contains(c),
    ensures
        without(s, pat) == s,
    decreases s.len(),
{
    if s.len() > 0 {
        if starts_with(s, pat) {
            let i = choose|i: int| 0 <= i < pat.len() && pat[i] == c;
            assert(s.subrange(0, pat.len() as int)[i] == s[i]);
            assert(s.contains(c));
        } else {
            let rest = s.skip(1);
            assert forall|j: int| 0 <= j < rest.len() implies rest[j] != c by {
                assert(rest[j] == s[j + 1]);
                if rest[j] == c {
                    assert(s.contains(c));
                }
            }
            assert(!rest.contains(c));
            lemma_without_absent(rest, pat, c);
            assert(seq![s[0]] + rest =~= s);
        }
    }
}

/// Taking a prefix that ends in a slash out of that prefix followed by an
/// identifier without a slash leaves exactly the identifier.
pub proof fn lemma_prefix_removed(prefix: Seq<char>, id: Seq<char>)
    requires
        prefix.len() > 0,
        prefix.last() == '/',
        !id.contains('/'),
    ensures
        without(prefix + id, prefix) == id,
        !without(prefix + id, prefix).contains('/'),
{
    let whole = prefix + id;
    assert(whole.subrange(0, prefix.len() as int) =~= prefix);
    assert(whole.skip(prefix.len() as int) =~= id);
    assert(prefix[prefix.len() - 1] == '/');
    assert(prefix.contains('/'));
    lemma_without_absent(id, prefix, '/');
    if id.len() == 0 {
        assert(without(whole, prefix) == without(id, prefix));
    }
}

} // verus!
