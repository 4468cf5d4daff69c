//! Character-sequence helpers shared by the detectors, the crawler and the cache.
use vstd::prelude::*;

verus! {

/// The characters of an optional string.
pub open spec fn opt_chars(o: Option<String>) -> Option<Seq<char>> {
    match o {
        Some(s) => Some(s@),
        None => None,
    }
}

/// `p` occurs in `s` as a contiguous run of characters.
pub open spec fn seq_contains(s: Seq<char>, p: Seq<char>) -> bool {
    exists|i: int| 0 <= i && i + p.len() <= s.len() && #[trigger] s.subrange(i, i + p.len()) == p
}

/// Relies on `str::contains`: true when the pattern matches a sub-slice of the string.
#[verifier::external_body]
pub fn str_contains(s: &str, p: &str) -> (r: bool)
    ensures
        r == seq_contains(s@, p@),
{
    s.contains(p)
}

/// Relies on `str`'s `==`: true when both hold the same characters.
#[verifier::external_body]
pub fn str_eq(a: &str, b: &str) -> (r: bool)
    ensures
        r == (a@ == b@),
{
    a == b
}

/// Relies on `str::starts_with`: true when the pattern is a prefix of the string.
#[verifier::external_body]
pub fn str_starts_with(s: &str, p: &str) -> (r: bool)
    ensures
        r == p@.is_prefix_of(s@),
{
    s.starts_with(p)
}

/// Any of the patterns occurs in `s`.
pub open spec fn contains_any(s: Seq<char>, pats: Seq<Seq<char>>) -> bool {
    exists|j: int| 0 <= j < pats.len() && seq_contains(s, #[trigger] pats[j])
}

pub fn contains_any_of(s: &str, pats: &Vec<String>) -> (r: bool)
    ensures
        r == contains_any(s@, pats@.map_values(|p: String| p@)),
{
    let ghost ps = pats@.map_values(|p: String| p@);
    let mut j: usize = 0;
    while j < pats.len()
        invariant
            0 <= j <= pats.len(),
            ps == pats@.map_values(|p: String| p@),
            forall|k: int| 0 <= k < j ==> !seq_contains(s@, #[trigger] ps[k]),
        decreases pats.len() - j,
    {
        if str_contains(s, pats[j].as_str()) {
            assert(seq_contains(s@, ps[j as int]));
            return true;
        }
        j += 1;
    }
    false
}

pub open spec fn digit_char(d: nat) -> char {
    seq!['0', '1', '2', '3', '4', '5', '6', '7', '8', '9', 'a', 'b', 'c', 'd', 'e', 'f'][d as int]
}

/// Base-`b` digits of `n`, most significant first, without leading zeros.
pub open spec fn digits(n: nat, b: nat) -> Seq<char>
    recommends
        2 <= b <= 16,
    decreases n
    via digits_decreases
{
    if b < 2 || n < b {
        seq![digit_char(n)]
    } else {
        digits(n / b, b).push(digit_char(n % b))
    }
}

#[via_fn]
proof fn digits_decreases(n: nat, b: nat) {
    if !(b < 2 || n < b) {
        assert(n / b < n) by (nonlinear_arith)
            requires
                b >= 2,
                n >= b,
        ;
    }
}

pub open spec fn decimal(n: nat) -> Seq<char> {
    digits(n, 10)
}

pub open spec fn hex(n: nat) -> Seq<char> {
    digits(n, 16)
}

fn digit_str(d: u64) -> (r: &'static str)
    requires
        d < 16,
    ensures
        r@ == seq![digit_char(d as nat)],
{
    proof {
        reveal_strlit("0");
        reveal_strlit("1");
        reveal_strlit("2");
        reveal_strlit("3");
        reveal_strlit("4");
        reveal_strlit("5");
        reveal_strlit("6");
        reveal_strlit("7");
        reveal_strlit("8");
        reveal_strlit("9");
        reveal_strlit("a");
        reveal_strlit("b");
        reveal_strlit("c");
        reveal_strlit("d");
        reveal_strlit("e");
        reveal_strlit("f");
    }
    match d {
        0 => "0",
        1 => "1",
        2 => "2",
        3 => "3",
        4 => "4",
        5 => "5",
        6 => "6",
        7 => "7",
        8 => "8",
        9 => "9",
        10 => "a",
        11 => "b",
        12 => "c",
        13 => "d",
        14 => "e",
        _ => "f",
    }
}

/// Digits of `n` in base `b` (2 to 16), lower-case letters above nine.
pub fn format_digits(n: u64, b: u64) -> (r: String)
    requires
        2 <= b <= 16,
    ensures
        r@ == digits(n as nat, b as nat),
    decreases n,
{
    if n < b {
        String::from_str(digit_str(n))
    } else {
        assert(n / b < n) by (nonlinear_arith)
            requires
                b >= 2,
                n >= b,
        ;
        let mut s = format_digits(n / b, b);
        s.append(digit_str(n % b));
        s
    }
}

/// Decimal representation of `n`.
pub fn format_decimal(n: u64) -> (r: String)
    ensures
        r@ == decimal(n as nat),
{
    format_digits(n, 10)
}

/// Index of the first `c` in `s`, or its length.
pub open spec fn first_index(s: Seq<char>, c: char) -> int
    decreases s.len(),
{
    if s.len() == 0 {
        0
    } else if s[0] == c {
        0
    } else {
        1 + first_index(s.drop_first(), c)
    }
}

/// The characters before the first `c`.
pub open spec fn prefix_before(s: Seq<char>, c: char) -> Seq<char> {
    s.subrange(0, first_index(s, c))
}

/// The part before the first `c` holds no `c`.
pub proof fn lemma_prefix_before_has_no(s: Seq<char>, c: char)
    ensures
        !prefix_before(s, c).contains(c),
{
    lemma_first_index(s, c);
    let p = prefix_before(s, c);
    assert forall|k: int| 0 <= k < p.len() implies p[k] != c by {
        assert(p[k] == s[k]);
    }
}

proof fn lemma_first_index(s: Seq<char>, c: char)
    ensures
        0 <= first_index(s, c) <= s.len(),
        forall|k: int| 0 <= k < first_index(s, c) ==> s[k] != c,
        first_index(s, c) < s.len() ==> s[first_index(s, c)] == c,
    decreases s.len(),
{
    if s.len() > 0 && s[0] != c {
        lemma_first_index(s.drop_first(), c);
        assert forall|k: int| 0 <= k < first_index(s, c) implies s[k] != c by {
            if k > 0 {
                assert(s[k] == s.drop_first()[k - 1]);
            }
        }
    }
}

/// Copy of `s` cut before its first `c`.
pub fn cut_before(s: &str, c: char) -> (r: String)
    ensures
        r@ == prefix_before(s@, c),
{
    let n = s.unicode_len();
    let mut i: usize = 0;
    let mut found = false;
    while i < n && !found
        invariant
            n == s@.len(),
            0 <= i <= n,
            forall|k: int| 0 <= k < i ==> s@[k] != c,
            found ==> i < n && s@[i as int] == c,
        decreases n - i + (if found { 0int } else { 1int }),
    {
        if s.get_char(i) == c {
            found = true;
        } else {
            i += 1;
        }
    }
    proof {
        lemma_first_index(s@, c);
        lemma_first_index_is(s@, c, i as int);
    }
    String::from_str(s.substring_char(0, i))
}

proof fn lemma_first_index_is(s: Seq<char>, c: char, i: int)
    requires
        0 <= i <= s.len(),
        forall|k: int| 0 <= k < i ==> s[k] != c,
        i < s.len() ==> s[i] == c,
    ensures
        first_index(s, c) == i,
    decreases s.len(),
{
    if s.len() > 0 && s[0] != c {
        assert forall|k: int| 0 <= k < i - 1 implies s.drop_first()[k] != c by {
            assert(s[k + 1] != c);
        }
        lemma_first_index_is(s.drop_first(), c, i - 1);
    }
}

/// At most `max_len` leading characters of `body`, followed by `...` when
/// anything was cut.
pub open spec fn excerpt(body: Seq<char>, max_len: nat) -> Seq<char> {
    if body.len() > max_len {
        body.subrange(0, max_len as int) + "..."@
    } else {
        body
    }
}

pub fn make_excerpt(body: &str, max_len: usize) -> (r: String)
    ensures
        r@ == excerpt(body@, max_len as nat),
{
    if body.unicode_len() > max_len {
        let mut s = String::from_str(body.substring_char(0, max_len));
        s.append("...");
        s
    } else {
        String::from_str(body)
    }
}

/// `s` with every `c` replaced by `w`.
pub open spec fn replace_char(s: Seq<char>, c: char, w: Seq<char>) -> Seq<char>
    decreases s.len(),
{
    if s.len() == 0 {
        Seq::empty()
    } else {
        replace_char(s.drop_last(), c, w) + if s.last() == c {
            w
        } else {
            seq![s.last()]
        }
    }
}

/// Copy of `s` with every `c` replaced by `w`.
pub fn replace_all(s: &str, c: char, w: &str) -> (r: String)
    ensures
        r@ == replace_char(s@, c, w@),
{
    let n = s.unicode_len();
    let mut out = String::new();
    let mut i: usize = 0;
    while i < n
        invariant
            n == s@.len(),
            0 <= i <= n,
            out@ == replace_char(s@.subrange(0, i as int), c, w@),
        decreases n - i,
    {
        let ch = s.get_char(i);
        assert(s@.subrange(0, i + 1).drop_last() =~= s@.subrange(0, i as int));
        if ch == c {
            out.append(w);
        } else {
            out.append(s.substring_char(i, i + 1));
            assert(s@.subrange(i as int, i + 1) =~= seq![ch]);
        }
        i += 1;
    }
    assert(s@.subrange(0, n as int) =~= s@);
    out
}

} // verus!
