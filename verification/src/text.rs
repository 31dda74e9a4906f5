//! Character-level text handling: the specifications of the small string
//! operations that configuration parsing relies on, and verified code for them.
use vstd::prelude::*;
use vstd::string::StringExecFns;

verus! {

// ---------------------------------------------------------------------------
// Specifications
// ---------------------------------------------------------------------------

/// Unicode `White_Space`, the set that `char::is_whitespace` and `str::trim` use.
pub open spec fn is_whitespace(c: char) -> bool {
    ||| c == '\t'
    ||| c == '\n'
    ||| c == '\u{0B}'
    ||| c == '\u{0C}'
    ||| c == '\r'
    ||| c == ' '
    ||| c == '\u{85}'
    ||| c == '\u{A0}'
    ||| c == '\u{1680}'
    ||| ('\u{2000}' <= c && c <= '\u{200A}')
    ||| c == '\u{2028}'
    ||| c == '\u{2029}'
    ||| c == '\u{202F}'
    ||| c == '\u{205F}'
    ||| c == '\u{3000}'
}

/// The position of the first `c` in `t`, or the length of `t` when it has none.
pub open spec fn index_of(t: Seq<char>, c: char) -> nat
    decreases t.len(),
{
    if t.len() == 0 || t[0] == c {
        0
    } else {
        1 + index_of(t.drop_first(), c)
    }
}

/// The number of whitespace characters that `t` starts with.
pub open spec fn leading_whitespace(t: Seq<char>) -> nat
    decreases t.len(),
{
    if t.len() > 0 && is_whitespace(t[0]) {
        1 + leading_whitespace(t.drop_first())
    } else {
        0
    }
}

/// The number of whitespace characters that `t` ends with.
pub open spec fn trailing_whitespace(t: Seq<char>) -> nat
    decreases t.len(),
{
    if t.len() > 0 && is_whitespace(t.last()) {
        1 + trailing_whitespace(t.drop_last())
    } else {
        0
    }
}

/// `t` without whitespace at its start and at its end (`str::trim`).
pub open spec fn trim(t: Seq<char>) -> Seq<char> {
    let s = t.skip(leading_whitespace(t) as int);
    s.take(s.len() - trailing_whitespace(s))
}

/// `t` without one carriage return at its end.
pub open spec fn strip_cr(t: Seq<char>) -> Seq<char> {
    if t.len() > 0 && t.last() == '\r' {
        t.drop_last()
    } else {
        t
    }
}

/// The lines of `t` as `str::lines` yields them: split after each `\n`, with
/// the `\n` (and a `\r` just before it) removed and no empty line after a
/// final `\n`.
pub open spec fn lines(t: Seq<char>) -> Seq<Seq<char>>
    decreases t.len(),
{
    if t.len() == 0 {
        Seq::empty()
    } else {
        let i = index_of(t, '\n');
        if i >= t.len() {
            seq![t]
        } else {
            seq![strip_cr(t.take(i as int))] + lines(t.skip(i + 1 as int))
        }
    }
}

/// `t` without a surrounding pair of double quotes.
pub open spec fn unquote(t: Seq<char>) -> Seq<char> {
    if t.len() >= 2 && t[0] == '"' && t.last() == '"' {
        t.subrange(1, t.len() - 1)
    } else {
        t
    }
}

/// `c` with ASCII upper case letters turned to lower case.
pub open spec fn ascii_lower(c: char) -> char {
    if 'A' <= c && c <= 'Z' {
        ((c as u32) + 32) as char
    } else {
        c
    }
}

/// `t` with ASCII upper case letters turned to lower case.
pub open spec fn ascii_lowercase(t: Seq<char>) -> Seq<char> {
    Seq::new(t.len(), |i: int| ascii_lower(t[i]))
}

pub open spec fn is_digit(c: char) -> bool {
    '0' <= c && c <= '9'
}

pub open spec fn digit_value(c: char) -> nat {
    ((c as u32) - 48) as nat
}

/// The character that writes the digit `d`.
pub open spec fn digit_char(d: nat) -> char {
    ((d + 48) as u32) as char
}

pub open spec fn all_digits(t: Seq<char>) -> bool {
    forall|i: int| 0 <= i < t.len() ==> is_digit(#[trigger] t[i])
}

/// The number that the decimal digits `t` write.
pub open spec fn decimal_value(t: Seq<char>) -> nat
    decreases t.len(),
{
    if t.len() == 0 {
        0
    } else {
        decimal_value(t.drop_last()) * 10 + digit_value(t.last())
    }
}

/// What `str::parse` gives for an unsigned integer type whose largest value is
/// `max`: an optional `+`, then one or more decimal digits, of a value that fits.
pub open spec fn unsigned_value(t: Seq<char>, max: nat) -> Option<nat> {
    let d = if t.len() > 0 && t[0] == '+' {
        t.drop_first()
    } else {
        t
    };
    if d.len() > 0 && all_digits(d) && decimal_value(d) <= max {
        Some(decimal_value(d))
    } else {
        None
    }
}

/// The decimal digits of `n`, without leading zeros.
pub open spec fn decimal_text(n: nat) -> Seq<char>
    decreases n,
{
    if n < 10 {
        seq![digit_char(n)]
    } else {
        decimal_text(n / 10).push(digit_char(n % 10))
    }
}

// ---------------------------------------------------------------------------
// Lemmas
// ---------------------------------------------------------------------------

/// `index_of` is the first position of `c`, or the length when `c` is absent.
pub proof fn lemma_index_of(t: Seq<char>, c: char)
    ensures
        index_of(t, c) <= t.len(),
        index_of(t, c) < t.len() ==> t[index_of(t, c) as int] == c,
        forall|i: int| 0 <= i < index_of(t, c) ==> t[i] != c,
    decreases t.len(),
{
    if t.len() > 0 && t[0] != c {
        lemma_index_of(t.drop_first(), c);
        assert forall|i: int| 0 <= i < index_of(t, c) implies t[i] != c by {
            if i > 0 {
                assert(t[i] == t.drop_first()[i - 1]);
            }
        }
    }
}

/// A position before which `c` does not occur, and at which it occurs or the
/// text ends, is `index_of`.
pub proof fn lemma_index_of_at(t: Seq<char>, c: char, k: int)
    requires
        0 <= k <= t.len(),
        forall|i: int| 0 <= i < k ==> t[i] != c,
        k == t.len() || t[k] == c,
    ensures
        index_of(t, c) == k,
{
    lemma_index_of(t, c);
    if index_of(t, c) < k {
        assert(t[index_of(t, c) as int] == c);
    }
    if index_of(t, c) > k {
        assert(t[k] != c);
    }
}

pub proof fn lemma_leading_whitespace_at(t: Seq<char>, k: int)
    requires
        0 <= k <= t.len(),
        forall|i: int| 0 <= i < k ==> is_whitespace(#[trigger] t[i]),
        k == t.len() || !is_whitespace(t[k]),
    ensures
        leading_whitespace(t) == k,
    decreases t.len(),
{
    if k > 0 {
        assert(is_whitespace(t[0]));
        assert forall|i: int| 0 <= i < k - 1 implies is_whitespace(#[trigger] t.drop_first()[i]) by {
            assert(t.drop_first()[i] == t[i + 1]);
        }
        if k < t.len() {
            assert(t.drop_first()[k - 1] == t[k]);
        }
        lemma_leading_whitespace_at(t.drop_first(), k - 1);
    }
}

pub proof fn lemma_trailing_whitespace_at(t: Seq<char>, k: int)
    requires
        0 <= k <= t.len(),
        forall|i: int| t.len() - k <= i < t.len() ==> is_whitespace(#[trigger] t[i]),
        k == t.len() || !is_whitespace(t[t.len() - 1 - k]),
    ensures
        trailing_whitespace(t) == k,
    decreases t.len(),
{
    if k > 0 {
        assert(is_whitespace(t[t.len() - 1]));
        let u = t.drop_last();
        assert forall|i: int| u.len() - (k - 1) <= i < u.len() implies is_whitespace(#[trigger] u[i]) by {
            assert(u[i] == t[i]);
        }
        if k < t.len() {
            assert(u[u.len() - 1 - (k - 1)] == t[t.len() - 1 - k]);
        }
        lemma_trailing_whitespace_at(u, k - 1);
    }
}

/// Each further digit can only make a number larger.
pub proof fn lemma_decimal_prefix_le(t: Seq<char>, k: int)
    requires
        0 <= k <= t.len(),
    ensures
        decimal_value(t.take(k)) <= decimal_value(t),
    decreases t.len() - k,
{
    if k < t.len() {
        lemma_decimal_prefix_le(t, k + 1);
        assert(t.take(k + 1).drop_last() =~= t.take(k));
    } else {
        assert(t.take(k) =~= t);
    }
}

// ---------------------------------------------------------------------------
// Verified operations
// ---------------------------------------------------------------------------

/// The characters of `s`.
pub fn chars_of(s: &str) -> (v: Vec<char>)
    ensures
        v@ == s@,
{
    let mut v: Vec<char> = Vec::new();
    for c in it: s.chars()
        invariant
            v@ == it.seq().take(it.index() as int),
    {
        v.push(c);
    }
    v
}

/// The position of the first `c` in `s[lo..hi]`, counted from the start of `s`,
/// or `hi` when there is none.
pub fn find_char(s: &Vec<char>, lo: usize, hi: usize, c: char) -> (r: usize)
    requires
        lo <= hi <= s.len(),
    ensures
        lo <= r <= hi,
        r - lo == index_of(s@.subrange(lo as int, hi as int), c),
{
    let mut i = lo;
    while i < hi && s[i] != c
        invariant
            lo <= i <= hi <= s.len(),
            forall|k: int| lo <= k < i ==> s@[k] != c,
        decreases hi - i,
    {
        i = i + 1;
    }
    proof {
        let t = s@.subrange(lo as int, hi as int);
        assert forall|k: int| 0 <= k < i - lo implies t[k] != c by {
            assert(t[k] == s@[lo + k]);
        }
        lemma_index_of_at(t, c, i - lo);
    }
    i
}

/// Whether `c` is white space in the sense of `char::is_whitespace`.
pub fn is_whitespace_char(c: char) -> (b: bool)
    ensures
        b == is_whitespace(c),
{
    c == '\t' || c == '\n' || c == '\u{0B}' || c == '\u{0C}' || c == '\r' || c == ' '
        || c == '\u{85}' || c == '\u{A0}' || c == '\u{1680}' || ('\u{2000}' <= c && c
        <= '\u{200A}') || c == '\u{2028}' || c == '\u{2029}' || c == '\u{202F}' || c
        == '\u{205F}' || c == '\u{3000}'
}

/// The bounds of `s[lo..hi]` trimmed of white space at both ends.
pub fn trim_range(s: &Vec<char>, lo: usize, hi: usize) -> (r: (usize, usize))
    requires
        lo <= hi <= s.len(),
    ensures
        lo <= r.0 <= r.1 <= hi,
        s@.subrange(r.0 as int, r.1 as int) == trim(s@.subrange(lo as int, hi as int)),
{
    let mut a = lo;
    while a < hi && is_whitespace_char(s[a])
        invariant
            lo <= a <= hi <= s.len(),
            forall|k: int| lo <= k < a ==> is_whitespace(#[trigger] s@[k]),
        decreases hi - a,
    {
        a = a + 1;
    }
    let mut b = hi;
    while b > a && is_whitespace_char(s[b - 1])
        invariant
            lo <= a <= b <= hi <= s.len(),
            forall|k: int| b <= k < hi ==> is_whitespace(#[trigger] s@[k]),
        decreases b - a,
    {
        b = b - 1;
    }
    proof {
        let t = s@.subrange(lo as int, hi as int);
        assert forall|k: int| 0 <= k < a - lo implies is_whitespace(#[trigger] t[k]) by {
            assert(t[k] == s@[lo + k]);
        }
        if a < hi {
            assert(t[a - lo] == s@[a as int]);
        }
        lemma_leading_whitespace_at(t, a - lo);
        let u = t.skip(leading_whitespace(t) as int);
        assert(u =~= s@.subrange(a as int, hi as int));
        assert forall|k: int| u.len() - (hi - b) <= k < u.len() implies is_whitespace(
            #[trigger] u[k],
        ) by {
            assert(u[k] == s@[a + k]);
        }
        if b > a {
            assert(u[u.len() - 1 - (hi - b)] == s@[b - 1]);
        }
        lemma_trailing_whitespace_at(u, hi - b);
        assert(u.take(u.len() - trailing_whitespace(u)) =~= s@.subrange(a as int, b as int));
    }
    (a, b)
}

/// Whether `s[lo..hi]` is the text `w`.
pub fn range_eq(s: &Vec<char>, lo: usize, hi: usize, w: &Vec<char>) -> (b: bool)
    requires
        lo <= hi <= s.len(),
    ensures
        b == (s@.subrange(lo as int, hi as int) == w@),
{
    if hi - lo != w.len() {
        return false;
    }
    let mut i: usize = 0;
    while i < w.len()
        invariant
            lo <= hi <= s.len(),
            hi - lo == w.len(),
            i <= w.len(),
            forall|k: int| 0 <= k < i ==> s@[lo + k] == w@[k],
        decreases w.len() - i,
    {
        if s[lo + i] != w[i] {
            assert(s@.subrange(lo as int, hi as int)[i as int] != w@[i as int]);
            return false;
        }
        i = i + 1;
    }
    assert(s@.subrange(lo as int, hi as int) =~= w@);
    true
}

/// `c` with ASCII upper case letters turned to lower case.
pub fn to_ascii_lower(c: char) -> (r: char)
    ensures
        r == ascii_lower(c),
{
    if 'A' <= c && c <= 'Z' {
        let code: u32 = (c as u32) + 32;
        let lowered: u8 = code as u8;
        lowered as char
    } else {
        c
    }
}

/// Whether `s[lo..hi]`, with ASCII letters turned to lower case, is the text `w`.
pub fn range_eq_ignoring_ascii_case(s: &Vec<char>, lo: usize, hi: usize, w: &Vec<char>) -> (b:
    bool)
    requires
        lo <= hi <= s.len(),
    ensures
        b == (ascii_lowercase(s@.subrange(lo as int, hi as int)) == w@),
{
    let ghost t = s@.subrange(lo as int, hi as int);
    if hi - lo != w.len() {
        assert(ascii_lowercase(t).len() != w@.len());
        return false;
    }
    let mut i: usize = 0;
    while i < w.len()
        invariant
            lo <= hi <= s.len(),
            hi - lo == w.len(),
            i <= w.len(),
            t == s@.subrange(lo as int, hi as int),
            forall|k: int| 0 <= k < i ==> ascii_lower(s@[lo + k]) == w@[k],
        decreases w.len() - i,
    {
        if to_ascii_lower(s[lo + i]) != w[i] {
            assert(ascii_lowercase(t)[i as int] != w@[i as int]);
            return false;
        }
        i = i + 1;
    }
    assert(ascii_lowercase(t) =~= w@);
    true
}

/// What `str::parse` gives for `s[lo..hi]` as an unsigned integer whose
/// largest value is `max`.
pub fn parse_unsigned(s: &Vec<char>, lo: usize, hi: usize, max: u64) -> (r: Option<u64>)
    requires
        lo <= hi <= s.len(),
    ensures
        match unsigned_value(s@.subrange(lo as int, hi as int), max as nat) {
            Some(n) => r == Some(n as u64),
            None => r is None,
        },
{
    let ghost t = s@.subrange(lo as int, hi as int);
    let start = if lo < hi && s[lo] == '+' {
        lo + 1
    } else {
        lo
    };
    let ghost d = s@.subrange(start as int, hi as int);
    assert(d =~= (if t.len() > 0 && t[0] == '+' {
        t.drop_first()
    } else {
        t
    }));
    if start == hi {
        return None;
    }
    let mut value: u128 = 0;
    let mut i = start;
    while i < hi
        invariant
            lo <= start <= i <= hi <= s.len(),
            d == s@.subrange(start as int, hi as int),
            t == s@.subrange(lo as int, hi as int),
            d == (if t.len() > 0 && t[0] == '+' {
                t.drop_first()
            } else {
                t
            }),
            d.len() > 0,
            value <= max,
            value == decimal_value(d.take(i - start)),
            forall|k: int| 0 <= k < i - start ==> is_digit(#[trigger] d[k]),
        decreases hi - i,
    {
        let c = s[i];
        assert(d[i - start] == c);
        if !('0' <= c && c <= '9') {
            assert(!is_digit(d[i - start]));
            return None;
        }
        let next: u128 = value * 10 + ((c as u32) - 48) as u128;
        assert(d.take(i - start + 1).drop_last() =~= d.take(i - start));
        assert(d.take(i - start + 1).last() == c);
        assert(next == decimal_value(d.take(i - start + 1)));
        if next > max as u128 {
            proof {
                lemma_decimal_prefix_le(d, i - start + 1);
            }
            return None;
        }
        value = next;
        i = i + 1;
    }
    assert(d.take(i - start) =~= d);
    Some(value as u64)
}

/// Appends the decimal digits of `n` to `out`.
pub fn push_decimal(out: &mut String, n: u64)
    ensures
        final(out)@ == old(out)@ + decimal_text(n as nat),
    decreases n,
{
    if n >= 10 {
        push_decimal(out, n / 10);
    }
    out.append(digit_str((n % 10) as u8));
}

/// The one-character text of the digit `d`.
pub fn digit_str(d: u8) -> (r: &'static str)
    requires
        d < 10,
    ensures
        r@ == seq![digit_char(d as nat)],
{
    proof {
        reveal_strlit("0");
        reveal_strlit("1");
        reveal_strlit("2");
        reveal_strlit("3");
        reveal_strlit("4");
        reveal_strlit("5");
        reveal_strlit("6");
        reveal_strlit("7");
        reveal_strlit("8");
        reveal_strlit("9");
    }
    match d {
        0 => "0",
        1 => "1",
        2 => "2",
        3 => "3",
        4 => "4",
        5 => "5",
        6 => "6",
        7 => "7",
        8 => "8",
        _ => "9",
    }
}

} // verus!
