//! Character-level text helpers: white space, trimming, lines and tokens.
//!
//! Every text is modelled by its sequence of characters. The executable
//! helpers work on a `Vec<char>` and on index ranges into it, so that a scan
//! never copies the text it reads.

use vstd::prelude::*;

verus! {

/// Whether `c` carries the Unicode `White_Space` property.
pub open spec fn is_space(c: char) -> bool {
    let n = c as u32;
    (0x09 <= n && n <= 0x0D) || n == 0x20 || n == 0x85 || n == 0xA0 || n == 0x1680 || (0x2000 <= n
        && n <= 0x200A) || n == 0x2028 || n == 0x2029 || n == 0x202F || n == 0x205F || n == 0x3000
}

/// `s` without its leading white space.
pub open spec fn trim_start(s: Seq<char>) -> Seq<char>
    decreases s.len(),
{
    if s.len() > 0 && is_space(s[0]) {
        trim_start(s.skip(1))
    } else {
        s
    }
}

/// `s` without its trailing white space.
pub open spec fn trim_end(s: Seq<char>) -> Seq<char>
    decreases s.len(),
{
    if s.len() > 0 && is_space(s.last()) {
        trim_end(s.drop_last())
    } else {
        s
    }
}

/// `s` without leading and trailing white space.
pub open spec fn trim(s: Seq<char>) -> Seq<char> {
    trim_end(trim_start(s))
}

/// Whether `s` begins with `p`.
pub open spec fn starts_with(s: Seq<char>, p: Seq<char>) -> bool {
    p.len() <= s.len() && s.subrange(0, p.len() as int) == p
}

/// The longest prefix of `s` that holds no white space.
pub open spec fn leading_word(s: Seq<char>) -> Seq<char>
    decreases s.len(),
{
    if s.len() == 0 || is_space(s[0]) {
        Seq::<char>::empty()
    } else {
        seq![s[0]] + leading_word(s.skip(1))
    }
}

/// The first white-space-delimited token of `s`, empty where `s` has none.
pub open spec fn first_token(s: Seq<char>) -> Seq<char> {
    leading_word(trim_start(s))
}

/// The number of characters before the first line feed of `s`, or the length
/// of `s` where it holds none.
pub open spec fn line_len(s: Seq<char>) -> int
    decreases s.len(),
{
    if s.len() == 0 || s[0] == '\n' {
        0
    } else {
        1 + line_len(s.skip(1))
    }
}

/// `s` without one trailing carriage return.
pub open spec fn strip_cr(s: Seq<char>) -> Seq<char> {
    if s.len() > 0 && s.last() == '\r' {
        s.drop_last()
    } else {
        s
    }
}

/// The lines of `s`. A line ends at a line feed, or at a carriage return
/// directly followed by one; the terminator is not part of the line. A last
/// line without a line feed is a line as it stands, and a text that ends in a
/// line feed has no empty line after it.
pub open spec fn lines(s: Seq<char>) -> Seq<Seq<char>>
    decreases s.len(),
{
    if s.len() == 0 {
        Seq::<Seq<char>>::empty()
    } else {
        let n = line_len(s);
        if 0 <= n < s.len() {
            seq![strip_cr(s.take(n))] + lines(s.skip(n + 1))
        } else {
            seq![s]
        }
    }
}

/// Whether `p` occurs in `s` at offset `i`.
pub open spec fn occurs_at(s: Seq<char>, p: Seq<char>, i: int) -> bool {
    0 <= i && i + p.len() <= s.len() && s.subrange(i, i + p.len()) == p
}

/// Whether `p` occurs somewhere in `s`.
pub open spec fn contains_text(s: Seq<char>, p: Seq<char>) -> bool {
    exists|i: int| occurs_at(s, p, i)
}

/// `line_len` stays within `s`, stops at a line feed and passes none.
proof fn lemma_line_len_bounds(s: Seq<char>)
    ensures
        0 <= line_len(s) <= s.len(),
        line_len(s) < s.len() ==> s[line_len(s)] == '\n',
        forall|k: int| 0 <= k < line_len(s) ==> s[k] != '\n',
    decreases s.len(),
{
    if s.len() == 0 || s[0] == '\n' {
    } else {
        lemma_line_len_bounds(s.skip(1));
        let t = s.skip(1);
        assert forall|k: int| 0 <= k < line_len(s) implies s[k] != '\n' by {
            if k > 0 {
                assert(t[k - 1] == s[k]);
            }
        }
        if line_len(s) < s.len() {
            assert(t[line_len(t)] == s[line_len(s)]);
        }
    }
}

/// The first line feed of `s` is where `line_len` says.
proof fn lemma_line_len_is(s: Seq<char>, n: int)
    requires
        0 <= n <= s.len(),
        forall|k: int| 0 <= k < n ==> s[k] != '\n',
        n < s.len() ==> s[n] == '\n',
    ensures
        line_len(s) == n,
{
    lemma_line_len_bounds(s);
    let m = line_len(s);
    if m < n {
        assert(s[m] == '\n');
    } else if n < m {
        assert(s[n] == '\n');
    }
}

/// Trimming at the start skips the white space up to the first character
/// that is none.
proof fn lemma_trim_start_is_skip(s: Seq<char>, a: int)
    requires
        0 <= a <= s.len(),
        forall|k: int| 0 <= k < a ==> is_space(s[k]),
        a < s.len() ==> !is_space(s[a]),
    ensures
        trim_start(s) == s.skip(a),
    decreases a,
{
    if a == 0 {
        assert(s.skip(0) =~= s);
    } else {
        let t = s.skip(1);
        assert forall|k: int| 0 <= k < a - 1 implies is_space(t[k]) by {
            assert(t[k] == s[k + 1]);
        }
        lemma_trim_start_is_skip(t, a - 1);
        assert(t.skip(a - 1) =~= s.skip(a));
    }
}

/// Trimming at the end keeps the characters up to the last one that is no
/// white space.
proof fn lemma_trim_end_is_take(s: Seq<char>, b: int)
    requires
        0 <= b <= s.len(),
        forall|k: int| b <= k < s.len() ==> is_space(s[k]),
        b > 0 ==> !is_space(s[b - 1]),
    ensures
        trim_end(s) == s.take(b),
    decreases s.len() - b,
{
    if b == s.len() {
        assert(s.take(b) =~= s);
    } else {
        let t = s.drop_last();
        lemma_trim_end_is_take(t, b);
        assert(t.take(b) =~= s.take(b));
    }
}

/// The leading word is the characters before the first white space.
pub proof fn lemma_leading_word_is_take(s: Seq<char>, n: int)
    requires
        0 <= n <= s.len(),
        forall|k: int| 0 <= k < n ==> !is_space(s[k]),
        n < s.len() ==> is_space(s[n]),
    ensures
        leading_word(s) == s.take(n),
    decreases n,
{
    if n == 0 {
        assert(s.take(0) =~= Seq::<char>::empty());
    } else {
        let t = s.skip(1);
        assert forall|k: int| 0 <= k < n - 1 implies !is_space(t[k]) by {
            assert(t[k] == s[k + 1]);
        }
        lemma_leading_word_is_take(t, n - 1);
        assert(seq![s[0]] + t.take(n - 1) =~= s.take(n));
    }
}

/// Decides whether a character is white space.
pub fn char_is_space(c: char) -> (b: bool)
    ensures
        b == is_space(c),
{
    let n: u32 = c as u32;
    (0x09 <= n && n <= 0x0D) || n == 0x20 || n == 0x85 || n == 0xA0 || n == 0x1680 || (0x2000 <= n
        && n <= 0x200A) || n == 0x2028 || n == 0x2029 || n == 0x202F || n == 0x205F || n == 0x3000
}

/// The characters of a string slice.
pub fn to_chars(s: &str) -> (v: Vec<char>)
    ensures
        v@ == s@,
{
    let mut v: Vec<char> = Vec::new();
    for c in it: s.chars()
        invariant
            v@ == it.seq().take(it.index() as int),
            it.seq() == s@,
    {
        v.push(c);
    }
    v
}

/// The first line feed of `v` at or after `from`, or the length of `v`.
pub fn find_line_end(v: &Vec<char>, from: usize) -> (end: usize)
    requires
        from <= v.len(),
    ensures
        from <= end <= v.len(),
        end == from + line_len(v@.skip(from as int)),
{
    let mut i: usize = from;
    while i < v.len() && v[i] != '\n'
        invariant
            from <= i <= v.len(),
            forall|k: int| from <= k < i ==> v@[k] != '\n',
        decreases v.len() - i,
    {
        i += 1;
    }
    proof {
        let s = v@.skip(from as int);
        assert forall|k: int| 0 <= k < i - from implies s[k] != '\n' by {
            assert(s[k] == v@[from + k]);
        }
        lemma_line_len_is(s, i - from);
    }
    i
}

/// The bounds of `v[lo..hi]` without its leading and trailing white space.
pub fn trim_range(v: &Vec<char>, lo: usize, hi: usize) -> (r: (usize, usize))
    requires
        lo <= hi <= v.len(),
    ensures
        lo <= r.0 <= r.1 <= hi,
        v@.subrange(r.0 as int, r.1 as int) == trim(v@.subrange(lo as int, hi as int)),
{
    let mut a: usize = lo;
    while a < hi && char_is_space(v[a])
        invariant
            lo <= a <= hi <= v.len(),
            forall|k: int| lo <= k < a ==> is_space(v@[k]),
        decreases hi - a,
    {
        a += 1;
    }
    let mut b: usize = hi;
    while b > a && char_is_space(v[b - 1])
        invariant
            a <= b <= hi <= v.len(),
            forall|k: int| b <= k < hi ==> is_space(v@[k]),
        decreases b,
    {
        b -= 1;
    }
    proof {
        let s = v@.subrange(lo as int, hi as int);
        assert forall|k: int| 0 <= k < a - lo implies is_space(s[k]) by {
            assert(s[k] == v@[lo + k]);
        }
        lemma_trim_start_is_skip(s, a - lo);
        let t = s.skip(a - lo);
        assert(t =~= v@.subrange(a as int, hi as int));
        assert forall|k: int| b - a <= k < t.len() implies is_space(t[k]) by {
            assert(t[k] == v@[a + k]);
        }
        lemma_trim_end_is_take(t, b - a);
        assert(t.take(b - a) =~= v@.subrange(a as int, b as int));
    }
    (a, b)
}

/// The end of the first white-space-delimited token of `v[lo..hi]`, together
/// with its start.
pub fn first_token_range(v: &Vec<char>, lo: usize, hi: usize) -> (r: (usize, usize))
    requires
        lo <= hi <= v.len(),
    ensures
        lo <= r.0 <= r.1 <= hi,
        v@.subrange(r.0 as int, r.1 as int) == first_token(v@.subrange(lo as int, hi as int)),
        forall|k: int| lo <= k < r.0 ==> is_space(v@[k]),
        forall|k: int| r.0 <= k < r.1 ==> !is_space(v@[k]),
        r.1 < hi ==> is_space(v@[r.1 as int]),
        r.0 < hi ==> r.0 < r.1,
{
    let mut a: usize = lo;
    while a < hi && char_is_space(v[a])
        invariant
            lo <= a <= hi <= v.len(),
            forall|k: int| lo <= k < a ==> is_space(v@[k]),
        decreases hi - a,
    {
        a += 1;
    }
    let mut e: usize = a;
    while e < hi && !char_is_space(v[e])
        invariant
            a <= e <= hi <= v.len(),
            forall|k: int| a <= k < e ==> !is_space(v@[k]),
        decreases hi - e,
    {
        e += 1;
    }
    proof {
        let s = v@.subrange(lo as int, hi as int);
        assert forall|k: int| 0 <= k < a - lo implies is_space(s[k]) by {
            assert(s[k] == v@[lo + k]);
        }
        lemma_trim_start_is_skip(s, a - lo);
        let t = s.skip(a - lo);
        assert(t =~= v@.subrange(a as int, hi as int));
        assert forall|k: int| 0 <= k < e - a implies !is_space(t[k]) by {
            assert(t[k] == v@[a + k]);
        }
        lemma_leading_word_is_take(t, e - a);
        assert(t.take(e - a) =~= v@.subrange(a as int, e as int));
    }
    (a, e)
}

/// Appends one character to `s`: `String::push`, which adds the character at
/// the end and leaves the rest as it was.
#[verifier::external_body]
pub(crate) fn push_char(s: &mut String, c: char)
    ensures
        final(s)@ == old(s)@.push(c),
{
    s.push(c)
}

/// Appends the characters `v[lo..hi]` to `s`.
pub fn append_range(s: &mut String, v: &Vec<char>, lo: usize, hi: usize)
    requires
        lo <= hi <= v.len(),
    ensures
        final(s)@ == old(s)@ + v@.subrange(lo as int, hi as int),
{
    let mut i: usize = lo;
    while i < hi
        invariant
            lo <= i <= hi <= v.len(),
            s@ == old(s)@ + v@.subrange(lo as int, i as int),
        decreases hi - i,
    {
        push_char(s, v[i]);
        i += 1;
        assert(v@.subrange(lo as int, i as int) =~= v@.subrange(lo as int, i - 1).push(v@[i - 1]));
        assert(s@ =~= old(s)@ + v@.subrange(lo as int, i as int));
    }
    assert(v@.subrange(lo as int, lo as int) =~= Seq::<char>::empty());
}

/// The characters `v[lo..hi]` as a string.
pub fn string_from_range(v: &Vec<char>, lo: usize, hi: usize) -> (s: String)
    requires
        lo <= hi <= v.len(),
    ensures
        s@ == v@.subrange(lo as int, hi as int),
{
    let mut s = String::new();
    append_range(&mut s, v, lo, hi);
    assert(s@ =~= v@.subrange(lo as int, hi as int));
    s
}

/// The decimal digit for `d`, a number below ten.
pub open spec fn digit_char(d: nat) -> char {
    (48 + d) as u8 as char
}

/// `n` in decimal notation, without sign or leading zeros.
pub open spec fn decimal(n: nat) -> Seq<char>
    decreases n,
{
    if n < 10 {
        seq![digit_char(n)]
    } else {
        decimal(n / 10).push(digit_char(n % 10))
    }
}

/// Appends `n` in decimal notation to `s`.
pub fn append_decimal(s: &mut String, n: u64)
    ensures
        final(s)@ == old(s)@ + decimal(n as nat),
{
    let mut digits: Vec<char> = Vec::new();
    let mut rest: u64 = n;
    while rest >= 10
        invariant
            decimal(n as nat) == decimal(rest as nat) + digits@.reverse(),
        decreases rest,
    {
        let d: u8 = (rest % 10) as u8;
        let ghost before = digits@;
        digits.push((48 + d) as char);
        assert(digits@.reverse() =~= seq![digit_char((rest % 10) as nat)] + before.reverse());
        assert(decimal(rest as nat) + before.reverse() =~= decimal((rest / 10) as nat)
            + digits@.reverse());
        rest = rest / 10;
    }
    let d: u8 = rest as u8;
    push_char(s, (48 + d) as char);
    let ghost head = s@;
    let mut i: usize = digits.len();
    while i > 0
        invariant
            i <= digits.len(),
            s@ == head + digits@.reverse().take(digits.len() - i),
        decreases i,
    {
        i -= 1;
        push_char(s, digits[i]);
        assert(digits@.reverse().take(digits.len() - i) =~= digits@.reverse().take(
            digits.len() - i - 1,
        ).push(digits@[i as int]));
    }
    assert(digits@.reverse().take(digits.len() as int) =~= digits@.reverse());
    assert(s@ =~= old(s)@ + decimal(n as nat));
}

/// Decides whether `needle` occurs somewhere in `hay`.
pub fn vec_contains(hay: &Vec<char>, needle: &Vec<char>) -> (b: bool)
    ensures
        b == contains_text(hay@, needle@),
{
    if needle.len() == 0 {
        assert(hay@.subrange(0, 0) =~= needle@);
        assert(occurs_at(hay@, needle@, 0));
        return true;
    }
    if needle.len() > hay.len() {
        return false;
    }
    let last: usize = hay.len() - needle.len();
    let mut i: usize = 0;
    while i <= last
        invariant
            0 < needle.len() <= hay.len(),
            last == hay.len() - needle.len(),
            i <= last + 1,
            forall|k: int| 0 <= k < i ==> !occurs_at(hay@, needle@, k),
        decreases last + 1 - i,
    {
        let mut j: usize = 0;
        while j < needle.len() && hay[i + j] == needle[j]
            invariant
                i <= last,
                last == hay.len() - needle.len(),
                j <= needle.len(),
                forall|m: int| 0 <= m < j ==> hay@[i + m] == needle@[m],
            decreases needle.len() - j,
        {
            j += 1;
        }
        let ghost window = hay@.subrange(i as int, i + needle.len());
        if j == needle.len() {
            assert(window =~= needle@);
            assert(occurs_at(hay@, needle@, i as int));
            return true;
        }
        assert(window[j as int] == hay@[i + j]);
        i += 1;
    }
    false
}

/// `first` followed by `second`.
pub fn concat(first: &str, second: &str) -> (s: String)
    ensures
        s@ == first@ + second@,
{
    let mut s = String::new();
    s.append(first);
    s.append(second);
    assert(s@ =~= first@ + second@);
    s
}

} // verus!
