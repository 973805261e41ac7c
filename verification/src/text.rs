use vstd::prelude::*;

verus! {

broadcast use vstd::string::group_string_axioms;

/// The characters of a string slice, collected into a vector.
pub fn chars_of(s: &str) -> (v: Vec<char>)
    ensures
        v@ == s@,
{
    let mut v: Vec<char> = Vec::new();
    for c in it: s.chars()
        invariant
            v@ == it.seq().take(it.index() as int),
    {
        v.push(c);
    }
    assert(v@ == s@);
    v
}

/// `String::push`: afterwards the string is the old one with `c` added at
/// the end.
#[verifier::external_body]
pub(crate) fn push_char(s: &mut String, c: char)
    ensures
        final(s)@ == old(s)@.push(c),
{
    s.push(c);
}

/// The string made of the characters `chars[lo..hi]`.
pub fn string_of(chars: &Vec<char>, lo: usize, hi: usize) -> (s: String)
    requires
        lo <= hi <= chars.len(),
    ensures
        s@ == chars@.subrange(lo as int, hi as int),
{
    let mut s = String::new();
    let mut i: usize = lo;
    while i < hi
        invariant
            lo <= i <= hi <= chars.len(),
            s@ == chars@.subrange(lo as int, i as int),
        decreases hi - i,
    {
        push_char(&mut s, chars[i]);
        i = i + 1;
        assert(s@ == chars@.subrange(lo as int, i as int));
    }
    s
}

/// Whether `v[lo..hi]` starts with the characters of `pat`.
pub fn has_prefix(v: &Vec<char>, lo: usize, hi: usize, pat: &Vec<char>) -> (b: bool)
    requires
        lo <= hi <= v.len(),
    ensures
        b == starts_with(v@.subrange(lo as int, hi as int), pat@),
{
    if pat.len() > hi - lo {
        return false;
    }
    let mut i: usize = 0;
    while i < pat.len()
        invariant
            lo <= hi <= v.len(),
            pat.len() <= hi - lo,
            i <= pat.len(),
            forall|j: int| 0 <= j < i ==> v@[lo + j] == pat@[j],
        decreases pat.len() - i,
    {
        if v[lo + i] != pat[i] {
            assert(v@.subrange(lo as int, hi as int).take(pat.len() as int)[i as int] != pat@[i as int]);
            return false;
        }
        i = i + 1;
    }
    assert(v@.subrange(lo as int, hi as int).take(pat.len() as int) == pat@);
    true
}

/// Whether `v[lo..hi]` ends with the characters of `pat`.
pub fn has_suffix(v: &Vec<char>, lo: usize, hi: usize, pat: &Vec<char>) -> (b: bool)
    requires
        lo <= hi <= v.len(),
    ensures
        b == ends_with(v@.subrange(lo as int, hi as int), pat@),
{
    if pat.len() > hi - lo {
        return false;
    }
    let start = hi - pat.len();
    let mut i: usize = 0;
    while i < pat.len()
        invariant
            lo <= start <= hi <= v.len(),
            start + pat.len() == hi,
            i <= pat.len(),
            forall|j: int| 0 <= j < i ==> v@[start + j] == pat@[j],
        decreases pat.len() - i,
    {
        if v[start + i] != pat[i] {
            let ghost s = v@.subrange(lo as int, hi as int);
            assert(s.subrange(s.len() - pat.len(), s.len() as int)[i as int] != pat@[i as int]);
            return false;
        }
        i = i + 1;
    }
    let ghost s = v@.subrange(lo as int, hi as int);
    assert(s.subrange(s.len() - pat.len(), s.len() as int) == pat@);
    true
}

/// Unicode `White_Space`, the property that `char::is_whitespace` tests.
pub open spec fn is_white_space(c: char) -> bool {
    let n = c as u32;
    ||| 0x09 <= n <= 0x0d
    ||| n == 0x20
    ||| n == 0x85
    ||| n == 0xa0
    ||| n == 0x1680
    ||| 0x2000 <= n <= 0x200a
    ||| n == 0x2028
    ||| n == 0x2029
    ||| n == 0x202f
    ||| n == 0x205f
    ||| n == 0x3000
}

/// Whether a character is Unicode white space.
pub fn is_whitespace_char(c: char) -> (b: bool)
    ensures
        b == is_white_space(c),
{
    let n = c as u32;
    (0x09 <= n && n <= 0x0d) || n == 0x20 || n == 0x85 || n == 0xa0 || n == 0x1680 || (0x2000
        <= n && n <= 0x200a) || n == 0x2028 || n == 0x2029 || n == 0x202f || n == 0x205f || n
        == 0x3000
}

/// A text is blank when all its characters are white space: what is left
/// after trimming it is empty.
pub open spec fn is_blank(s: Seq<char>) -> bool {
    forall|i: int| 0 <= i < s.len() ==> #[trigger] is_white_space(s[i])
}

/// Whether a text holds nothing but white space.
pub fn blank(s: &str) -> (b: bool)
    ensures
        b == is_blank(s@),
{
    let v = chars_of(s);
    let mut i: usize = 0;
    while i < v.len()
        invariant
            i <= v.len(),
            v@ == s@,
            forall|j: int| 0 <= j < i ==> #[trigger] is_white_space(v@[j]),
        decreases v.len() - i,
    {
        if !is_whitespace_char(v[i]) {
            return false;
        }
        i = i + 1;
    }
    true
}

/// An ASCII decimal digit, the only digits that integer parsing accepts.
pub open spec fn is_digit(c: char) -> bool {
    0x30 <= c as u32 <= 0x39
}

pub open spec fn digit_value(c: char) -> nat {
    (c as u32 - 0x30) as nat
}

pub open spec fn all_digits(s: Seq<char>) -> bool {
    forall|i: int| 0 <= i < s.len() ==> #[trigger] is_digit(s[i])
}

/// The number that a run of decimal digits writes, most significant first.
pub open spec fn digits_value(s: Seq<char>) -> nat
    decreases s.len(),
{
    if s.len() == 0 {
        0
    } else {
        digits_value(s.drop_last()) * 10 + digit_value(s.last())
    }
}

/// What `str::parse` gives for an unsigned integer type whose largest value
/// is `max`: an optional `+` sign, then at least one ASCII digit and nothing
/// else, with a value that fits.
pub open spec fn parse_unsigned(s: Seq<char>, max: nat) -> Option<nat> {
    let d = if s.len() > 0 && s[0] == '+' {
        s.drop_first()
    } else {
        s
    };
    if d.len() > 0 && all_digits(d) && digits_value(d) <= max {
        Some(digits_value(d))
    } else {
        None
    }
}

proof fn lemma_digits_prefix_le(s: Seq<char>, j: int)
    requires
        all_digits(s),
        0 <= j <= s.len(),
    ensures
        digits_value(s.take(j)) <= digits_value(s),
    decreases s.len(),
{
    if j < s.len() {
        assert(all_digits(s.drop_last()));
        assert(s.drop_last().take(j) == s.take(j));
        lemma_digits_prefix_le(s.drop_last(), j);
    } else {
        assert(s.take(j) == s);
    }
}

/// Parses the characters `v[lo..hi]` as an unsigned decimal number no larger
/// than `max`, as `str::parse` does.
pub fn parse_decimal(v: &Vec<char>, lo: usize, hi: usize, max: u64) -> (r: Option<u64>)
    requires
        lo <= hi <= v.len(),
    ensures
        r matches Some(n) ==> parse_unsigned(v@.subrange(lo as int, hi as int), max as nat)
            == Some(n as nat),
        r is None ==> parse_unsigned(v@.subrange(lo as int, hi as int), max as nat) is None,
{
    let ghost s = v@.subrange(lo as int, hi as int);
    let mut start = lo;
    if lo < hi && v[lo] == '+' {
        start = lo + 1;
    }
    let ghost d = v@.subrange(start as int, hi as int);
    assert(d == (if s.len() > 0 && s[0] == '+' { s.drop_first() } else { s }));
    if start == hi {
        return None;
    }
    let mut acc: u64 = 0;
    let mut i = start;
    while i < hi
        invariant
            lo <= start <= i <= hi <= v.len(),
            d == v@.subrange(start as int, hi as int),
            s == v@.subrange(lo as int, hi as int),
            d == (if s.len() > 0 && s[0] == '+' { s.drop_first() } else { s }),
            all_digits(d.take(i - start)),
            acc as nat == digits_value(d.take(i - start)),
            acc <= max,
        decreases hi - i,
    {
        let c = v[i];
        let k = i - start;
        assert(d[k as int] == c);
        assert(d.take(k + 1).drop_last() == d.take(k as int));
        let cu = c as u32;
        if !(0x30 <= cu && cu <= 0x39) {
            assert(!is_digit(d[k as int]));
            return None;
        }
        let dv = (cu - 0x30) as u64;
        assert(digits_value(d.take(k + 1)) == digits_value(d.take(k as int)) * 10 + dv);
        assert(all_digits(d.take(k + 1)));
        let next: u128 = acc as u128 * 10 + dv as u128;
        if next > max as u128 {
            assert(digits_value(d.take(k + 1)) > max);
            proof {
                if all_digits(d) {
                    lemma_digits_prefix_le(d, k + 1);
                }
            }
            return None;
        }
        acc = next as u64;
        i = i + 1;
    }
    assert(d.take(i - start) == d);
    Some(acc)
}


/// The text without its leading white space (`str::trim_start`).
pub open spec fn trim_ws_front(s: Seq<char>) -> Seq<char>
    decreases s.len(),
{
    if s.len() > 0 && is_white_space(s[0]) {
        trim_ws_front(s.drop_first())
    } else {
        s
    }
}

/// The text without its trailing white space (`str::trim_end`).
pub open spec fn trim_ws_back(s: Seq<char>) -> Seq<char>
    decreases s.len(),
{
    if s.len() > 0 && is_white_space(s.last()) {
        trim_ws_back(s.drop_last())
    } else {
        s
    }
}

/// The text without white space at either end (`str::trim`).
pub open spec fn trim_ws(s: Seq<char>) -> Seq<char> {
    trim_ws_back(trim_ws_front(s))
}

/// The text without any leading copies of `c` (`str::trim_start_matches`
/// with a character).
pub open spec fn trim_start_char(s: Seq<char>, c: char) -> Seq<char>
    decreases s.len(),
{
    if s.len() > 0 && s[0] == c {
        trim_start_char(s.drop_first(), c)
    } else {
        s
    }
}

/// The text without any trailing copies of `c` (`str::trim_end_matches`
/// with a character).
pub open spec fn trim_end_char(s: Seq<char>, c: char) -> Seq<char>
    decreases s.len(),
{
    if s.len() > 0 && s.last() == c {
        trim_end_char(s.drop_last(), c)
    } else {
        s
    }
}

/// Whether `p` ends the text `s`.
pub open spec fn ends_with(s: Seq<char>, p: Seq<char>) -> bool {
    p.len() <= s.len() && s.subrange(s.len() - p.len(), s.len() as int) == p
}

/// Whether `p` starts the text `s`.
pub open spec fn starts_with(s: Seq<char>, p: Seq<char>) -> bool {
    p.len() <= s.len() && s.take(p.len() as int) == p
}

/// The text without any trailing copies of the non-empty pattern `p`
/// (`str::trim_end_matches` with a string).
pub open spec fn trim_end_seq(s: Seq<char>, p: Seq<char>) -> Seq<char>
    decreases s.len(),
{
    if p.len() > 0 && ends_with(s, p) {
        trim_end_seq(s.take(s.len() - p.len()), p)
    } else {
        s
    }
}

/// The text before the first `a` or `b` in it, or all of it when there is
/// none (the first piece that `str::split` gives).
pub open spec fn before_any(s: Seq<char>, a: char, b: char) -> Seq<char>
    decreases s.len(),
{
    if s.len() == 0 {
        s
    } else if s[0] == a || s[0] == b {
        Seq::empty()
    } else {
        seq![s[0]] + before_any(s.drop_first(), a, b)
    }
}

/// The bounds `[a, b)` of `v[lo..hi]` once white space is trimmed from both
/// ends.
pub fn trim_bounds(v: &Vec<char>, lo: usize, hi: usize) -> (r: (usize, usize))
    requires
        lo <= hi <= v.len(),
    ensures
        lo <= r.0 <= r.1 <= hi,
        v@.subrange(r.0 as int, r.1 as int) == trim_ws(v@.subrange(lo as int, hi as int)),
{
    let mut a = lo;
    while a < hi && is_whitespace_char(v[a])
        invariant
            lo <= a <= hi <= v.len(),
            trim_ws_front(v@.subrange(lo as int, hi as int)) == trim_ws_front(
                v@.subrange(a as int, hi as int),
            ),
        decreases hi - a,
    {
        assert(v@.subrange(a as int, hi as int).drop_first() == v@.subrange(
            a + 1,
            hi as int,
        ));
        a = a + 1;
    }
    assert(trim_ws_front(v@.subrange(a as int, hi as int)) == v@.subrange(a as int, hi as int));
    let mut b = hi;
    while b > a && is_whitespace_char(v[b - 1])
        invariant
            lo <= a <= b <= hi <= v.len(),
            trim_ws(v@.subrange(lo as int, hi as int)) == trim_ws_back(
                v@.subrange(a as int, b as int),
            ),
        decreases b - a,
    {
        assert(v@.subrange(a as int, b as int).drop_last() == v@.subrange(a as int, b - 1));
        b = b - 1;
    }
    (a, b)
}

/// The end of the leading run of `c` in `v[lo..hi]`: the first index in
/// `[lo, hi)` that holds another character, or `hi`.
pub fn skip_char(v: &Vec<char>, lo: usize, hi: usize, c: char) -> (r: usize)
    requires
        lo <= hi <= v.len(),
    ensures
        lo <= r <= hi,
        v@.subrange(r as int, hi as int) == trim_start_char(v@.subrange(lo as int, hi as int), c),
{
    let mut a = lo;
    while a < hi && v[a] == c
        invariant
            lo <= a <= hi <= v.len(),
            trim_start_char(v@.subrange(lo as int, hi as int), c) == trim_start_char(
                v@.subrange(a as int, hi as int),
                c,
            ),
        decreases hi - a,
    {
        assert(v@.subrange(a as int, hi as int).drop_first() == v@.subrange(
            a + 1,
            hi as int,
        ));
        a = a + 1;
    }
    a
}

/// The end of the text before the first `a` or `b` in `v[lo..hi]`.
pub fn find_stop(v: &Vec<char>, lo: usize, hi: usize, a: char, b: char) -> (r: usize)
    requires
        lo <= hi <= v.len(),
    ensures
        lo <= r <= hi,
        v@.subrange(lo as int, r as int) == before_any(v@.subrange(lo as int, hi as int), a, b),
        r < hi ==> (v@[r as int] == a || v@[r as int] == b),
{
    let mut i = lo;
    while i < hi && v[i] != a && v[i] != b
        invariant
            lo <= i <= hi <= v.len(),
            before_any(v@.subrange(lo as int, hi as int), a, b) == v@.subrange(lo as int, i as int)
                + before_any(v@.subrange(i as int, hi as int), a, b),
        decreases hi - i,
    {
        assert(v@.subrange(i as int, hi as int).drop_first() == v@.subrange(i + 1, hi as int));
        assert(v@.subrange(lo as int, i as int) + seq![v@[i as int]] == v@.subrange(
            lo as int,
            i + 1,
        ));
        assert(v@.subrange(lo as int, hi as int).len() >= 0);
        i = i + 1;
    }
    assert(before_any(v@.subrange(i as int, hi as int), a, b) == Seq::<char>::empty());
    assert(v@.subrange(lo as int, i as int) + Seq::<char>::empty() == v@.subrange(
        lo as int,
        i as int,
    ));
    i
}


/// Neither `a` nor `b` occurs in the text.
pub open spec fn lacks(s: Seq<char>, a: char, b: char) -> bool {
    forall|i: int| 0 <= i < s.len() ==> #[trigger] s[i] != a && s[i] != b
}

pub proof fn lemma_trim_back_concat(p: Seq<char>, t: Seq<char>)
    requires
        p.len() > 0,
        !is_white_space(p.last()),
    ensures
        trim_ws_back(p + t) == p + trim_ws_back(t),
    decreases t.len(),
{
    if t.len() > 0 && is_white_space(t.last()) {
        assert((p + t).drop_last() == p + t.drop_last());
        lemma_trim_back_concat(p, t.drop_last());
    } else if t.len() > 0 {
        assert((p + t).last() == t.last());
    } else {
        assert(p + t == p);
    }
}

pub proof fn lemma_trim_start_char_concat(p: Seq<char>, q: Seq<char>, c: char)
    requires
        q.len() > 0,
        q[0] != c,
    ensures
        trim_start_char(p + q, c) == trim_start_char(p, c) + q,
    decreases p.len(),
{
    if p.len() > 0 && p[0] == c {
        assert((p + q).drop_first() == p.drop_first() + q);
        lemma_trim_start_char_concat(p.drop_first(), q, c);
    } else if p.len() > 0 {
        assert((p + q)[0] == p[0]);
    } else {
        assert(p + q == q);
    }
}

/// Trimming leading `c`s leaves a tail of the text.
pub proof fn lemma_trim_start_char_tail(s: Seq<char>, c: char)
    ensures
        exists|j: int| 0 <= j <= s.len() && trim_start_char(s, c) == #[trigger] s.skip(j),
    decreases s.len(),
{
    if s.len() > 0 && s[0] == c {
        lemma_trim_start_char_tail(s.drop_first(), c);
        let j = choose|j: int|
            0 <= j <= s.drop_first().len() && trim_start_char(s.drop_first(), c)
                == #[trigger] s.drop_first().skip(j);
        assert(s.drop_first().skip(j) == s.skip(j + 1));
    } else {
        assert(s.skip(0) == s);
    }
}

pub proof fn lemma_before_any_whole(p: Seq<char>, a: char, b: char)
    requires
        lacks(p, a, b),
    ensures
        before_any(p, a, b) == p,
    decreases p.len(),
{
    if p.len() > 0 {
        assert(p[0] != a && p[0] != b);
        assert(lacks(p.drop_first(), a, b));
        lemma_before_any_whole(p.drop_first(), a, b);
        assert(seq![p[0]] + p.drop_first() == p);
    }
}

pub proof fn lemma_before_any_concat(p: Seq<char>, q: Seq<char>, a: char, b: char)
    requires
        lacks(p, a, b),
        q.len() > 0,
        q[0] == a || q[0] == b,
    ensures
        before_any(p + q, a, b) == p,
    decreases p.len(),
{
    if p.len() > 0 {
        assert(p[0] != a && p[0] != b);
        assert((p + q)[0] == p[0]);
        assert((p + q).drop_first() == p.drop_first() + q);
        assert(lacks(p.drop_first(), a, b));
        lemma_before_any_concat(p.drop_first(), q, a, b);
        assert(seq![p[0]] + p.drop_first() == p);
    } else {
        assert(p + q == q);
    }
}

/// Whether two texts are the same.
pub fn same_text(a: &str, b: &str) -> (r: bool)
    ensures
        r == (a@ == b@),
{
    let x = chars_of(a);
    let y = chars_of(b);
    if x.len() != y.len() {
        return false;
    }
    let mut i: usize = 0;
    while i < x.len()
        invariant
            x.len() == y.len(),
            x@ == a@,
            y@ == b@,
            i <= x.len(),
            forall|j: int| 0 <= j < i ==> x@[j] == y@[j],
        decreases x.len() - i,
    {
        if x[i] != y[i] {
            return false;
        }
        i = i + 1;
    }
    assert(x@ == y@);
    true
}

/// Trimming white space never lengthens a text, and shortens one that
/// starts with white space.
pub proof fn lemma_trim_front_len(s: Seq<char>)
    ensures
        trim_ws_front(s).len() <= s.len(),
        s.len() > 0 && is_white_space(s[0]) ==> trim_ws_front(s).len() < s.len(),
    decreases s.len(),
{
    if s.len() > 0 && is_white_space(s[0]) {
        lemma_trim_front_len(s.drop_first());
    }
}

/// Trimming white space never lengthens a text, and shortens one that ends
/// with white space.
pub proof fn lemma_trim_back_len(s: Seq<char>)
    ensures
        trim_ws_back(s).len() <= s.len(),
        s.len() > 0 && is_white_space(s.last()) ==> trim_ws_back(s).len() < s.len(),
    decreases s.len(),
{
    if s.len() > 0 && is_white_space(s.last()) {
        lemma_trim_back_len(s.drop_last());
    }
}

/// A text that trimming leaves as it is neither starts nor ends with white
/// space.
pub proof fn lemma_trimmed_ends(s: Seq<char>)
    requires
        trim_ws(s) == s,
        s.len() > 0,
    ensures
        !is_white_space(s[0]),
        !is_white_space(s.last()),
{
    lemma_trim_front_len(s);
    lemma_trim_back_len(trim_ws_front(s));
    assert(!is_white_space(s[0]));
    assert(trim_ws_front(s) == s);
    lemma_trim_back_len(s);
}

} // verus!
