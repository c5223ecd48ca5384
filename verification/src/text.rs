//! Character-level string helpers with exact specifications.

use vstd::prelude::*;

verus! {

broadcast use vstd::string::group_string_axioms;

/// Appends one character to the end of a string (`String::push`).
#[verifier::external_body]
pub(crate) fn push_char(s: &mut String, c: char)
    ensures
        final(s)@ == old(s)@.push(c),
{
    s.push(c);
}

/// The characters of `s`, in order.
pub fn chars_of(s: &str) -> (v: Vec<char>)
    ensures
        v@ == s@,
{
    let mut v: Vec<char> = Vec::new();
    for c in it: s.chars()
        invariant
            it.seq() == s@,
            v@ == it.seq().take(it.index() as int),
    {
        v.push(c);
    }
    v
}

/// The decimal digit character for `d < 10`.
pub open spec fn digit_char(d: nat) -> char {
    ((d + 48) as u8) as char
}

/// Decimal notation of `n`, without sign or leading zeros.
pub open spec fn decimal(n: nat) -> Seq<char>
    decreases n,
{
    if n < 10 {
        seq![digit_char(n)]
    } else {
        decimal(n / 10).push(digit_char(n % 10))
    }
}

/// Appends the decimal notation of `n` to `out`.
pub fn push_decimal(out: &mut String, n: usize)
    ensures
        final(out)@ == old(out)@ + decimal(n as nat),
    decreases n,
{
    if n >= 10 {
        push_decimal(out, n / 10);
    }
    let d: u8 = (n % 10) as u8;
    push_char(out, (d + 48) as char);
}

/// The pieces of `parts` joined by `sep`, as `[T]::join` does.
pub open spec fn join(parts: Seq<Seq<char>>, sep: Seq<char>) -> Seq<char>
    decreases parts.len(),
{
    if parts.len() == 0 {
        Seq::empty()
    } else if parts.len() == 1 {
        parts[0]
    } else {
        join(parts.drop_last(), sep) + sep + parts.last()
    }
}

/// Unicode `White_Space`, the property that `char::is_whitespace` tests.
pub open spec fn is_white_space(c: char) -> bool {
    let u = c as u32;
    ||| 0x9 <= u <= 0xd
    ||| u == 0x20
    ||| u == 0x85
    ||| u == 0xa0
    ||| u == 0x1680
    ||| 0x2000 <= u <= 0x200a
    ||| u == 0x2028
    ||| u == 0x2029
    ||| u == 0x202f
    ||| u == 0x205f
    ||| u == 0x3000
}

/// Tests [`is_white_space`].
pub fn white_space(c: char) -> (b: bool)
    ensures
        b == is_white_space(c),
{
    let u = c as u32;
    (0x9 <= u && u <= 0xd) || u == 0x20 || u == 0x85 || u == 0xa0 || u == 0x1680 || (0x2000 <= u
        && u <= 0x200a) || u == 0x2028 || u == 0x2029 || u == 0x202f || u == 0x205f || u == 0x3000
}

/// `s` without its leading white space.
pub open spec fn trim_start(s: Seq<char>) -> Seq<char>
    decreases s.len(),
{
    if s.len() > 0 && is_white_space(s[0]) {
        trim_start(s.drop_first())
    } else {
        s
    }
}

/// `s` without its trailing white space.
pub open spec fn trim_end(s: Seq<char>) -> Seq<char>
    decreases s.len(),
{
    if s.len() > 0 && is_white_space(s.last()) {
        trim_end(s.drop_last())
    } else {
        s
    }
}

/// `s` without leading and trailing white space, as `str::trim` gives it.
pub open spec fn trim(s: Seq<char>) -> Seq<char> {
    trim_end(trim_start(s))
}

/// The bounds of the trimmed part of `v`.
pub fn trim_bounds(v: &Vec<char>) -> (r: (usize, usize))
    ensures
        r.0 <= r.1 <= v.len(),
        v@.subrange(r.0 as int, r.1 as int) == trim(v@),
{
    let mut lo: usize = 0;
    assert(v@.skip(0) == v@);
    while lo < v.len() && white_space(v[lo])
        invariant
            lo <= v.len(),
            trim_start(v@) == trim_start(v@.skip(lo as int)),
        decreases v.len() - lo,
    {
        assert(v@.skip(lo as int).drop_first() == v@.skip(lo + 1));
        lo += 1;
    }
    assert(trim_start(v@) == v@.skip(lo as int));
    let mut hi: usize = v.len();
    assert(v@.skip(lo as int) == v@.subrange(lo as int, hi as int));
    while hi > lo && white_space(v[hi - 1])
        invariant
            lo <= hi <= v.len(),
            trim(v@) == trim_end(v@.subrange(lo as int, hi as int)),
            trim_start(v@) == v@.skip(lo as int),
        decreases hi,
    {
        assert(v@.subrange(lo as int, hi as int).drop_last() == v@.subrange(lo as int, hi - 1));
        hi -= 1;
    }
    (lo, hi)
}

/// Position of the first `c` in `s`, or -1 when there is none.
pub open spec fn first_index(s: Seq<char>, c: char) -> int
    decreases s.len(),
{
    if s.len() == 0 {
        -1
    } else if s[0] == c {
        0
    } else {
        let k = first_index(s.drop_first(), c);
        if k < 0 {
            -1
        } else {
            k + 1
        }
    }
}

/// Position of the last `c` in `s`, or -1 when there is none.
pub open spec fn last_index(s: Seq<char>, c: char) -> int
    decreases s.len(),
{
    if s.len() == 0 {
        -1
    } else if s.last() == c {
        s.len() - 1
    } else {
        last_index(s.drop_last(), c)
    }
}

/// [`first_index`] is the position of the first occurrence.
pub proof fn lemma_first_index(s: Seq<char>, c: char)
    ensures
        -1 <= first_index(s, c) < s.len(),
        first_index(s, c) >= 0 ==> s[first_index(s, c)] == c,
        forall|j: int|
            0 <= j < s.len() && (first_index(s, c) < 0 || j < first_index(s, c)) ==> s[j] != c,
    decreases s.len(),
{
    if s.len() > 0 {
        lemma_first_index(s.drop_first(), c);
        assert forall|j: int|
            0 <= j < s.len() && (first_index(s, c) < 0 || j < first_index(s, c)) implies s[j]
            != c by {
            if j > 0 {
                assert(s[j] == s.drop_first()[j - 1]);
            }
        }
    }
}

/// [`last_index`] is the position of the last occurrence.
pub proof fn lemma_last_index(s: Seq<char>, c: char)
    ensures
        -1 <= last_index(s, c) < s.len(),
        last_index(s, c) >= 0 ==> s[last_index(s, c)] == c,
        forall|j: int| 0 <= j < s.len() && j > last_index(s, c) ==> s[j] != c,
    decreases s.len(),
{
    if s.len() > 0 {
        lemma_last_index(s.drop_last(), c);
        assert forall|j: int| 0 <= j < s.len() && j > last_index(s, c) implies s[j] != c by {
            if j < s.len() - 1 {
                assert(s[j] == s.drop_last()[j]);
            }
        }
    }
}

/// Position of the first `c` in `v[lo..hi]`, relative to `lo`.
pub fn find_char(v: &Vec<char>, lo: usize, hi: usize, c: char) -> (r: Option<usize>)
    requires
        lo <= hi <= v.len(),
    ensures
        match r {
            Some(k) => k == first_index(v@.subrange(lo as int, hi as int), c),
            None => first_index(v@.subrange(lo as int, hi as int), c) == -1,
        },
{
    let ghost s = v@.subrange(lo as int, hi as int);
    let mut i: usize = lo;
    while i < hi
        invariant
            lo <= i <= hi <= v.len(),
            s == v@.subrange(lo as int, hi as int),
            forall|j: int| lo <= j < i ==> v@[j] != c,
        decreases hi - i,
    {
        if v[i] == c {
            let k = i - lo;
            proof {
                lemma_first_index(s, c);
                let f = first_index(s, c);
                assert(s[k as int] == c);
                if f >= 0 && f < k {
                    assert(s[f] == v@[lo + f]);
                }
            }
            return Some(k);
        }
        i += 1;
    }
    proof {
        lemma_first_index(s, c);
        let f = first_index(s, c);
        if f >= 0 {
            assert(s[f] == v@[lo + f]);
        }
    }
    None
}

/// Position of the last `c` in `v[lo..hi]`, relative to `lo`.
pub fn rfind_char(v: &Vec<char>, lo: usize, hi: usize, c: char) -> (r: Option<usize>)
    requires
        lo <= hi <= v.len(),
    ensures
        match r {
            Some(k) => k == last_index(v@.subrange(lo as int, hi as int), c),
            None => last_index(v@.subrange(lo as int, hi as int), c) == -1,
        },
{
    let ghost s = v@.subrange(lo as int, hi as int);
    let mut i: usize = hi;
    while i > lo
        invariant
            lo <= i <= hi <= v.len(),
            s == v@.subrange(lo as int, hi as int),
            forall|j: int| i <= j < hi ==> v@[j] != c,
        decreases i,
    {
        if v[i - 1] == c {
            let k = i - 1 - lo;
            proof {
                lemma_last_index(s, c);
                let f = last_index(s, c);
                assert(s[k as int] == c);
                if f >= 0 && f > k {
                    assert(s[f] == v@[lo + f]);
                }
            }
            return Some(k);
        }
        i -= 1;
    }
    proof {
        lemma_last_index(s, c);
        let f = last_index(s, c);
        if f >= 0 {
            assert(s[f] == v@[lo + f]);
        }
    }
    None
}

/// Appends `v[lo..hi]` to `out`.
pub fn push_range(out: &mut String, v: &Vec<char>, lo: usize, hi: usize)
    requires
        lo <= hi <= v.len(),
    ensures
        final(out)@ == old(out)@ + v@.subrange(lo as int, hi as int),
{
    let ghost start = out@;
    let mut i: usize = lo;
    while i < hi
        invariant
            lo <= i <= hi <= v.len(),
            out@ == start + v@.subrange(lo as int, i as int),
        decreases hi - i,
    {
        push_char(out, v[i]);
        assert(v@.subrange(lo as int, i + 1) == v@.subrange(lo as int, i as int).push(v@[i as int]));
        i += 1;
    }
}

/// Leading white space in front of a part that starts with other text is
/// all that `trim_start` removes.
pub proof fn lemma_trim_start_before(p: Seq<char>, j: Seq<char>)
    requires
        j.len() > 0,
        !is_white_space(j[0]),
    ensures
        trim_start(p + j) == trim_start(p) + j,
    decreases p.len(),
{
    if p.len() == 0 {
        assert(p + j == j);
        assert(trim_start(p) == p);
    } else {
        assert((p + j)[0] == p[0]);
        assert((p + j).drop_first() == p.drop_first() + j);
        lemma_trim_start_before(p.drop_first(), j);
    }
}

/// Trailing white space behind a part that ends with other text is all that
/// `trim_end` removes.
pub proof fn lemma_trim_end_after(j: Seq<char>, q: Seq<char>)
    requires
        j.len() > 0,
        !is_white_space(j.last()),
    ensures
        trim_end(j + q) == j + trim_end(q),
    decreases q.len(),
{
    if q.len() == 0 {
        assert(j + q == j);
        assert(trim_end(q) == q);
    } else {
        assert((j + q).last() == q.last());
        assert((j + q).drop_last() == j + q.drop_last());
        lemma_trim_end_after(j, q.drop_last());
    }
}

/// `trim_start` keeps a suffix.
pub proof fn lemma_trim_start_suffix(s: Seq<char>)
    ensures
        trim_start(s).len() <= s.len(),
        trim_start(s) == s.skip(s.len() - trim_start(s).len()),
    decreases s.len(),
{
    if s.len() > 0 && is_white_space(s[0]) {
        lemma_trim_start_suffix(s.drop_first());
        assert(s.drop_first().skip(s.drop_first().len() - trim_start(s).len()) == s.skip(
            s.len() - trim_start(s).len(),
        ));
    } else {
        assert(s.skip(0) == s);
    }
}

/// `trim_end` keeps a prefix.
pub proof fn lemma_trim_end_prefix(s: Seq<char>)
    ensures
        trim_end(s).len() <= s.len(),
        trim_end(s) == s.take(trim_end(s).len() as int),
    decreases s.len(),
{
    if s.len() > 0 && is_white_space(s.last()) {
        lemma_trim_end_prefix(s.drop_last());
        assert(s.drop_last().take(trim_end(s).len() as int) == s.take(trim_end(s).len() as int));
    } else {
        assert(s.take(s.len() as int) == s);
    }
}

/// The first `c` of `x + y`, when `x` holds none and `y` starts with one.
pub proof fn lemma_first_index_after(x: Seq<char>, y: Seq<char>, c: char)
    requires
        !x.contains(c),
        y.len() > 0,
        y[0] == c,
    ensures
        first_index(x + y, c) == x.len(),
{
    let s = x + y;
    lemma_first_index(s, c);
    let f = first_index(s, c);
    assert(s[x.len() as int] == c);
    if 0 <= f < x.len() {
        assert(s[f] == x[f]);
    }
}

/// The last `c` of `x + y`, when `x` ends with one and `y` holds none.
pub proof fn lemma_last_index_before(x: Seq<char>, y: Seq<char>, c: char)
    requires
        x.len() > 0,
        x.last() == c,
        !y.contains(c),
    ensures
        last_index(x + y, c) == x.len() - 1,
{
    let s = x + y;
    lemma_last_index(s, c);
    let f = last_index(s, c);
    assert(s[x.len() - 1] == c);
    if f >= x.len() {
        assert(s[f] == y[f - x.len()]);
    }
}

/// `str::to_lowercase` of `s`: its Unicode lowercase mapping, including
/// the context-dependent final sigma.
pub uninterp spec fn lowercase(s: Seq<char>) -> Seq<char>;

/// Lowercases `s` with `str::to_lowercase`; its result is named by
/// [`lowercase`], which the contract does not unfold.
#[verifier::external_body]
pub fn to_lowercase(s: &str) -> (r: String)
    ensures
        r@ == lowercase(s@),
{
    s.to_lowercase()
}

/// Whether `s` begins with `prefix`.
pub fn starts_with(s: &str, prefix: &str) -> (b: bool)
    ensures
        b == prefix@.is_prefix_of(s@),
{
    let sv = chars_of(s);
    let pv = chars_of(prefix);
    if pv.len() > sv.len() {
        return false;
    }
    for i in 0..pv.len()
        invariant
            pv.len() <= sv.len(),
            sv@ == s@,
            pv@ == prefix@,
            forall|j: int| 0 <= j < i ==> pv@[j] == sv@[j],
    {
        if pv[i] != sv[i] {
            assert(sv@.subrange(0, pv@.len() as int)[i as int] == sv@[i as int]);
            return false;
        }
    }
    assert(pv@ == sv@.subrange(0, pv@.len() as int));
    true
}

/// Whether two texts are equal.
pub fn same_text(a: &str, b: &str) -> (r: bool)
    ensures
        r == (a@ == b@),
{
    let x: String = a.to_owned();
    let y: String = b.to_owned();
    x == y
}

/// `s` without all trailing `c`, as `str::trim_end_matches(c)` gives it.
pub open spec fn trim_end_char(s: Seq<char>, c: char) -> Seq<char>
    decreases s.len(),
{
    if s.len() > 0 && s.last() == c {
        trim_end_char(s.drop_last(), c)
    } else {
        s
    }
}

/// Returns `s` without its trailing `c` characters.
pub fn without_trailing(s: &str, c: char) -> (r: String)
    ensures
        r@ == trim_end_char(s@, c),
{
    let v = chars_of(s);
    let mut hi: usize = v.len();
    assert(v@.subrange(0, hi as int) == v@);
    while hi > 0 && v[hi - 1] == c
        invariant
            hi <= v.len(),
            trim_end_char(v@, c) == trim_end_char(v@.subrange(0, hi as int), c),
        decreases hi,
    {
        assert(v@.subrange(0, hi as int).drop_last() == v@.subrange(0, hi - 1));
        hi -= 1;
    }
    let mut r = String::new();
    push_range(&mut r, &v, 0, hi);
    r
}

/// What `trim_start` leaves is empty or starts with other text.
pub proof fn lemma_trim_start_result(s: Seq<char>)
    ensures
        trim_start(s).len() == 0 || !is_white_space(trim_start(s)[0]),
    decreases s.len(),
{
    if s.len() > 0 && is_white_space(s[0]) {
        lemma_trim_start_result(s.drop_first());
    }
}

/// What `trim_end` leaves is empty or ends with other text.
pub proof fn lemma_trim_end_result(s: Seq<char>)
    ensures
        trim_end(s).len() == 0 || !is_white_space(trim_end(s).last()),
    decreases s.len(),
{
    if s.len() > 0 && is_white_space(s.last()) {
        lemma_trim_end_result(s.drop_last());
    }
}

/// Trimming twice is trimming once.
pub proof fn lemma_trim_idempotent(s: Seq<char>)
    ensures
        trim(trim(s)) == trim(s),
{
    let x = trim_start(s);
    let y = trim_end(x);
    lemma_trim_start_result(s);
    lemma_trim_end_result(x);
    lemma_trim_end_prefix(x);
    if y.len() > 0 {
        assert(y[0] == x[0]);
    }
    assert(trim_start(y) == y);
    assert(trim_end(y) == y);
}

/// `p` occurs somewhere in `s`.
pub open spec fn contains_text(s: Seq<char>, p: Seq<char>) -> bool {
    exists|i: int| 0 <= i <= s.len() - p.len() && #[trigger] s.subrange(i, i + p.len()) == p
}

} // verus!
