//! Character-level string helpers shared by the rest of the library:
//! substring search, Unicode whitespace trimming and column padding.
use vstd::prelude::*;

verus! {

/// `p` occurs in `s` starting at position `i`.
pub open spec fn occurs_at(s: Seq<char>, p: Seq<char>, i: int) -> bool {
    &&& 0 <= i
    &&& i + p.len() <= s.len()
    &&& s.subrange(i, i + p.len()) == p
}

/// `p` occurs somewhere in `s` (what `str::contains` answers for a string pattern).
pub open spec fn contains_seq(s: Seq<char>, p: Seq<char>) -> bool {
    exists|i: int| occurs_at(s, p, i)
}

/// The `White_Space` property of Unicode, which `char::is_whitespace` tests.
pub open spec fn is_whitespace(c: char) -> bool {
    let n = c as u32;
    ||| 0x09 <= n <= 0x0D
    ||| n == 0x20
    ||| n == 0x85
    ||| n == 0xA0
    ||| n == 0x1680
    ||| 0x2000 <= n <= 0x200A
    ||| n == 0x2028
    ||| n == 0x2029
    ||| n == 0x202F
    ||| n == 0x205F
    ||| n == 0x3000
}

/// `s` without its leading whitespace.
pub open spec fn trim_start(s: Seq<char>) -> Seq<char>
    decreases s.len(),
{
    if s.len() > 0 && is_whitespace(s[0]) {
        trim_start(s.drop_first())
    } else {
        s
    }
}

/// `s` without its trailing whitespace.
pub open spec fn trim_end(s: Seq<char>) -> Seq<char>
    decreases s.len(),
{
    if s.len() > 0 && is_whitespace(s.last()) {
        trim_end(s.drop_last())
    } else {
        s
    }
}

/// `s` without leading and trailing whitespace (what `str::trim` returns).
pub open spec fn trim(s: Seq<char>) -> Seq<char> {
    trim_end(trim_start(s))
}

/// `n` space characters.
pub open spec fn spaces(n: nat) -> Seq<char> {
    Seq::new(n, |i: int| ' ')
}

/// Whether `a` and `b` are the same text.
pub fn str_equals(a: &str, b: &str) -> (r: bool)
    ensures
        r == (a@ == b@),
{
    let v = chars_of(a);
    let w = chars_of(b);
    if v.len() != w.len() {
        return false;
    }
    let r = occurs_at_exec(&v, &w, 0);
    assert(v@.subrange(0, w@.len() as int) =~= v@);
    r
}

/// `s` left-aligned in a column of `width` characters, as `format!("{:<width$}", s)`
/// lays it out: padded with spaces on the right, never cut.
pub open spec fn pad_right(s: Seq<char>, width: nat) -> Seq<char> {
    if s.len() >= width {
        s
    } else {
        s + spaces((width - s.len()) as nat)
    }
}

/// Every character of `s` is whitespace.
pub open spec fn all_whitespace(s: Seq<char>) -> bool {
    forall|i: int| 0 <= i < s.len() ==> is_whitespace(#[trigger] s[i])
}

proof fn lemma_trim_start_skips(p: Seq<char>, x: Seq<char>)
    requires
        all_whitespace(p),
    ensures
        trim_start(p + x) == trim_start(x),
    decreases p.len(),
{
    if p.len() > 0 {
        assert((p + x).drop_first() =~= p.drop_first() + x);
        assert(is_whitespace(p[0]));
        lemma_trim_start_skips(p.drop_first(), x);
    } else {
        assert(p + x =~= x);
    }
}

proof fn lemma_trim_end_skips(x: Seq<char>, q: Seq<char>)
    requires
        all_whitespace(q),
    ensures
        trim_end(x + q) == trim_end(x),
    decreases q.len(),
{
    if q.len() > 0 {
        assert((x + q).drop_last() =~= x + q.drop_last());
        assert(is_whitespace(q.last()));
        lemma_trim_end_skips(x, q.drop_last());
    } else {
        assert(x + q =~= x);
    }
}

proof fn lemma_trim_start_all_whitespace(s: Seq<char>)
    requires
        all_whitespace(s),
    ensures
        trim_start(s) == Seq::<char>::empty(),
    decreases s.len(),
{
    if s.len() > 0 {
        assert(is_whitespace(s[0]));
        lemma_trim_start_all_whitespace(s.drop_first());
    }
}

proof fn lemma_trim_start_append(s: Seq<char>, q: Seq<char>)
    requires
        !all_whitespace(s),
    ensures
        trim_start(s + q) == trim_start(s) + q,
    decreases s.len(),
{
    if is_whitespace(s[0]) {
        assert((s + q).drop_first() =~= s.drop_first() + q);
        assert(!all_whitespace(s.drop_first())) by {
            let i = choose|i: int| 0 <= i < s.len() && !is_whitespace(s[i]);
            assert(s.drop_first()[i - 1] == s[i]);
        }
        lemma_trim_start_append(s.drop_first(), q);
    }
}

/// Whitespace around a text does not change the text once trimmed.
pub proof fn lemma_trim_ignores_surrounding_whitespace(p: Seq<char>, s: Seq<char>, q: Seq<char>)
    requires
        all_whitespace(p),
        all_whitespace(q),
    ensures
        trim(p + s + q) == trim(s),
{
    assert(p + s + q =~= p + (s + q));
    lemma_trim_start_skips(p, s + q);
    if all_whitespace(s) {
        assert(all_whitespace(s + q)) by {
            assert forall|i: int| 0 <= i < (s + q).len() implies is_whitespace(#[trigger] (s + q)[i]) by {
                if i >= s.len() {
                    assert((s + q)[i] == q[i - s.len()]);
                }
            }
        }
        lemma_trim_start_all_whitespace(s + q);
        lemma_trim_start_all_whitespace(s);
    } else {
        lemma_trim_start_append(s, q);
        lemma_trim_end_skips(trim_start(s), q);
    }
}

/// Appends one character to a `String`.
///
/// Trusted: calls `String::push`, which std documents as appending the given
/// `char` to the end of the string; the contract says exactly that.
#[verifier::external_body]
pub(crate) fn push_char(s: &mut String, c: char)
    ensures
        final(s)@ == old(s)@.push(c),
{
    s.push(c);
}

/// The characters of `s`, in order.
pub fn chars_of(s: &str) -> (v: Vec<char>)
    ensures
        v@ == s@,
{
    let mut v: Vec<char> = Vec::new();
    for c in it: s.chars()
        invariant
            v@ == it.seq().take(it.index() as int),
    {
        v.push(c);
    }
    v
}

/// An owned copy of `s`.
pub fn owned(s: &str) -> (r: String)
    ensures
        r@ == s@,
{
    s.to_owned()
}

/// The concatenation of `a` and `b`.
pub fn concat2(a: &str, b: &str) -> (r: String)
    ensures
        r@ == a@ + b@,
{
    let mut r = a.to_owned();
    r.append(b);
    r
}

/// The concatenation of `a`, `b` and `c`.
pub fn concat3(a: &str, b: &str, c: &str) -> (r: String)
    ensures
        r@ == a@ + b@ + c@,
{
    let mut r = a.to_owned();
    r.append(b);
    r.append(c);
    r
}

/// Whether `p` occurs in `s` at position `i`.
pub fn occurs_at_exec(s: &Vec<char>, p: &Vec<char>, i: usize) -> (b: bool)
    ensures
        b == occurs_at(s@, p@, i as int),
{
    if p.len() > s.len() || i > s.len() - p.len() {
        return false;
    }
    let mut j: usize = 0;
    while j < p.len()
        invariant
            i + p.len() <= s.len(),
            j <= p.len(),
            forall|k: int| 0 <= k < j ==> s@[i + k] == p@[k],
        decreases p.len() - j,
    {
        if s[i + j] != p[j] {
            assert(s@.subrange(i as int, i + p.len())[j as int] != p@[j as int]);
            return false;
        }
        j += 1;
    }
    assert(s@.subrange(i as int, i + p.len()) =~= p@);
    true
}

/// Whether `p` occurs anywhere in `s`.
pub fn contains_chars(s: &Vec<char>, p: &Vec<char>) -> (b: bool)
    ensures
        b == contains_seq(s@, p@),
{
    if p.len() > s.len() {
        return false;
    }
    let last = s.len() - p.len();
    let mut i: usize = 0;
    while i < last
        invariant
            last == s.len() - p.len(),
            p.len() <= s.len(),
            i <= last,
            forall|k: int| 0 <= k < i ==> !occurs_at(s@, p@, k),
        decreases last - i,
    {
        if occurs_at_exec(s, p, i) {
            return true;
        }
        i += 1;
    }
    if occurs_at_exec(s, p, last) {
        return true;
    }
    assert forall|k: int| !occurs_at(s@, p@, k) by {
        if 0 <= k < last {
            assert(!occurs_at(s@, p@, k));
        }
    }
    false
}

/// Whether `c` has the Unicode `White_Space` property.
pub fn is_whitespace_exec(c: char) -> (b: bool)
    ensures
        b == is_whitespace(c),
{
    let n = c as u32;
    (0x09 <= n && n <= 0x0D) || n == 0x20 || n == 0x85 || n == 0xA0 || n == 0x1680 || (0x2000
        <= n && n <= 0x200A) || n == 0x2028 || n == 0x2029 || n == 0x202F || n == 0x205F || n
        == 0x3000
}

/// The bounds of `v` once leading and trailing whitespace is cut away.
pub fn trim_bounds(v: &Vec<char>) -> (r: (usize, usize))
    ensures
        r.0 <= r.1 <= v.len(),
        v@.subrange(r.0 as int, r.1 as int) == trim(v@),
{
    let n = v.len();
    let mut lo: usize = 0;
    assert(v@.subrange(0, n as int) =~= v@);
    while lo < n && is_whitespace_exec(v[lo])
        invariant
            n == v.len(),
            lo <= n,
            trim_start(v@) == trim_start(v@.subrange(lo as int, n as int)),
        decreases n - lo,
    {
        assert(v@.subrange(lo as int, n as int).drop_first() =~= v@.subrange(
            lo + 1,
            n as int,
        ));
        lo += 1;
    }
    assert(trim_start(v@) == v@.subrange(lo as int, n as int));
    let mut hi: usize = n;
    while hi > lo && is_whitespace_exec(v[hi - 1])
        invariant
            n == v.len(),
            lo <= hi <= n,
            trim(v@) == trim_end(v@.subrange(lo as int, hi as int)),
        decreases hi - lo,
    {
        assert(v@.subrange(lo as int, hi as int).drop_last() =~= v@.subrange(
            lo as int,
            hi - 1,
        ));
        hi -= 1;
    }
    (lo, hi)
}

/// Whether `s`, trimmed of surrounding whitespace, equals `p`.
pub fn trimmed_equals(s: &str, p: &str) -> (b: bool)
    ensures
        b == (trim(s@) == p@),
{
    let v = chars_of(s);
    let q = chars_of(p);
    let (lo, hi) = trim_bounds(&v);
    if hi - lo != q.len() {
        return false;
    }
    occurs_at_exec(&v, &q, lo)
}

/// `s` left-aligned in a column of `width` characters.
pub fn pad_right_exec(s: &str, width: usize) -> (r: String)
    ensures
        r@ == pad_right(s@, width as nat),
{
    let n = chars_of(s).len();
    let mut r = s.to_owned();
    if n >= width {
        return r;
    }
    let mut k: usize = n;
    while k < width
        invariant
            n <= k <= width,
            n == s@.len(),
            r@ == s@ + spaces((k - n) as nat),
        decreases width - k,
    {
        r.append(" ");
        proof {
            reveal_strlit(" ");
        }
        assert(spaces((k + 1 - n) as nat) =~= spaces((k - n) as nat) + " "@);
        k += 1;
    }
    r
}

} // verus!
