//! Character-level helpers on text: white space, trimming, prefixes and
//! substring search, each with its meaning over `Seq<char>`.

use vstd::prelude::*;
use vstd::string::*;

verus! {

/// Whether `c` has the Unicode `White_Space` property.
pub open spec fn is_space(c: char) -> bool {
    let n = c as u32;
    (0x09 <= n <= 0x0D) || n == 0x20 || n == 0x85 || n == 0xA0 || n == 0x1680
        || (0x2000 <= n <= 0x200A) || n == 0x2028 || n == 0x2029 || n == 0x202F
        || n == 0x205F || n == 0x3000
}

/// A text is blank when it is empty or holds white space only.
pub open spec fn is_blank(s: Seq<char>) -> bool {
    forall|i: int| 0 <= i < s.len() ==> is_space(#[trigger] s[i])
}

/// `s` without its leading white space.
pub open spec fn trim_start(s: Seq<char>) -> Seq<char>
    decreases s.len(),
{
    if s.len() > 0 && is_space(s.first()) {
        trim_start(s.drop_first())
    } else {
        s
    }
}

/// `s` without its trailing white space.
pub open spec fn trim_end(s: Seq<char>) -> Seq<char>
    decreases s.len(),
{
    if s.len() > 0 && is_space(s.last()) {
        trim_end(s.drop_last())
    } else {
        s
    }
}

/// `s` without leading and trailing white space.
pub open spec fn trimmed(s: Seq<char>) -> Seq<char> {
    trim_end(trim_start(s))
}

/// `s` without the run of `c` that it begins with.
pub open spec fn strip_start(s: Seq<char>, c: char) -> Seq<char>
    decreases s.len(),
{
    if s.len() > 0 && s.first() == c {
        strip_start(s.drop_first(), c)
    } else {
        s
    }
}

/// `s` without the run of `c` that it ends with.
pub open spec fn strip_end(s: Seq<char>, c: char) -> Seq<char>
    decreases s.len(),
{
    if s.len() > 0 && s.last() == c {
        strip_end(s.drop_last(), c)
    } else {
        s
    }
}

/// `s` without the runs of `c` at its two ends.
pub open spec fn stripped(s: Seq<char>, c: char) -> Seq<char> {
    strip_end(strip_start(s, c), c)
}

/// `p` stands in `s` at position `i`.
pub open spec fn occurs_at(s: Seq<char>, p: Seq<char>, i: int) -> bool {
    0 <= i && i + p.len() <= s.len() && s.subrange(i, i + p.len()) == p
}

/// `p` stands somewhere in `s` as a contiguous run.
pub open spec fn contains_seq(s: Seq<char>, p: Seq<char>) -> bool {
    exists|i: int| occurs_at(s, p, i)
}

/// `s` begins with `p`.
pub open spec fn has_prefix(s: Seq<char>, p: Seq<char>) -> bool {
    occurs_at(s, p, 0)
}

/// `s` with every `from` replaced by `to`.
pub open spec fn replace_char(s: Seq<char>, from: char, to: char) -> Seq<char> {
    Seq::new(s.len(), |i: int| if s[i] == from { to } else { s[i] })
}

/// Whether `c` has the Unicode `White_Space` property.
pub fn char_is_space(c: char) -> (r: bool)
    ensures
        r == is_space(c),
{
    let n: u32 = c as u32;
    (0x09 <= n && n <= 0x0D) || n == 0x20 || n == 0x85 || n == 0xA0 || n == 0x1680 || (0x2000 <= n
        && n <= 0x200A) || n == 0x2028 || n == 0x2029 || n == 0x202F || n == 0x205F || n == 0x3000
}

/// The characters of `s`, one by one.
pub fn to_chars(s: &str) -> (v: Vec<char>)
    ensures
        v@ == s@,
{
    let mut v: Vec<char> = Vec::new();
    for c in iter: s.chars()
        invariant
            iter.seq() == s@,
            v@ == iter.seq().take(iter.index() as int),
    {
        v.push(c);
        assert(v@ =~= iter.seq().take(iter.index() + 1));
    }
    assert(v@ =~= s@);
    v
}

/// Whether `s` is empty or holds white space only.
pub fn is_blank_text(s: &str) -> (r: bool)
    ensures
        r == is_blank(s@),
{
    let v: Vec<char> = to_chars(s);
    let mut i: usize = 0;
    while i < v.len()
        invariant
            v@ == s@,
            0 <= i <= v.len(),
            forall|j: int| 0 <= j < i ==> is_space(#[trigger] s@[j]),
        decreases v.len() - i,
    {
        if !char_is_space(v[i]) {
            return false;
        }
        i += 1;
    }
    true
}

/// Calls `String::push` of std: `c` is added at the end of `s`.
#[verifier::external_body]
pub(crate) fn push_char(s: &mut String, c: char)
    ensures
        final(s)@ == old(s)@.push(c),
{
    s.push(c);
}

/// Index of the first character of `v` that is no white space, or
/// `v.len()`.
fn skip_spaces(v: &Vec<char>) -> (a: usize)
    ensures
        a <= v@.len(),
        trim_start(v@) == v@.skip(a as int),
        is_blank(v@.subrange(0, a as int)),
{
    let mut a: usize = 0;
    assert(v@.skip(0) =~= v@);
    while a < v.len() && char_is_space(v[a])
        invariant
            0 <= a <= v@.len(),
            trim_start(v@) == trim_start(v@.skip(a as int)),
            is_blank(v@.subrange(0, a as int)),
        decreases v@.len() - a,
    {
        assert(v@.skip(a as int).drop_first() =~= v@.skip(a + 1));
        a += 1;
    }
    a
}

/// End of the part of `v[a..]` that is left when trailing white space goes.
fn drop_spaces(v: &Vec<char>, a: usize) -> (b: usize)
    requires
        a <= v@.len(),
    ensures
        a <= b <= v@.len(),
        trim_end(v@.skip(a as int)) == v@.subrange(a as int, b as int),
{
    let mut b: usize = v.len();
    assert(v@.subrange(a as int, b as int) =~= v@.skip(a as int));
    while b > a && char_is_space(v[b - 1])
        invariant
            a <= b <= v@.len(),
            trim_end(v@.skip(a as int)) == trim_end(v@.subrange(a as int, b as int)),
        decreases b,
    {
        assert(v@.subrange(a as int, b as int).drop_last() =~= v@.subrange(a as int, b - 1));
        b -= 1;
    }
    b
}

/// `s` without leading and trailing white space.
pub fn trim_text(s: &str) -> (r: &str)
    ensures
        r@ == trimmed(s@),
{
    let v: Vec<char> = to_chars(s);
    let a: usize = skip_spaces(&v);
    let b: usize = drop_spaces(&v, a);
    s.substring_char(a, b)
}

/// `s` without the runs of `c` at its two ends.
pub fn strip_text(s: &str, c: char) -> (r: &str)
    ensures
        r@ == stripped(s@, c),
{
    let v: Vec<char> = to_chars(s);
    let mut a: usize = 0;
    assert(v@.skip(0) =~= v@);
    while a < v.len() && v[a] == c
        invariant
            0 <= a <= v@.len(),
            strip_start(v@, c) == strip_start(v@.skip(a as int), c),
        decreases v@.len() - a,
    {
        assert(v@.skip(a as int).drop_first() =~= v@.skip(a + 1));
        a += 1;
    }
    let mut b: usize = v.len();
    assert(v@.subrange(a as int, b as int) =~= v@.skip(a as int));
    while b > a && v[b - 1] == c
        invariant
            a <= b <= v@.len(),
            strip_end(v@.skip(a as int), c) == strip_end(v@.subrange(a as int, b as int), c),
        decreases b,
    {
        assert(v@.subrange(a as int, b as int).drop_last() =~= v@.subrange(a as int, b - 1));
        b -= 1;
    }
    s.substring_char(a, b)
}

/// Whether `p` stands in `v` at position `i`.
fn matches_at(v: &Vec<char>, p: &Vec<char>, i: usize) -> (r: bool)
    requires
        i + p@.len() <= v@.len(),
    ensures
        r == occurs_at(v@, p@, i as int),
{
    let mut k: usize = 0;
    while k < p.len()
        invariant
            0 <= k <= p.len(),
            i + p.len() <= v.len(),
            forall|j: int| 0 <= j < k ==> v@[i + j] == #[trigger] p@[j],
        decreases p@.len() - k,
    {
        if v[i + k] != p[k] {
            assert(v@.subrange(i as int, i + p@.len())[k as int] != p@[k as int]);
            return false;
        }
        k += 1;
    }
    assert(v@.subrange(i as int, i + p@.len()) =~= p@);
    true
}

/// Whether `s` begins with `p`.
pub fn starts_with_text(s: &str, p: &str) -> (r: bool)
    ensures
        r == has_prefix(s@, p@),
{
    let pv: Vec<char> = to_chars(p);
    let n: usize = s.unicode_len();
    if n < pv.len() {
        return false;
    }
    let head: Vec<char> = to_chars(s.substring_char(0, pv.len()));
    let r = matches_at(&head, &pv, 0);
    assert(head@.subrange(0, pv@.len() as int) =~= s@.subrange(0, pv@.len() as int));
    r
}

/// Whether `p` stands somewhere in `s`.
pub fn contains_text(s: &str, p: &str) -> (r: bool)
    ensures
        r == contains_seq(s@, p@),
{
    let v: Vec<char> = to_chars(s);
    let pv: Vec<char> = to_chars(p);
    if v.len() < pv.len() {
        return false;
    }
    let last: usize = v.len() - pv.len();
    let mut i: usize = 0;
    loop
        invariant
            v@ == s@,
            pv@ == p@,
            pv.len() <= v.len(),
            last == v.len() - pv.len(),
            0 <= i <= last,
            forall|j: int| 0 <= j < i ==> !occurs_at(v@, pv@, j),
        decreases last - i,
    {
        if matches_at(&v, &pv, i) {
            return true;
        }
        if i == last {
            return false;
        }
        i += 1;
    }
}

/// The text of one decimal digit.
pub open spec fn digit(d: nat) -> Seq<char> {
    if d == 0 {
        "0"@
    } else if d == 1 {
        "1"@
    } else if d == 2 {
        "2"@
    } else if d == 3 {
        "3"@
    } else if d == 4 {
        "4"@
    } else if d == 5 {
        "5"@
    } else if d == 6 {
        "6"@
    } else if d == 7 {
        "7"@
    } else if d == 8 {
        "8"@
    } else {
        "9"@
    }
}

/// The decimal text of `n`, without leading zeros.
pub open spec fn decimal(n: nat) -> Seq<char>
    decreases n,
{
    if n < 10 {
        digit(n)
    } else {
        decimal(n / 10) + digit(n % 10)
    }
}

fn digit_text(d: u16) -> (r: &'static str)
    requires
        d < 10,
    ensures
        r@ == digit(d as nat),
{
    if d == 0 {
        "0"
    } else if d == 1 {
        "1"
    } else if d == 2 {
        "2"
    } else if d == 3 {
        "3"
    } else if d == 4 {
        "4"
    } else if d == 5 {
        "5"
    } else if d == 6 {
        "6"
    } else if d == 7 {
        "7"
    } else if d == 8 {
        "8"
    } else {
        "9"
    }
}

/// The decimal text of `n`.
pub fn decimal_text(n: u16) -> (r: String)
    ensures
        r@ == decimal(n as nat),
    decreases n,
{
    if n < 10 {
        digit_text(n).to_owned()
    } else {
        let mut r = decimal_text(n / 10);
        r.append(digit_text(n % 10));
        r
    }
}

/// A blank text is one of which trimming leaves nothing.
pub proof fn lemma_blank_trims_to_nothing(s: Seq<char>)
    ensures
        is_blank(s) <==> trimmed(s).len() == 0,
    decreases s.len(),
{
    lemma_trim_start_shape(s);
    let t = trim_start(s);
    lemma_trim_end_shape(t);
    if is_blank(s) {
        assert(is_blank(t));
        lemma_trim_end_of_blank(t);
    } else {
        let i = choose|i: int| 0 <= i < s.len() && !is_space(#[trigger] s[i]);
        let a = s.len() - t.len();
        assert(a <= i) by {
            if i < a {
                assert(s.subrange(0, a)[i] == s[i]);
            }
        };
        assert(t[i - a] == s[i]);
        assert(t.len() > 0 && !is_space(t.first()));
        lemma_trim_end_keeps_first(t);
    }
}

/// `trim_start` removes a blank prefix and leaves a text that does not
/// begin with white space.
pub proof fn lemma_trim_start_shape(s: Seq<char>)
    ensures
        trim_start(s).len() <= s.len(),
        trim_start(s) == s.skip(s.len() - trim_start(s).len()),
        is_blank(s.subrange(0, s.len() - trim_start(s).len())),
        trim_start(s).len() > 0 ==> !is_space(trim_start(s).first()),
    decreases s.len(),
{
    if s.len() > 0 && is_space(s.first()) {
        let d = s.drop_first();
        lemma_trim_start_shape(d);
        let k = d.len() - trim_start(d).len();
        assert(d.skip(k) =~= s.skip(k + 1));
        assert forall|i: int| 0 <= i < k + 1 implies is_space(#[trigger] s.subrange(0, k + 1)[i]) by {
            if i > 0 {
                assert(d.subrange(0, k)[i - 1] == s[i]);
            }
        };
    } else {
        assert(s.skip(0) =~= s);
    }
}

/// `trim_end` removes a blank suffix and leaves a text that does not end
/// with white space.
pub proof fn lemma_trim_end_shape(s: Seq<char>)
    ensures
        trim_end(s).len() <= s.len(),
        trim_end(s) == s.take(trim_end(s).len() as int),
        is_blank(s.skip(trim_end(s).len() as int)),
        trim_end(s).len() > 0 ==> !is_space(trim_end(s).last()),
    decreases s.len(),
{
    if s.len() > 0 && is_space(s.last()) {
        let d = s.drop_last();
        lemma_trim_end_shape(d);
        let k = trim_end(d).len() as int;
        assert(d.take(k) =~= s.take(k));
        assert forall|i: int| 0 <= i < s.len() - k implies is_space(#[trigger] s.skip(k)[i]) by {
            if i < d.len() - k {
                assert(d.skip(k)[i] == s[k + i]);
            }
        };
    } else {
        assert(s.take(s.len() as int) =~= s);
    }
}

/// Trimming keeps a middle part of the text and drops a blank part on
/// either side of it. The result gives where the kept part begins and
/// ends.
pub proof fn lemma_trimmed_is_middle(s: Seq<char>) -> (r: (int, int))
    ensures
        0 <= r.0 <= r.1 <= s.len(),
        trimmed(s) == s.subrange(r.0, r.1),
        is_blank(s.subrange(0, r.0)),
        is_blank(s.subrange(r.1, s.len() as int)),
{
    lemma_trim_start_shape(s);
    let t = trim_start(s);
    lemma_trim_end_shape(t);
    let a = s.len() - t.len();
    let b = a + trim_end(t).len();
    assert(t.take(trim_end(t).len() as int) =~= s.subrange(a, b));
    assert(t.skip(trim_end(t).len() as int) =~= s.subrange(b, s.len() as int));
    (a, b)
}

/// A run that neither begins nor ends with white space stands in a text
/// exactly if it stands in the trimmed text.
pub proof fn lemma_contains_survives_trim(s: Seq<char>, p: Seq<char>)
    requires
        p.len() > 0,
        !is_space(p.first()),
        !is_space(p.last()),
    ensures
        contains_seq(s, p) <==> contains_seq(trimmed(s), p),
{
    let (a, b) = lemma_trimmed_is_middle(s);
    let t = trimmed(s);
    if contains_seq(s, p) {
        let i = choose|i: int| occurs_at(s, p, i);
        assert(s.subrange(i, i + p.len())[0] == p[0]);
        assert(s.subrange(i, i + p.len())[p.len() - 1] == p[p.len() - 1]);
        assert(a <= i) by {
            if i < a {
                assert(s.subrange(0, a)[i] == s[i]);
            }
        };
        assert(i + p.len() <= b) by {
            if i + p.len() > b {
                let j = i + p.len() - 1;
                assert(s.subrange(b, s.len() as int)[j - b] == s[j]);
            }
        };
        assert(t.subrange(i - a, i - a + p.len()) =~= s.subrange(i, i + p.len()));
        assert(occurs_at(t, p, i - a));
    }
    if contains_seq(t, p) {
        let k = choose|k: int| occurs_at(t, p, k);
        assert(s.subrange(a + k, a + k + p.len()) =~= t.subrange(k, k + p.len()));
        assert(occurs_at(s, p, a + k));
    }
}

proof fn lemma_trim_end_of_blank(s: Seq<char>)
    requires
        is_blank(s),
    ensures
        trim_end(s).len() == 0,
    decreases s.len(),
{
    if s.len() > 0 {
        assert(is_space(s[s.len() - 1]));
        let d = s.drop_last();
        assert forall|i: int| 0 <= i < d.len() implies is_space(#[trigger] d[i]) by {
            assert(d[i] == s[i]);
        };
        lemma_trim_end_of_blank(d);
    }
}

proof fn lemma_trim_end_keeps_first(s: Seq<char>)
    requires
        s.len() > 0,
        !is_space(s.first()),
    ensures
        trim_end(s).len() > 0,
    decreases s.len(),
{
    if is_space(s.last()) {
        let d = s.drop_last();
        assert(d.len() > 0) by {
            if d.len() == 0 {
                assert(s.last() == s.first());
            }
        };
        assert(d.first() == s.first());
        lemma_trim_end_keeps_first(d);
    }
}

} // verus!
