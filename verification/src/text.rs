//! Text helpers on `str` whose contracts speak of sequences of characters.

use vstd::prelude::*;
use vstd::utf8::encode_utf8;

verus! {

/// The characters of `s`, in order.
pub fn chars_of(s: &str) -> (v: Vec<char>)
    ensures
        v@ == s@,
{
    let mut v: Vec<char> = Vec::new();
    for c in it: s.chars()
        invariant
            it.seq() == s@,
            v@ == it.seq().take(it.index() as int),
    {
        assert(it.seq().take(it.index() + 1) =~= it.seq().take(it.index() as int).push(c));
        v.push(c);
    }
    assert(s@.take(s@.len() as int) =~= s@);
    v
}

/// Whether two strings hold the same characters.
pub fn str_eq(a: &str, b: &str) -> (r: bool)
    ensures
        r == (a@ == b@),
{
    let x = a.as_bytes();
    let y = b.as_bytes();
    proof {
        vstd::utf8::encode_utf8_decode_utf8(a@);
        vstd::utf8::encode_utf8_decode_utf8(b@);
    }
    if x.len() != y.len() {
        return false;
    }
    let n = x.len();
    let mut i: usize = 0;
    while i < n
        invariant
            n == x@.len(),
            n == y@.len(),
            i <= n,
            x@.subrange(0, i as int) == y@.subrange(0, i as int),
            x@ == encode_utf8(a@),
            y@ == encode_utf8(b@),
            a@ == b@ ==> x@ == y@,
        decreases n - i,
    {
        if x[i] != y[i] {
            return false;
        }
        assert(x@.subrange(0, i + 1) == x@.subrange(0, i as int).push(x@[i as int]));
        assert(y@.subrange(0, i + 1) == y@.subrange(0, i as int).push(y@[i as int]));
        i = i + 1;
    }
    assert(x@ == x@.subrange(0, n as int));
    assert(y@ == y@.subrange(0, n as int));
    true
}

/// Whether `s` begins with `prefix`.
pub fn starts_with(s: &str, prefix: &str) -> (r: bool)
    ensures
        r == prefix@.is_prefix_of(s@),
{
    let cs = chars_of(s);
    let ps = chars_of(prefix);
    if ps.len() > cs.len() {
        return false;
    }
    let m = ps.len();
    let mut i: usize = 0;
    while i < m
        invariant
            m == ps@.len(),
            m <= cs@.len(),
            i <= m,
            cs@ == s@,
            ps@ == prefix@,
            ps@.subrange(0, i as int) == cs@.subrange(0, i as int),
        decreases m - i,
    {
        if ps[i] != cs[i] {
            assert(ps@[i as int] != cs@.subrange(0, m as int)[i as int]);
            return false;
        }
        assert(ps@.subrange(0, i + 1) == ps@.subrange(0, i as int).push(ps@[i as int]));
        assert(cs@.subrange(0, i + 1) == cs@.subrange(0, i as int).push(cs@[i as int]));
        i = i + 1;
    }
    assert(ps@ == ps@.subrange(0, m as int));
    true
}

/// Whether the `m` characters of `cs` that end before index `end` are `suffix`.
fn suffix_at(cs: &Vec<char>, end: usize, suffix: &Vec<char>) -> (r: bool)
    requires
        end <= cs@.len(),
    ensures
        r == suffix@.is_suffix_of(cs@.subrange(0, end as int)),
{
    let m = suffix.len();
    if m > end {
        return false;
    }
    let start = end - m;
    let ghost head = cs@.subrange(0, end as int);
    let mut i: usize = 0;
    while i < m
        invariant
            m == suffix@.len(),
            start + m == end,
            end <= cs@.len(),
            i <= m,
            head == cs@.subrange(0, end as int),
            suffix@.subrange(0, i as int) == cs@.subrange(start as int, start + i),
        decreases m - i,
    {
        if suffix[i] != cs[start + i] {
            assert(suffix@[i as int] != head.subrange(head.len() - m, head.len() as int)[i as int]);
            return false;
        }
        assert(suffix@.subrange(0, i + 1) == suffix@.subrange(0, i as int).push(suffix@[i as int]));
        assert(cs@.subrange(start as int, start + i + 1) == cs@.subrange(
            start as int,
            start + i,
        ).push(cs@[start + i]));
        i = i + 1;
    }
    assert(suffix@ == suffix@.subrange(0, m as int));
    assert(head.subrange(head.len() - m, head.len() as int) == cs@.subrange(
        start as int,
        start + m,
    ));
    true
}

/// Whether `s` ends with `suffix`.
pub fn ends_with(s: &str, suffix: &str) -> (r: bool)
    ensures
        r == suffix@.is_suffix_of(s@),
{
    let cs = chars_of(s);
    let ps = chars_of(suffix);
    assert(cs@.subrange(0, cs@.len() as int) == cs@);
    suffix_at(&cs, cs.len(), &ps)
}

/// What follows the last `sep` in `s`; all of `s` where it holds no `sep`.
pub open spec fn last_segment(s: Seq<char>, sep: char) -> Seq<char>
    decreases s.len(),
{
    if s.len() == 0 {
        s
    } else if s.last() == sep {
        Seq::empty()
    } else {
        last_segment(s.drop_last(), sep).push(s.last())
    }
}

/// The last segment is the longest tail of `s` that holds no separator.
pub proof fn lemma_last_segment(s: Seq<char>, sep: char)
    ensures
        last_segment(s, sep).is_suffix_of(s),
        !last_segment(s, sep).contains(sep),
        last_segment(s, sep).len() < s.len() ==> s[s.len() - last_segment(s, sep).len() - 1] == sep,
    decreases s.len(),
{
    if s.len() > 0 && s.last() != sep {
        let head = s.drop_last();
        lemma_last_segment(head, sep);
        let t = last_segment(head, sep);
        let r = t.push(s.last());
        assert(s.subrange(s.len() - r.len(), s.len() as int) =~= r) by {
            assert(head.subrange(head.len() - t.len(), head.len() as int) == t);
        }
        assert forall|i: int| 0 <= i < r.len() implies r[i] != sep by {
            if i < t.len() {
                assert(t.contains(t[i]));
            }
        }
    } else if s.len() > 0 {
        assert(s.subrange(s.len() as int, s.len() as int) =~= Seq::<char>::empty());
    } else {
        assert(s.subrange(0, 0) =~= s);
    }
}

/// The last segment of `s`, as a new string.
pub fn last_segment_of(s: &str, sep: char) -> (r: String)
    ensures
        r@ == last_segment(s@, sep),
{
    let cs = chars_of(s);
    let n = cs.len();
    let mut k: usize = n;
    assert(s@.subrange(0, n as int) == s@);
    assert(s@.subrange(n as int, n as int) == Seq::<char>::empty());
    while k > 0 && cs[k - 1] != sep
        invariant
            k <= n,
            n == s@.len(),
            cs@ == s@,
            last_segment(s@, sep) == last_segment(s@.subrange(0, k as int), sep) + s@.subrange(
                k as int,
                n as int,
            ),
        decreases k,
    {
        let ghost head = s@.subrange(0, k as int);
        assert(head.drop_last() == s@.subrange(0, k - 1));
        assert(seq![head.last()] + s@.subrange(k as int, n as int) == s@.subrange(
            k - 1,
            n as int,
        ));
        assert(last_segment(head, sep) == last_segment(head.drop_last(), sep).push(head.last()));
        k = k - 1;
    }
    let part = s.substring_char(k, n);
    part.to_owned()
}

/// `s` without every trailing repetition of `suffix`.
pub open spec fn trim_suffix(s: Seq<char>, suffix: Seq<char>) -> Seq<char>
    decreases s.len(),
{
    if suffix.len() > 0 && suffix.is_suffix_of(s) {
        trim_suffix(s.subrange(0, s.len() - suffix.len()), suffix)
    } else {
        s
    }
}

/// What is left of a trimmed string is its head and does not end with the suffix.
pub proof fn lemma_trim_suffix(s: Seq<char>, suffix: Seq<char>)
    requires
        suffix.len() > 0,
    ensures
        trim_suffix(s, suffix).is_prefix_of(s),
        !suffix.is_suffix_of(trim_suffix(s, suffix)),
    decreases s.len(),
{
    if suffix.is_suffix_of(s) {
        let head = s.subrange(0, s.len() - suffix.len());
        lemma_trim_suffix(head, suffix);
        let t = trim_suffix(head, suffix);
        assert(s.subrange(0, t.len() as int) =~= head.subrange(0, t.len() as int));
    } else {
        assert(s.subrange(0, s.len() as int) =~= s);
    }
}

/// `s` without every trailing repetition of `suffix`, as a new string.
pub fn trim_suffix_of(s: &str, suffix: &str) -> (r: String)
    ensures
        r@ == trim_suffix(s@, suffix@),
{
    let cs = chars_of(s);
    let ps = chars_of(suffix);
    let m = ps.len();
    let mut end: usize = cs.len();
    assert(s@.subrange(0, end as int) == s@);
    if m > 0 {
        while suffix_at(&cs, end, &ps)
            invariant
                m == ps@.len(),
                m > 0,
                ps@ == suffix@,
                cs@ == s@,
                end <= cs@.len(),
                trim_suffix(s@, suffix@) == trim_suffix(s@.subrange(0, end as int), suffix@),
            decreases end,
        {
            assert(s@.subrange(0, end as int).subrange(0, end - m) == s@.subrange(0, end - m));
            end = end - m;
        }
    }
    let part = s.substring_char(0, end);
    part.to_owned()
}

/// `a` followed by `b`.
pub fn joined(a: &str, b: &str) -> (r: String)
    ensures
        r@ == a@ + b@,
{
    let mut out = a.to_owned();
    out.append(b);
    out
}

/// The decimal digit of a number below ten.
pub open spec fn digit(d: nat) -> char {
    if d == 0 {
        '0'
    } else if d == 1 {
        '1'
    } else if d == 2 {
        '2'
    } else if d == 3 {
        '3'
    } else if d == 4 {
        '4'
    } else if d == 5 {
        '5'
    } else if d == 6 {
        '6'
    } else if d == 7 {
        '7'
    } else if d == 8 {
        '8'
    } else {
        '9'
    }
}

/// A number in decimal digits, without leading zeros.
pub open spec fn decimal(n: nat) -> Seq<char>
    decreases n,
{
    if n < 10 {
        seq![digit(n)]
    } else {
        decimal(n / 10).push(digit(n % 10))
    }
}

/// The decimal digit of a number below ten, as a text of one character.
fn digit_text(d: u8) -> (r: &'static str)
    requires
        d < 10,
    ensures
        r@ == seq![digit(d as nat)],
{
    proof {
        reveal_strlit("0");
        reveal_strlit("1");
        reveal_strlit("2");
        reveal_strlit("3");
        reveal_strlit("4");
        reveal_strlit("5");
        reveal_strlit("6");
        reveal_strlit("7");
        reveal_strlit("8");
        reveal_strlit("9");
    }
    let r = if d == 0 {
        "0"
    } else if d == 1 {
        "1"
    } else if d == 2 {
        "2"
    } else if d == 3 {
        "3"
    } else if d == 4 {
        "4"
    } else if d == 5 {
        "5"
    } else if d == 6 {
        "6"
    } else if d == 7 {
        "7"
    } else if d == 8 {
        "8"
    } else {
        "9"
    };
    assert(r@ =~= seq![digit(d as nat)]);
    r
}

/// A number in decimal digits.
pub fn decimal_text(n: u64) -> (r: String)
    ensures
        r@ == decimal(n as nat),
    decreases n,
{
    if n < 10 {
        digit_text(n as u8).to_owned()
    } else {
        let head = decimal_text(n / 10);
        let last = digit_text((n % 10) as u8);
        assert(head@ + last@ =~= head@.push(digit((n % 10) as nat)));
        joined(head.as_str(), last)
    }
}

} // verus!
