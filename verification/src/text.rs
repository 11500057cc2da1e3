//! Text primitives the relay is specified with: substring search, splitting
//! on a separator, whitespace trimming and decimal rendering, each with a
//! specification-level definition and a verified executable counterpart.

use vstd::prelude::*;

verus! {

/// Whether `needle` occurs in `hay` starting at position `i`.
pub open spec fn has_substring_at(hay: Seq<char>, needle: Seq<char>, i: int) -> bool {
    0 <= i && i + needle.len() <= hay.len() && hay.subrange(i, i + needle.len()) == needle
}

/// Whether `needle` occurs anywhere in `hay`.
pub open spec fn has_substring(hay: Seq<char>, needle: Seq<char>) -> bool {
    exists|i: int| has_substring_at(hay, needle, i)
}

/// Substring search over the characters of the two strings.
pub fn str_contains(hay: &str, needle: &str) -> (r: bool)
    ensures
        r == has_substring(hay@, needle@),
{
    let h = hay.unicode_len();
    let m = needle.unicode_len();
    if m > h {
        proof {
            assert forall|k: int| !has_substring_at(hay@, needle@, k) by {}
        }
        return false;
    }
    let mut i: usize = 0;
    while i <= h - m
        invariant
            m <= h,
            h == hay@.len(),
            m == needle@.len(),
            i <= h - m + 1,
            forall|k: int| 0 <= k < i ==> !has_substring_at(hay@, needle@, k),
        decreases h - i,
    {
        let mut j: usize = 0;
        while j < m && needle.get_char(j) == hay.get_char(i + j)
            invariant
                m <= h,
                h == hay@.len(),
                m == needle@.len(),
                i + m <= h,
                j <= m,
                forall|k: int| 0 <= k < j ==> hay@[i + k] == needle@[k],
            decreases m - j,
        {
            j += 1;
        }
        if j == m {
            proof {
                assert(hay@.subrange(i as int, i + m) =~= needle@);
                assert(has_substring_at(hay@, needle@, i as int));
            }
            return true;
        }
        proof {
            assert(!has_substring_at(hay@, needle@, i as int)) by {
                if has_substring_at(hay@, needle@, i as int) {
                    assert(hay@.subrange(i as int, i + m)[j as int] == hay@[i + j]);
                }
            }
        }
        i += 1;
    }
    proof {
        assert forall|k: int| !has_substring_at(hay@, needle@, k) by {
            if 0 <= k <= h - m {
                assert(!has_substring_at(hay@, needle@, k));
            }
        }
    }
    false
}

/// The segments of `s` between occurrences of `sep`, in order, keeping empty
/// segments; a string without a separator is one segment.
pub open spec fn split_on(s: Seq<char>, sep: char) -> Seq<Seq<char>>
    decreases s.len(),
{
    if s.len() == 0 {
        seq![Seq::<char>::empty()]
    } else {
        let init = split_on(s.drop_last(), sep);
        if s.last() == sep {
            init.push(Seq::<char>::empty())
        } else {
            init.update(init.len() - 1, init.last().push(s.last()))
        }
    }
}

/// A split has at least one segment.
pub proof fn lemma_split_on_nonempty(s: Seq<char>, sep: char)
    ensures
        split_on(s, sep).len() >= 1,
    decreases s.len(),
{
    if s.len() > 0 {
        lemma_split_on_nonempty(s.drop_last(), sep);
    }
}

/// A string splits into a single segment exactly when it holds no separator.
pub proof fn lemma_split_on_no_sep(s: Seq<char>, sep: char)
    ensures
        (split_on(s, sep).len() == 1) <==> (forall|i: int| 0 <= i < s.len() ==> s[i] != sep),
    decreases s.len(),
{
    if s.len() > 0 {
        lemma_split_on_no_sep(s.drop_last(), sep);
        lemma_split_on_nonempty(s.drop_last(), sep);
        if s.last() == sep {
            assert(s[s.len() - 1] == sep);
        } else {
            assert forall|i: int| 0 <= i < s.len() - 1 implies s.drop_last()[i] == s[i] by {}
        }
    }
}

/// Appending separator-free text extends the last segment and nothing else.
pub proof fn lemma_split_on_append_no_sep(a: Seq<char>, b: Seq<char>, sep: char)
    requires
        forall|i: int| 0 <= i < b.len() ==> b[i] != sep,
    ensures
        split_on(a + b, sep) == split_on(a, sep).update(
            split_on(a, sep).len() - 1,
            split_on(a, sep).last() + b,
        ),
    decreases b.len(),
{
    lemma_split_on_nonempty(a, sep);
    let sa = split_on(a, sep);
    if b.len() == 0 {
        assert(a + b =~= a);
        assert(sa.last() + b =~= sa.last());
        assert(sa.update(sa.len() - 1, sa.last() + b) =~= sa);
    } else {
        let b0 = b.drop_last();
        let x = b.last();
        lemma_split_on_append_no_sep(a, b0, sep);
        let mid = sa.update(sa.len() - 1, sa.last() + b0);
        assert((a + b).len() > 0);
        assert((a + b).drop_last() =~= a + b0);
        assert((a + b).last() == x);
        assert(x != sep);
        assert(split_on(a + b, sep) == mid.update(mid.len() - 1, mid.last().push(x)));
        assert(mid.last() == sa.last() + b0);
        assert((sa.last() + b0).push(x) =~= sa.last() + b);
        assert(mid.update(mid.len() - 1, sa.last() + b) =~= sa.update(sa.len() - 1, sa.last() + b));
    }
}

/// Appending the separator itself opens a fresh empty segment.
pub proof fn lemma_split_on_push_sep(a: Seq<char>, sep: char)
    ensures
        split_on(a.push(sep), sep) == split_on(a, sep).push(Seq::<char>::empty()),
{
    assert(a.push(sep).len() > 0);
    assert(a.push(sep).drop_last() =~= a);
    assert(a.push(sep).last() == sep);
}

/// Splitting `prefix / p / k` for separator-free `p` and `k` ends in the
/// segments `p` and `k`.
pub proof fn lemma_split_on_tail_two(prefix: Seq<char>, p: Seq<char>, k: Seq<char>, sep: char)
    requires
        forall|i: int| 0 <= i < p.len() ==> p[i] != sep,
        forall|i: int| 0 <= i < k.len() ==> k[i] != sep,
    ensures
        ({
            let parts = split_on(prefix + seq![sep] + p + seq![sep] + k, sep);
            &&& parts.len() == split_on(prefix, sep).len() + 2
            &&& parts.len() >= 3
            &&& parts[parts.len() - 2] == p
            &&& parts[parts.len() - 1] == k
        }),
{
    lemma_split_on_nonempty(prefix, sep);
    let s0 = prefix.push(sep);
    lemma_split_on_push_sep(prefix, sep);
    let t0 = split_on(s0, sep);
    assert(t0.last() =~= Seq::<char>::empty());
    let s1 = s0 + p;
    lemma_split_on_append_no_sep(s0, p, sep);
    let t1 = split_on(s1, sep);
    assert(t1.last() =~= p);
    let s2 = s1.push(sep);
    lemma_split_on_push_sep(s1, sep);
    let t2 = split_on(s2, sep);
    let s3 = s2 + k;
    lemma_split_on_append_no_sep(s2, k, sep);
    let t3 = split_on(s3, sep);
    assert(t2.last() + k =~= k);
    assert(s3 =~= prefix + seq![sep] + p + seq![sep] + k);
    assert(t3[t3.len() - 2] == t2[t2.len() - 2]);
    assert(t2[t2.len() - 2] == t1.last());
}

/// Splitting on a separator character, keeping empty segments, as
/// [`split_on`] describes.
pub fn split_char(s: &str, sep: char) -> (parts: Vec<String>)
    ensures
        parts.deep_view() == split_on(s@, sep),
{
    let n = s.unicode_len();
    let mut parts: Vec<String> = Vec::new();
    let mut start: usize = 0;
    let mut i: usize = 0;
    proof {
        assert(parts.deep_view().push(s@.subrange(0, 0)) =~~= split_on(s@.take(0), sep));
    }
    while i < n
        invariant
            start <= i <= n,
            n == s@.len(),
            parts.deep_view().push(s@.subrange(start as int, i as int)) == split_on(
                s@.take(i as int),
                sep,
            ),
        decreases n - i,
    {
        let ghost pre = s@.take(i as int);
        let c = s.get_char(i);
        proof {
            assert(s@.take(i + 1).drop_last() =~= pre);
            assert(s@.take(i + 1).last() == c);
            lemma_split_on_nonempty(pre, sep);
        }
        if c == sep {
            let seg = s.substring_char(start, i).to_owned();
            parts.push(seg);
            start = i + 1;
            proof {
                assert(parts.deep_view().push(s@.subrange(start as int, i + 1)) =~~= split_on(
                    s@.take(i + 1),
                    sep,
                ));
            }
        } else {
            proof {
                let t = split_on(pre, sep);
                assert(split_on(s@.take(i + 1), sep) == t.update(
                    t.len() - 1,
                    t.last().push(c),
                ));
                assert(s@.subrange(start as int, i as int).push(c) =~= s@.subrange(
                    start as int,
                    i + 1,
                ));
                assert(parts.deep_view().push(s@.subrange(start as int, i + 1)) =~~= split_on(
                    s@.take(i + 1),
                    sep,
                ));
            }
        }
        i += 1;
    }
    let seg = s.substring_char(start, n).to_owned();
    parts.push(seg);
    proof {
        assert(s@.take(n as int) =~= s@);
        assert(parts.deep_view() =~~= split_on(s@, sep));
    }
    parts
}

/// The whitespace characters trimming removes: the code points with the
/// Unicode White_Space property, as std's char::is_whitespace counts them.
pub open spec fn is_space(c: char) -> bool {
    c == ' ' || c == '\t' || c == '\n' || c == '\r' || c == '\u{000B}' || c == '\u{000C}' || c
        == '\u{0085}' || c == '\u{00A0}' || c == '\u{1680}' || c == '\u{2000}' || c == '\u{2001}'
        || c == '\u{2002}' || c == '\u{2003}' || c == '\u{2004}' || c == '\u{2005}' || c
        == '\u{2006}' || c == '\u{2007}' || c == '\u{2008}' || c == '\u{2009}' || c == '\u{200A}'
        || c == '\u{2028}' || c == '\u{2029}' || c == '\u{202F}' || c == '\u{205F}' || c
        == '\u{3000}'
}

/// `s` without its leading whitespace.
pub open spec fn trim_start_spec(s: Seq<char>) -> Seq<char>
    decreases s.len(),
{
    if s.len() > 0 && is_space(s[0]) {
        trim_start_spec(s.drop_first())
    } else {
        s
    }
}

/// `s` without its trailing whitespace.
pub open spec fn trim_end_spec(s: Seq<char>) -> Seq<char>
    decreases s.len(),
{
    if s.len() > 0 && is_space(s.last()) {
        trim_end_spec(s.drop_last())
    } else {
        s
    }
}

/// `s` without leading and trailing whitespace.
pub open spec fn trim_spec(s: Seq<char>) -> Seq<char> {
    trim_end_spec(trim_start_spec(s))
}

/// Trimming text without any whitespace leaves it unchanged.
pub proof fn lemma_trim_spotless(s: Seq<char>)
    requires
        forall|i: int| 0 <= i < s.len() ==> !is_space(s[i]),
    ensures
        trim_spec(s) == s,
{
    if s.len() > 0 {
        assert(!is_space(s[0]));
        assert(!is_space(s.last()));
    }
}

/// Whitespace trimming at both ends, as [`trim_spec`] describes.
pub fn trim_str(s: &str) -> (r: String)
    ensures
        r@ == trim_spec(s@),
{
    let n = s.unicode_len();
    let mut a: usize = 0;
    proof {
        assert(s@.skip(0) =~= s@);
    }
    while a < n && is_space_char(s.get_char(a))
        invariant
            a <= n,
            n == s@.len(),
            trim_start_spec(s@) == trim_start_spec(s@.skip(a as int)),
        decreases n - a,
    {
        proof {
            assert(s@.skip(a as int)[0] == s@[a as int]);
            assert(s@.skip(a as int).drop_first() =~= s@.skip(a + 1));
        }
        a += 1;
    }
    proof {
        assert(trim_start_spec(s@.skip(a as int)) == s@.skip(a as int));
    }
    let mut b: usize = n;
    while b > a && is_space_char(s.get_char(b - 1))
        invariant
            a <= b <= n,
            n == s@.len(),
            trim_start_spec(s@) == s@.skip(a as int),
            trim_end_spec(s@.skip(a as int)) == trim_end_spec(s@.subrange(a as int, b as int)),
        decreases b,
    {
        proof {
            let t = s@.subrange(a as int, b as int);
            assert(t.last() == s@[b - 1]);
            assert(t.drop_last() =~= s@.subrange(a as int, b - 1));
        }
        b -= 1;
    }
    proof {
        let t = s@.subrange(a as int, b as int);
        assert(trim_end_spec(t) == t);
    }
    let r = s.substring_char(a, b).to_owned();
    proof {
        assert(s@.skip(a as int) =~= s@.subrange(a as int, n as int));
    }
    r
}

/// Whether a character counts as whitespace for trimming.
pub fn is_space_char(c: char) -> (r: bool)
    ensures
        r == is_space(c),
{
    c == ' ' || c == '\t' || c == '\n' || c == '\r' || c == '\u{000B}' || c == '\u{000C}' || c
        == '\u{0085}' || c == '\u{00A0}' || c == '\u{1680}' || c == '\u{2000}' || c == '\u{2001}'
        || c == '\u{2002}' || c == '\u{2003}' || c == '\u{2004}' || c == '\u{2005}' || c
        == '\u{2006}' || c == '\u{2007}' || c == '\u{2008}' || c == '\u{2009}' || c == '\u{200A}'
        || c == '\u{2028}' || c == '\u{2029}' || c == '\u{202F}' || c == '\u{205F}' || c
        == '\u{3000}'
}

/// The character of one decimal digit.
pub open spec fn dec_digit(d: int) -> char {
    if d == 0 {
        '0'
    } else if d == 1 {
        '1'
    } else if d == 2 {
        '2'
    } else if d == 3 {
        '3'
    } else if d == 4 {
        '4'
    } else if d == 5 {
        '5'
    } else if d == 6 {
        '6'
    } else if d == 7 {
        '7'
    } else if d == 8 {
        '8'
    } else {
        '9'
    }
}

/// The decimal rendering of a non-negative number, without sign or padding.
pub open spec fn dec_rep(n: int) -> Seq<char>
    decreases n,
{
    if n < 10 {
        seq![dec_digit(n)]
    } else {
        dec_rep(n / 10).push(dec_digit(n % 10))
    }
}

/// Whether a character is a decimal digit.
pub open spec fn is_dec_digit(c: char) -> bool {
    c == '0' || c == '1' || c == '2' || c == '3' || c == '4' || c == '5' || c == '6' || c == '7'
        || c == '8' || c == '9'
}

/// A decimal rendering consists of digits alone.
pub proof fn lemma_dec_rep_digits(n: int)
    ensures
        forall|i: int| 0 <= i < dec_rep(n).len() ==> is_dec_digit(#[trigger] dec_rep(n)[i]),
    decreases n,
{
    if n < 10 {
        assert(is_dec_digit(dec_digit(n)));
        assert(dec_rep(n) =~= seq![dec_digit(n)]);
    } else {
        lemma_dec_rep_digits(n / 10);
        assert forall|i: int| 0 <= i < dec_rep(n).len() implies is_dec_digit(
            #[trigger] dec_rep(n)[i],
        ) by {
            if i < dec_rep(n).len() - 1 {
                assert(dec_rep(n)[i] == dec_rep(n / 10)[i]);
            } else {
                assert(dec_rep(n)[i] == dec_digit(n % 10));
            }
        }
    }
}

/// The text of one decimal digit.
fn digit_str(d: u64) -> (r: &'static str)
    requires
        d < 10,
    ensures
        r@ =~= seq![dec_digit(d as int)],
{
    proof {
        reveal_strlit("0");
        reveal_strlit("1");
        reveal_strlit("2");
        reveal_strlit("3");
        reveal_strlit("4");
        reveal_strlit("5");
        reveal_strlit("6");
        reveal_strlit("7");
        reveal_strlit("8");
        reveal_strlit("9");
    }
    match d {
        0 => "0",
        1 => "1",
        2 => "2",
        3 => "3",
        4 => "4",
        5 => "5",
        6 => "6",
        7 => "7",
        8 => "8",
        _ => "9",
    }
}

/// Decimal rendering of a number, as [`dec_rep`] describes.
pub fn u64_to_string(n: u64) -> (r: String)
    ensures
        r@ == dec_rep(n as int),
    decreases n,
{
    if n < 10 {
        digit_str(n).to_owned()
    } else {
        let mut r = u64_to_string(n / 10);
        r.append(digit_str(n % 10));
        proof {
            assert(dec_rep((n / 10) as int) + seq![dec_digit((n % 10) as int)] =~= dec_rep(
                n as int,
            ));
        }
        r
    }
}

} // verus!
