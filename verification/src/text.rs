//! Character-sequence utilities: substring search, extraction between
//! markers, replacement, trimming, case folding and decimal conversion.
//!
//! All executable functions work on `Vec<char>` / `&str` and are specified
//! against `Seq<char>` models.

use vstd::prelude::*;

verus! {

/// `needle` occurs in `hay` starting at position `i`.
pub open spec fn match_at(hay: Seq<char>, needle: Seq<char>, i: int) -> bool {
    0 <= i && i + needle.len() <= hay.len() && hay.subrange(i, i + needle.len() as int)
        == needle
}

/// `needle` occurs somewhere in `hay`.
pub open spec fn contains_sub(hay: Seq<char>, needle: Seq<char>) -> bool {
    exists|i: int| match_at(hay, needle, i)
}

/// Index of the leftmost occurrence of `needle` in `hay`, if any.
pub open spec fn spec_find(hay: Seq<char>, needle: Seq<char>) -> Option<int>
    decreases hay.len(),
{
    if needle.len() <= hay.len() && hay.subrange(0, needle.len() as int) == needle {
        Some(0)
    } else if hay.len() == 0 {
        None
    } else {
        match spec_find(hay.drop_first(), needle) {
            Some(i) => Some(i + 1),
            None => None,
        }
    }
}

/// Occurrences in the tail of `hay` are occurrences in `hay`, shifted by one.
proof fn lemma_match_shift(hay: Seq<char>, needle: Seq<char>, j: int)
    requires
        hay.len() > 0,
        0 <= j,
    ensures
        match_at(hay.drop_first(), needle, j) <==> match_at(hay, needle, j + 1),
{
    if j + needle.len() + 1 <= hay.len() {
        assert(hay.drop_first().subrange(j, j + needle.len() as int) =~= hay.subrange(
            j + 1,
            j + 1 + needle.len() as int,
        ));
    }
}

/// `spec_find` returns the leftmost occurrence, or `None` when there is none.
pub proof fn lemma_find_characterization(hay: Seq<char>, needle: Seq<char>)
    ensures
        match spec_find(hay, needle) {
            Some(i) => match_at(hay, needle, i) && (forall|j: int|
                0 <= j < i ==> !match_at(hay, needle, j)),
            None => !contains_sub(hay, needle),
        },
    decreases hay.len(),
{
    if needle.len() <= hay.len() && hay.subrange(0, needle.len() as int) == needle {
    } else if hay.len() == 0 {
        assert forall|j: int| !match_at(hay, needle, j) by {}
    } else {
        lemma_find_characterization(hay.drop_first(), needle);
        assert forall|j: int| 0 <= j implies (match_at(hay.drop_first(), needle, j) <==> match_at(
            hay,
            needle,
            j + 1,
        )) by {
            lemma_match_shift(hay, needle, j);
        }
        match spec_find(hay.drop_first(), needle) {
            Some(i) => {
                assert(match_at(hay, needle, i + 1));
                assert forall|j: int| 0 <= j < i + 1 implies !match_at(hay, needle, j) by {
                    if j > 0 {
                        assert(!match_at(hay.drop_first(), needle, j - 1));
                    }
                }
            },
            None => {
                assert forall|j: int| 0 <= j implies !match_at(hay, needle, j) by {
                    if j > 0 {
                        assert(!match_at(hay.drop_first(), needle, j - 1));
                    }
                }
            },
        }
    }
}

/// Equality test for two character vectors.
pub fn chars_eq(a: &Vec<char>, b: &Vec<char>) -> (r: bool)
    ensures
        r == (a@ == b@),
{
    if a.len() != b.len() {
        return false;
    }
    let n = a.len();
    let mut i: usize = 0;
    while i < n
        invariant
            n == a.len() == b.len(),
            i <= n,
            forall|j: int| 0 <= j < i ==> a@[j] == b@[j],
        decreases n - i,
    {
        if a[i] != b[i] {
            return false;
        }
        i += 1;
    }
    proof {
        assert(a@ =~= b@);
    }
    true
}

/// The characters of `s`, in order, as a vector.
pub fn str_to_chars(s: &str) -> (v: Vec<char>)
    ensures
        v@ == s@,
{
    let n = s.unicode_len();
    let mut v: Vec<char> = Vec::new();
    let mut i: usize = 0;
    while i < n
        invariant
            n == s@.len(),
            i <= n,
            v@ =~= s@.take(i as int),
        decreases n - i,
    {
        let c = s.get_char(i);
        v.push(c);
        proof {
            assert(v@ =~= s@.take(i + 1 as int));
        }
        i += 1;
    }
    proof {
        assert(s@.take(n as int) =~= s@);
    }
    v
}

/// Relies on `core::iter::Iterator::collect` building a `String` from its
/// characters in order.
#[verifier::external_body]
pub fn chars_to_string(v: &Vec<char>) -> (r: String)
    ensures
        r@ == v@,
{
    v.iter().collect()
}

/// Leftmost occurrence of `needle` in `hay`, if any.
pub fn find_sub(hay: &Vec<char>, needle: &Vec<char>) -> (r: Option<usize>)
    ensures
        match r {
            Some(i) => spec_find(hay@, needle@) == Some(i as int),
            None => spec_find(hay@, needle@) is None,
        },
{
    let n = hay.len();
    let m = needle.len();
    if m > n {
        proof {
            lemma_find_characterization(hay@, needle@);
            match spec_find(hay@, needle@) {
                Some(fi) => {
                    assert(match_at(hay@, needle@, fi));
                    assert(false);
                },
                None => {},
            }
        }
        return None;
    }
    let mut i: usize = 0;
    while i <= n - m
        invariant
            m <= n,
            n == hay@.len(),
            m == needle@.len(),
            i <= n - m + 1,
            forall|j: int| 0 <= j < i ==> !match_at(hay@, needle@, j),
        decreases n + 1 - i,
    {
        let mut k: usize = 0;
        let mut hit = true;
        while k < m
            invariant
                m <= n,
                n == hay@.len(),
                m == needle@.len(),
                i + m <= n,
                k <= m,
                hit ==> forall|l: int| 0 <= l < k ==> hay@[i + l] == needle@[l],
                !hit ==> !match_at(hay@, needle@, i as int),
            decreases m - k,
        {
            if hay[i + k] != needle[k] {
                proof {
                    if match_at(hay@, needle@, i as int) {
                        assert(hay@.subrange(i as int, i + m as int) == needle@);
                        assert(hay@.subrange(i as int, i + m as int)[k as int] == hay@[i + k]);
                        assert(false);
                    }
                }
                hit = false;
                k = m;
            } else {
                k += 1;
            }
        }
        if hit {
            proof {
                assert forall|l: int|
                    0 <= l < m implies hay@.subrange(i as int, i + m as int)[l]
                    == needle@[l] by {
                    assert(hay@[i + l] == needle@[l]);
                }
                assert(hay@.subrange(i as int, i + m as int) =~= needle@);
                assert(match_at(hay@, needle@, i as int));
                lemma_find_characterization(hay@, needle@);
                match spec_find(hay@, needle@) {
                    Some(fi) => {
                        if fi < i {
                            assert(!match_at(hay@, needle@, fi));
                            assert(false);
                        }
                        if fi > i {
                            assert(!match_at(hay@, needle@, i as int));
                            assert(false);
                        }
                    },
                    None => {
                        assert(!match_at(hay@, needle@, i as int));
                        assert(false);
                    },
                }
            }
            return Some(i);
        }
        proof {
            if m == 0 {
                assert(hay@.subrange(i as int, i as int) =~= needle@);
                assert(match_at(hay@, needle@, i as int));
                assert(false);
            }
        }
        i += 1;
    }
    proof {
        assert forall|j: int| !match_at(hay@, needle@, j) by {
            if 0 <= j <= n - m {
                assert(!match_at(hay@, needle@, j));
            }
        }
        lemma_find_characterization(hay@, needle@);
        match spec_find(hay@, needle@) {
            Some(fi) => {
                assert(!match_at(hay@, needle@, fi));
                assert(false);
            },
            None => {},
        }
    }
    None
}

/// Relates `skip` to indexing and to dropping the first element.
pub proof fn lemma_skip_step<T>(s: Seq<T>, i: int)
    requires
        0 <= i < s.len(),
    ensures
        s.skip(i).len() == s.len() - i,
        s.skip(i)[0] == s[i],
        s.skip(i).drop_first() == s.skip(i + 1),
{
    assert(s.skip(i).drop_first() =~= s.skip(i + 1));
}

/// Relates `take` and `skip` of a suffix to subranges of the whole.
pub proof fn lemma_skip_parts<T>(s: Seq<T>, i: int, m: int)
    requires
        0 <= i,
        0 <= m,
        i + m <= s.len(),
    ensures
        s.skip(i).take(m) == s.subrange(i, i + m),
        s.skip(i).skip(m) == s.skip(i + m),
{
    assert(s.skip(i).take(m) =~= s.subrange(i, i + m));
    assert(s.skip(i).skip(m) =~= s.skip(i + m));
}

/// Copy of `v[a..b]`.
pub fn sub_vec(v: &Vec<char>, a: usize, b: usize) -> (r: Vec<char>)
    requires
        a <= b <= v@.len(),
    ensures
        r@ == v@.subrange(a as int, b as int),
{
    let mut r: Vec<char> = Vec::new();
    let mut i: usize = a;
    while i < b
        invariant
            a <= i <= b <= v@.len(),
            r@ =~= v@.subrange(a as int, i as int),
        decreases b - i,
    {
        r.push(v[i]);
        proof {
            assert(r@ =~= v@.subrange(a as int, i + 1 as int));
        }
        i += 1;
    }
    r
}

/// Append the characters of `x` to `out`.
pub fn append_vec(out: &mut Vec<char>, x: &Vec<char>)
    ensures
        final(out)@ == old(out)@ + x@,
{
    let n = x.len();
    let mut j: usize = 0;
    while j < n
        invariant
            n == x@.len(),
            j <= n,
            out@ =~= old(out)@ + x@.take(j as int),
        decreases n - j,
    {
        out.push(x[j]);
        proof {
            assert(out@ =~= old(out)@ + x@.take(j + 1 as int));
        }
        j += 1;
    }
    proof {
        assert(old(out)@ + x@.take(n as int) =~= old(out)@ + x@);
    }
}

/// `pat` occurs in `s` at position `i`.
pub fn matches_at(s: &Vec<char>, pat: &Vec<char>, i: usize) -> (r: bool)
    requires
        i <= s@.len(),
    ensures
        r == match_at(s@, pat@, i as int),
{
    let n = s.len();
    let m = pat.len();
    if m > n - i {
        return false;
    }
    let mut k: usize = 0;
    while k < m
        invariant
            n == s@.len(),
            m == pat@.len(),
            i + m <= n,
            k <= m,
            forall|l: int| 0 <= l < k ==> s@[i + l] == pat@[l],
        decreases m - k,
    {
        if s[i + k] != pat[k] {
            proof {
                if match_at(s@, pat@, i as int) {
                    assert(s@.subrange(i as int, i + m as int) == pat@);
                    assert(s@.subrange(i as int, i + m as int)[k as int] == s@[i + k]);
                    assert(false);
                }
            }
            return false;
        }
        k += 1;
    }
    proof {
        assert forall|l: int| 0 <= l < m implies s@.subrange(i as int, i + m as int)[l]
            == pat@[l] by {
            assert(s@[i + l] == pat@[l]);
        }
        assert(s@.subrange(i as int, i + m as int) =~= pat@);
    }
    true
}

/// The piece of `s` strictly between the leftmost occurrence of `a` and the
/// leftmost occurrence of `b` in what follows it; `None` when either marker
/// is missing or the piece is empty.
pub open spec fn spec_between(s: Seq<char>, a: Seq<char>, b: Seq<char>) -> Option<Seq<char>> {
    match spec_find(s, a) {
        None => None,
        Some(i) => {
            let rest = s.subrange(i + a.len() as int, s.len() as int);
            match spec_find(rest, b) {
                None => None,
                Some(j) => if j == 0 {
                    None
                } else {
                    Some(rest.subrange(0, j))
                },
            }
        },
    }
}

/// Extract the piece of `s` strictly between the markers `a` and `b`.
pub fn between(s: &Vec<char>, a: &Vec<char>, b: &Vec<char>) -> (r: Option<Vec<char>>)
    ensures
        match r {
            Some(v) => spec_between(s@, a@, b@) == Some(v@),
            None => spec_between(s@, a@, b@) is None,
        },
{
    match find_sub(s, a) {
        None => None,
        Some(i) => {
            let alen = a.len();
            let slen = s.len();
            proof {
                lemma_find_characterization(s@, a@);
                assert(match_at(s@, a@, i as int));
                assert(i + alen <= slen);
            }
            let rest = sub_vec(s, i + alen, slen);
            match find_sub(&rest, b) {
                None => None,
                Some(j) => {
                    if j == 0 {
                        None
                    } else {
                        proof {
                            lemma_find_characterization(rest@, b@);
                        }
                        let piece = sub_vec(&rest, 0, j);
                        Some(piece)
                    }
                },
            }
        },
    }
}

/// `s` with every occurrence of `from` replaced by `to`, scanning left to
/// right over non-overlapping occurrences, as `str::replace` does.
pub open spec fn spec_replace(s: Seq<char>, from: Seq<char>, to: Seq<char>) -> Seq<char>
    decreases s.len(),
{
    if from.len() == 0 || s.len() < from.len() {
        s
    } else if s.take(from.len() as int) == from {
        to + spec_replace(s.skip(from.len() as int), from, to)
    } else {
        seq![s[0]] + spec_replace(s.drop_first(), from, to)
    }
}

/// Replace every occurrence of `from` in `s` by `to`.
pub fn replace_all(s: &Vec<char>, from: &Vec<char>, to: &Vec<char>) -> (r: Vec<char>)
    requires
        from@.len() > 0,
    ensures
        r@ == spec_replace(s@, from@, to@),
{
    let n = s.len();
    let m = from.len();
    let mut out: Vec<char> = Vec::new();
    let mut i: usize = 0;
    proof {
        assert(s@.skip(0) =~= s@);
        assert(Seq::<char>::empty() + spec_replace(s@, from@, to@) =~= spec_replace(
            s@,
            from@,
            to@,
        ));
    }
    while i < n
        invariant
            n == s@.len(),
            m == from@.len(),
            m > 0,
            i <= n,
            spec_replace(s@, from@, to@) == out@ + spec_replace(s@.skip(i as int), from@, to@),
        decreases n - i,
    {
        if matches_at(s, from, i) {
            proof {
                lemma_skip_parts(s@, i as int, m as int);
                assert(s@.skip(i as int).take(m as int) == from@);
                assert(spec_replace(s@.skip(i as int), from@, to@) == to@ + spec_replace(
                    s@.skip(i + m as int),
                    from@,
                    to@,
                ));
                assert(out@ + (to@ + spec_replace(s@.skip(i + m as int), from@, to@)) =~= (out@
                    + to@) + spec_replace(s@.skip(i + m as int), from@, to@));
            }
            append_vec(&mut out, to);
            i += m;
        } else {
            proof {
                lemma_skip_step(s@, i as int);
                if s@.skip(i as int).len() >= m {
                    lemma_skip_parts(s@, i as int, m as int);
                    assert(s@.skip(i as int).take(m as int) != from@);
                    assert(spec_replace(s@.skip(i as int), from@, to@) == seq![s@[i as int]]
                        + spec_replace(s@.skip(i + 1 as int), from@, to@));
                } else {
                    assert(spec_replace(s@.skip(i as int), from@, to@) == s@.skip(i as int));
                    assert(spec_replace(s@.skip(i + 1 as int), from@, to@) == s@.skip(
                        i + 1 as int,
                    ));
                    assert(s@.skip(i as int) =~= seq![s@[i as int]] + s@.skip(i + 1 as int));
                }
                assert(out@ + (seq![s@[i as int]] + spec_replace(
                    s@.skip(i + 1 as int),
                    from@,
                    to@,
                )) =~= out@.push(s@[i as int]) + spec_replace(s@.skip(i + 1 as int), from@, to@));
            }
            let c = s[i];
            out.push(c);
            i += 1;
        }
    }
    proof {
        assert(s@.skip(n as int) =~= Seq::<char>::empty());
        assert(spec_replace(s@.skip(n as int), from@, to@) == Seq::<char>::empty());
        assert(out@ + Seq::<char>::empty() =~= out@);
    }
    out
}

/// The characters `char::is_whitespace` accepts.
pub open spec fn is_space(c: char) -> bool {
    let u = c as u32;
    u == 0x20 || (0x09 <= u && u <= 0x0D) || u == 0x85 || u == 0xA0 || u == 0x1680 || (0x2000
        <= u && u <= 0x200A) || u == 0x2028 || u == 0x2029 || u == 0x202F || u == 0x205F || u
        == 0x3000
}

/// Whitespace test on one character.
pub fn is_space_char(c: char) -> (r: bool)
    ensures
        r == is_space(c),
{
    let u = c as u32;
    u == 0x20 || (0x09 <= u && u <= 0x0D) || u == 0x85 || u == 0xA0 || u == 0x1680 || (0x2000
        <= u && u <= 0x200A) || u == 0x2028 || u == 0x2029 || u == 0x202F || u == 0x205F || u
        == 0x3000
}

/// `s` without its leading whitespace.
pub open spec fn spec_trim_start(s: Seq<char>) -> Seq<char>
    decreases s.len(),
{
    if s.len() > 0 && is_space(s[0]) {
        spec_trim_start(s.drop_first())
    } else {
        s
    }
}

/// `s` without its trailing whitespace.
pub open spec fn spec_trim_end(s: Seq<char>) -> Seq<char>
    decreases s.len(),
{
    if s.len() > 0 && is_space(s.last()) {
        spec_trim_end(s.drop_last())
    } else {
        s
    }
}

/// `s` without leading and trailing whitespace, as `str::trim` gives it.
pub open spec fn spec_trim(s: Seq<char>) -> Seq<char> {
    spec_trim_end(spec_trim_start(s))
}

proof fn lemma_trim_start_skip(s: Seq<char>, j: int)
    requires
        0 <= j <= s.len(),
        forall|l: int| 0 <= l < j ==> is_space(s[l]),
        j < s.len() ==> !is_space(s[j]),
    ensures
        spec_trim_start(s) == s.skip(j),
    decreases j,
{
    if j == 0 {
        assert(s.skip(0) =~= s);
    } else {
        assert(is_space(s[0]));
        lemma_trim_start_skip(s.drop_first(), j - 1);
        assert(s.drop_first().skip(j - 1) =~= s.skip(j));
    }
}

proof fn lemma_trim_end_take(s: Seq<char>, j: int)
    requires
        0 <= j <= s.len(),
        forall|l: int| j <= l < s.len() ==> is_space(s[l]),
        j > 0 ==> !is_space(s[j - 1]),
    ensures
        spec_trim_end(s) == s.take(j),
    decreases s.len() - j,
{
    if j == s.len() {
        assert(s.take(j) =~= s);
    } else {
        assert(is_space(s.last()));
        lemma_trim_end_take(s.drop_last(), j);
        assert(s.drop_last().take(j) =~= s.take(j));
    }
}

/// Remove leading and trailing whitespace.
pub fn trim(v: &Vec<char>) -> (r: Vec<char>)
    ensures
        r@ == spec_trim(v@),
{
    let n = v.len();
    let mut a: usize = 0;
    let mut scanning = true;
    while scanning
        invariant
            n == v@.len(),
            a <= n,
            forall|j: int| 0 <= j < a ==> is_space(v@[j]),
            !scanning ==> (a == n || !is_space(v@[a as int])),
        decreases (if scanning { 1int } else { 0int }), n - a,
    {
        if a < n {
            if is_space_char(v[a]) {
                a += 1;
            } else {
                scanning = false;
            }
        } else {
            scanning = false;
        }
    }
    let mut b: usize = n;
    scanning = true;
    while scanning
        invariant
            n == v@.len(),
            a <= b <= n,
            forall|j: int| b <= j < n ==> is_space(v@[j]),
            !scanning ==> (b == a || !is_space(v@[b - 1])),
        decreases (if scanning { 1int } else { 0int }), b,
    {
        if b > a {
            if is_space_char(v[b - 1]) {
                b -= 1;
            } else {
                scanning = false;
            }
        } else {
            scanning = false;
        }
    }
    proof {
        lemma_trim_start_skip(v@, a as int);
        lemma_skip_parts(v@, a as int, (b - a) as int);
        if b == a {
            lemma_trim_end_take(v@.skip(a as int), 0);
        } else {
            assert(v@.skip(a as int)[b - a - 1] == v@[b - 1]);
            assert(forall|l: int|
                b - a <= l < n - a ==> is_space(#[trigger] v@.skip(a as int)[l]));
            lemma_trim_end_take(v@.skip(a as int), (b - a) as int);
        }
        assert(spec_trim(v@) == v@.subrange(a as int, b as int));
    }
    sub_vec(v, a, b)
}

/// ASCII lowercase of one character.
pub open spec fn spec_lower_char(c: char) -> char {
    if 65 <= c as u32 && c as u32 <= 90 {
        ((c as u32 + 32) as u8) as char
    } else {
        c
    }
}

/// ASCII lowercase of a sequence.
pub open spec fn spec_lower(s: Seq<char>) -> Seq<char> {
    s.map_values(|c: char| spec_lower_char(c))
}

/// Map a vector to ASCII lowercase.
pub fn to_lower(v: &Vec<char>) -> (r: Vec<char>)
    ensures
        r@ == spec_lower(v@),
{
    let n = v.len();
    let mut out: Vec<char> = Vec::new();
    let mut i: usize = 0;
    while i < n
        invariant
            n == v@.len(),
            i <= n,
            out@.len() == i,
            forall|j: int| 0 <= j < i ==> out@[j] == spec_lower_char(v@[j]),
        decreases n - i,
    {
        let c = v[i];
        let u = c as u32;
        if 65 <= u && u <= 90 {
            out.push(((u + 32) as u8) as char);
        } else {
            out.push(c);
        }
        i += 1;
    }
    proof {
        assert(out@ =~= spec_lower(v@));
    }
    out
}

/// The prefix of `s` before the first `sep`, or all of `s` when `sep` is
/// absent.
pub open spec fn spec_cut(s: Seq<char>, sep: char) -> Seq<char>
    decreases s.len(),
{
    if s.len() == 0 {
        s
    } else if s[0] == sep {
        Seq::empty()
    } else {
        seq![s[0]] + spec_cut(s.drop_first(), sep)
    }
}

/// Keep the prefix before the first `sep`.
pub fn cut_at(v: &Vec<char>, sep: char) -> (r: Vec<char>)
    ensures
        r@ == spec_cut(v@, sep),
{
    let n = v.len();
    let mut out: Vec<char> = Vec::new();
    let mut i: usize = 0;
    proof {
        assert(v@.skip(0) =~= v@);
        assert(Seq::<char>::empty() + spec_cut(v@, sep) =~= spec_cut(v@, sep));
    }
    while i < n
        invariant
            n == v@.len(),
            i <= n,
            spec_cut(v@, sep) == out@ + spec_cut(v@.skip(i as int), sep),
        decreases n - i,
    {
        let c = v[i];
        proof {
            lemma_skip_step(v@, i as int);
        }
        if c == sep {
            proof {
                assert(spec_cut(v@.skip(i as int), sep) =~= Seq::<char>::empty());
                assert(out@ + Seq::<char>::empty() =~= out@);
            }
            return out;
        }
        proof {
            assert(out@ + (seq![v@[i as int]] + spec_cut(v@.skip(i + 1 as int), sep))
                =~= out@.push(v@[i as int]) + spec_cut(v@.skip(i + 1 as int), sep));
        }
        out.push(c);
        i += 1;
    }
    proof {
        assert(v@.skip(n as int) =~= Seq::<char>::empty());
        assert(out@ + Seq::<char>::empty() =~= out@);
    }
    out
}

/// The pieces of `s` between occurrences of `sep`, empty pieces kept, as
/// `str::split` yields them; `cur` is the piece being accumulated.
pub open spec fn spec_split_all_acc(s: Seq<char>, sep: char, cur: Seq<char>) -> Seq<Seq<char>>
    decreases s.len(),
{
    if s.len() == 0 {
        seq![cur]
    } else if s[0] == sep {
        seq![cur] + spec_split_all_acc(s.drop_first(), sep, Seq::empty())
    } else {
        spec_split_all_acc(s.drop_first(), sep, cur.push(s[0]))
    }
}

/// The pieces of `s` between occurrences of `sep`, empty pieces kept.
pub open spec fn spec_split_all(s: Seq<char>, sep: char) -> Seq<Seq<char>> {
    spec_split_all_acc(s, sep, Seq::empty())
}

/// The nonempty pieces of `s` between occurrences of `sep`.
pub open spec fn spec_segments_acc(s: Seq<char>, sep: char, cur: Seq<char>) -> Seq<Seq<char>>
    decreases s.len(),
{
    if s.len() == 0 {
        if cur.len() > 0 {
            seq![cur]
        } else {
            Seq::empty()
        }
    } else if s[0] == sep {
        (if cur.len() > 0 {
            seq![cur]
        } else {
            Seq::empty()
        }) + spec_segments_acc(s.drop_first(), sep, Seq::empty())
    } else {
        spec_segments_acc(s.drop_first(), sep, cur.push(s[0]))
    }
}

/// The nonempty pieces of `s` between occurrences of `sep`.
pub open spec fn spec_segments(s: Seq<char>, sep: char) -> Seq<Seq<char>> {
    spec_segments_acc(s, sep, Seq::empty())
}

/// Split `v` on `sep`, keeping empty pieces.
pub fn split_all(v: &Vec<char>, sep: char) -> (r: Vec<Vec<char>>)
    ensures
        r.deep_view() == spec_split_all(v@, sep),
{
    let n = v.len();
    let mut out: Vec<Vec<char>> = Vec::new();
    let mut cur: Vec<char> = Vec::new();
    let mut i: usize = 0;
    proof {
        assert(v@.skip(0) =~= v@);
        assert(Seq::<Seq<char>>::empty() + spec_split_all_acc(v@, sep, Seq::empty())
            =~= spec_split_all_acc(v@, sep, Seq::empty()));
    }
    while i < n
        invariant
            n == v@.len(),
            i <= n,
            spec_split_all(v@, sep) == out.deep_view() + spec_split_all_acc(
                v@.skip(i as int),
                sep,
                cur@,
            ),
        decreases n - i,
    {
        let c = v[i];
        proof {
            lemma_skip_step(v@, i as int);
        }
        if c == sep {
            let ghost old_out = out.deep_view();
            let ghost old_cur = cur@;
            out.push(cur);
            cur = Vec::new();
            proof {
                assert(out.deep_view() =~~= old_out.push(old_cur));
                assert(old_out + (seq![old_cur] + spec_split_all_acc(
                    v@.skip(i + 1 as int),
                    sep,
                    Seq::empty(),
                )) =~= old_out.push(old_cur) + spec_split_all_acc(
                    v@.skip(i + 1 as int),
                    sep,
                    Seq::empty(),
                ));
            }
        } else {
            cur.push(c);
        }
        i += 1;
    }
    proof {
        assert(v@.skip(n as int) =~= Seq::<char>::empty());
    }
    let ghost old_out = out.deep_view();
    let ghost old_cur = cur@;
    out.push(cur);
    proof {
        assert(out.deep_view() =~~= old_out.push(old_cur));
        assert(old_out + seq![old_cur] =~= old_out.push(old_cur));
    }
    out
}

/// Split `v` on `sep`, dropping empty pieces.
pub fn split_segments(v: &Vec<char>, sep: char) -> (r: Vec<Vec<char>>)
    ensures
        r.deep_view() == spec_segments(v@, sep),
{
    let n = v.len();
    let mut out: Vec<Vec<char>> = Vec::new();
    let mut cur: Vec<char> = Vec::new();
    let mut i: usize = 0;
    proof {
        assert(v@.skip(0) =~= v@);
        assert(Seq::<Seq<char>>::empty() + spec_segments_acc(v@, sep, Seq::empty())
            =~= spec_segments_acc(v@, sep, Seq::empty()));
    }
    while i < n
        invariant
            n == v@.len(),
            i <= n,
            spec_segments(v@, sep) == out.deep_view() + spec_segments_acc(
                v@.skip(i as int),
                sep,
                cur@,
            ),
        decreases n - i,
    {
        let c = v[i];
        proof {
            lemma_skip_step(v@, i as int);
        }
        if c == sep {
            proof {
                assert(spec_segments_acc(v@.skip(i as int), sep, cur@) == (if cur@.len() > 0 {
                    seq![cur@]
                } else {
                    Seq::<Seq<char>>::empty()
                }) + spec_segments_acc(v@.skip(i + 1 as int), sep, Seq::<char>::empty()));
            }
            let ghost old_out = out.deep_view();
            let ghost old_cur = cur@;
            if cur.len() > 0 {
                out.push(cur);
                cur = Vec::new();
                proof {
                    assert(cur@ =~= Seq::<char>::empty());
                    assert(out.deep_view() =~~= old_out.push(old_cur));
                    assert(old_out + (seq![old_cur] + spec_segments_acc(
                        v@.skip(i + 1 as int),
                        sep,
                        Seq::<char>::empty(),
                    )) =~= old_out.push(old_cur) + spec_segments_acc(
                        v@.skip(i + 1 as int),
                        sep,
                        Seq::<char>::empty(),
                    ));
                }
            } else {
                proof {
                    assert(cur@ =~= Seq::<char>::empty());
                    assert(Seq::<Seq<char>>::empty() + spec_segments_acc(
                        v@.skip(i + 1 as int),
                        sep,
                        Seq::<char>::empty(),
                    ) =~= spec_segments_acc(v@.skip(i + 1 as int), sep, Seq::<char>::empty()));
                }
            }
        } else {
            proof {
                assert(spec_segments_acc(v@.skip(i as int), sep, cur@) == spec_segments_acc(
                    v@.skip(i + 1 as int),
                    sep,
                    cur@.push(v@[i as int]),
                ));
            }
            cur.push(c);
        }
        i += 1;
    }
    proof {
        assert(v@.skip(n as int) =~= Seq::<char>::empty());
    }
    if cur.len() > 0 {
        let ghost old_out = out.deep_view();
        let ghost old_cur = cur@;
        out.push(cur);
        proof {
            assert(out.deep_view() =~~= old_out.push(old_cur));
            assert(old_out + seq![old_cur] =~= old_out.push(old_cur));
        }
    } else {
        proof {
            assert(out.deep_view() + Seq::<Seq<char>>::empty() =~= out.deep_view());
        }
    }
    out
}

/// Decimal digit test.
pub open spec fn is_digit(c: char) -> bool {
    48 <= c as u32 && c as u32 <= 57
}

/// Numeric value of a digit character; 0 for anything else.
pub open spec fn digit_val(c: char) -> nat {
    if is_digit(c) {
        (c as u32 - 48) as nat
    } else {
        0
    }
}

/// Every character of `s` is a decimal digit.
pub open spec fn all_digits(s: Seq<char>) -> bool {
    forall|i: int| 0 <= i < s.len() ==> is_digit(s[i])
}

/// The value of `s` read as a decimal numeral.
pub open spec fn spec_dec_val(s: Seq<char>) -> nat
    decreases s.len(),
{
    if s.len() == 0 {
        0
    } else {
        spec_dec_val(s.drop_last()) * 10 + digit_val(s.last())
    }
}

/// What `str::parse::<u64>` accepts: an optional leading `+`, then one or
/// more digits, with a value that fits in a `u64`.
pub open spec fn spec_parse_u64(s: Seq<char>) -> Option<u64> {
    let d = if s.len() > 0 && s[0] == '+' {
        s.drop_first()
    } else {
        s
    };
    if d.len() > 0 && all_digits(d) && spec_dec_val(d) <= u64::MAX {
        Some(spec_dec_val(d) as u64)
    } else {
        None
    }
}

proof fn lemma_dec_val_prefix(s: Seq<char>, k: int)
    requires
        0 <= k <= s.len(),
    ensures
        spec_dec_val(s.take(k)) <= spec_dec_val(s),
    decreases s.len() - k,
{
    if k == s.len() {
        assert(s.take(k) =~= s);
    } else {
        assert(s.take(k + 1).drop_last() =~= s.take(k));
        assert(s.take(k + 1).last() == s[k]);
        assert(spec_dec_val(s.take(k + 1)) == spec_dec_val(s.take(k)) * 10 + digit_val(s[k]));
        lemma_dec_val_prefix(s, k + 1);
    }
}

/// Parse a non-negative decimal integer, as `str::parse::<u64>` does.
pub fn parse_u64(v: &Vec<char>) -> (r: Option<u64>)
    ensures
        r == spec_parse_u64(v@),
{
    let n = v.len();
    let start: usize = if n > 0 && v[0] == '+' {
        1
    } else {
        0
    };
    let ghost d = if v@.len() > 0 && v@[0] == '+' {
        v@.drop_first()
    } else {
        v@
    };
    proof {
        assert(d =~= v@.skip(start as int));
    }
    if n == start {
        return None;
    }
    let mut acc: u64 = 0;
    let mut i: usize = start;
    proof {
        assert(d.take(0) =~= Seq::<char>::empty());
    }
    while i < n
        invariant
            n == v@.len(),
            start <= i <= n,
            start <= 1,
            d == v@.skip(start as int),
            d == (if v@.len() > 0 && v@[0] == '+' {
                v@.drop_first()
            } else {
                v@
            }),
            d.len() == n - start,
            all_digits(d.take(i - start)),
            acc == spec_dec_val(d.take(i - start)),
        decreases n - i,
    {
        let c = v[i];
        proof {
            assert(d[i - start] == v@[i as int]);
        }
        let u = c as u32;
        if u < 48 || u > 57 {
            proof {
                assert(!is_digit(d[i - start]));
                assert(!all_digits(d));
                assert(spec_parse_u64(v@) is None);
            }
            return None;
        }
        let dig = (u - 48) as u64;
        proof {
            assert(d.take(i - start + 1).drop_last() =~= d.take(i - start));
            assert(d.take(i - start + 1).last() == d[i - start]);
            assert(spec_dec_val(d.take(i - start + 1)) == acc * 10 + digit_val(d[i - start]));
        }
        if acc > 1844674407370955161u64 || (acc == 1844674407370955161u64 && dig > 5) {
            proof {
                assert(spec_dec_val(d.take(i - start + 1)) > u64::MAX);
                lemma_dec_val_prefix(d, i - start + 1);
                assert(spec_dec_val(d) > u64::MAX);
                assert(spec_parse_u64(v@) is None);
            }
            return None;
        }
        acc = acc * 10 + dig;
        i += 1;
    }
    proof {
        assert(d.take(n - start) =~= d);
    }
    Some(acc)
}

/// The decimal digit character for `d`.
pub open spec fn spec_digit_char(d: nat) -> char {
    ((48 + d) as u8) as char
}

/// The decimal numeral of `n`, most significant digit first, as integer
/// formatting writes it.
pub open spec fn spec_u64_chars(n: nat) -> Seq<char>
    decreases n,
{
    if n < 10 {
        seq![spec_digit_char(n)]
    } else {
        spec_u64_chars(n / 10) + seq![spec_digit_char(n % 10)]
    }
}

/// Write `x` in decimal.
pub fn fmt_u64(x: u64) -> (r: Vec<char>)
    ensures
        r@ == spec_u64_chars(x as nat),
{
    let mut digits: Vec<char> = Vec::new();
    let mut m = x;
    if x == 0 {
        digits.push('0');
        proof {
            assert(digits@ =~= seq![spec_digit_char(0)]);
        }
        return digits;
    }
    proof {
        assert(spec_u64_chars(x as nat) =~= spec_u64_chars(x as nat) + Seq::<char>::empty());
    }
    while m > 0
        invariant
            m > 0 ==> spec_u64_chars(x as nat) == spec_u64_chars(m as nat) + digits@,
            m == 0 ==> spec_u64_chars(x as nat) == digits@,
        decreases m,
    {
        let d = m % 10;
        let c = ((48 + d as u8) as u8) as char;
        proof {
            assert(c == spec_digit_char((m % 10) as nat));
        }
        let ghost old_digits = digits@;
        let ghost old_m = m as nat;
        digits.insert(0, c);
        m = m / 10;
        proof {
            assert(digits@ =~= seq![spec_digit_char(old_m % 10)] + old_digits);
            if m > 0 {
                assert(spec_u64_chars(old_m) == spec_u64_chars(old_m / 10) + seq![
                    spec_digit_char(old_m % 10),
                ]);
                assert(spec_u64_chars(m as nat) + (seq![spec_digit_char(old_m % 10)]
                    + old_digits) =~= (spec_u64_chars(m as nat) + seq![
                    spec_digit_char(old_m % 10),
                ]) + old_digits);
            } else {
                assert(old_m < 10);
                assert(spec_u64_chars(old_m) == seq![spec_digit_char(old_m)]);
                assert(seq![spec_digit_char(old_m)] + old_digits =~= spec_u64_chars(old_m)
                    + old_digits);
            }
        }
    }
    digits
}

/// `hay` holds `needle` as a substring.
pub fn has_sub(hay: &Vec<char>, needle: &Vec<char>) -> (r: bool)
    ensures
        r == contains_sub(hay@, needle@),
{
    proof {
        lemma_find_characterization(hay@, needle@);
    }
    match find_sub(hay, needle) {
        Some(_) => true,
        None => false,
    }
}

} // verus!
