//! Character-level text utilities: substring search (case-sensitive and
//! ASCII-case-insensitive), equality, counting and trimming.
//!
//! All specifications are stated over `Seq<char>`, the view of `&str` and
//! `String`.

use vstd::prelude::*;
use vstd::string::StringExecFns;

verus! {

/// The needle `n` occurs in the haystack `h` starting at position `i`.
pub open spec fn matches_at(h: Seq<char>, n: Seq<char>, i: int) -> bool {
    0 <= i && i + n.len() <= h.len() && h.subrange(i, i + n.len()) == n
}

/// The needle `n` occurs somewhere in the haystack `h`.
pub open spec fn contains_seq(h: Seq<char>, n: Seq<char>) -> bool {
    exists|i: int| matches_at(h, n, i)
}

/// Whether the needle `n` occurs in `h` starting at position `i`,
/// decided by comparing characters one at a time.
fn check_match_at(h: &str, n: &str, i: usize, hlen: usize, nlen: usize) -> (r: bool)
    requires
        hlen == h@.len(),
        nlen == n@.len(),
        i + nlen <= hlen,
    ensures
        r == matches_at(h@, n@, i as int),
{
    let mut j: usize = 0;
    while j < nlen
        invariant
            hlen == h@.len(),
            nlen == n@.len(),
            i + nlen <= hlen,
            0 <= j <= nlen,
            forall|k: int| 0 <= k < j ==> h@[i + k] == n@[k],
        decreases nlen - j,
    {
        if h.get_char(i + j) != n.get_char(j) {
            assert(h@.subrange(i as int, i + nlen) != n@) by {
                assert(h@.subrange(i as int, i + nlen)[j as int] == h@[i + j]);
            }
            return false;
        }
        j += 1;
    }
    assert(h@.subrange(i as int, i + nlen) =~= n@);
    true
}

/// Position of the first occurrence of `n` in `h`, if any.
pub fn str_index_of(h: &str, n: &str) -> (r: Option<usize>)
    ensures
        match r {
            Some(i) => matches_at(h@, n@, i as int) && (forall|j: int|
                0 <= j < i ==> !matches_at(h@, n@, j)),
            None => !contains_seq(h@, n@),
        },
{
    let hlen = h.unicode_len();
    let nlen = n.unicode_len();
    if nlen > hlen {
        return None;
    }
    if nlen == 0 {
        assert(h@.subrange(0, 0) =~= n@);
        return Some(0);
    }
    let mut i: usize = 0;
    while i <= hlen - nlen
        invariant
            hlen == h@.len(),
            nlen == n@.len(),
            1 <= nlen <= hlen,
            0 <= i <= hlen - nlen + 1,
            forall|j: int| 0 <= j < i ==> !matches_at(h@, n@, j),
        decreases hlen - nlen + 1 - i,
    {
        if check_match_at(h, n, i, hlen, nlen) {
            return Some(i);
        }
        i += 1;
    }
    None
}

/// Whether `n` occurs in `h`.
pub fn str_contains(h: &str, n: &str) -> (r: bool)
    ensures
        r == contains_seq(h@, n@),
{
    str_index_of(h, n).is_some()
}

/// ASCII case folding of one character: upper-case letters map to their
/// lower-case form, every other character is unchanged.
pub open spec fn fold_char(c: char) -> char {
    if 'A' <= c && c <= 'Z' {
        ((c as u8) + 32) as char
    } else {
        c
    }
}

/// ASCII case folding of a character sequence.
pub open spec fn fold_chars(s: Seq<char>) -> Seq<char> {
    s.map_values(|c: char| fold_char(c))
}

/// The needle `n` occurs in the haystack `h`, comparing ASCII
/// case-insensitively.
pub open spec fn contains_ci(h: Seq<char>, n: Seq<char>) -> bool {
    contains_seq(fold_chars(h), fold_chars(n))
}

/// ASCII case folding, executable form.
fn fold_char_exec(c: char) -> (r: char)
    ensures
        r == fold_char(c),
{
    if 'A' <= c && c <= 'Z' {
        ((c as u8) + 32) as char
    } else {
        c
    }
}

/// Whether `n` occurs in `h` starting at `i`, comparing case-insensitively.
fn check_match_at_ci(h: &str, n: &str, i: usize, hlen: usize, nlen: usize) -> (r: bool)
    requires
        hlen == h@.len(),
        nlen == n@.len(),
        i + nlen <= hlen,
    ensures
        r == matches_at(fold_chars(h@), fold_chars(n@), i as int),
{
    let mut j: usize = 0;
    while j < nlen
        invariant
            hlen == h@.len(),
            nlen == n@.len(),
            i + nlen <= hlen,
            0 <= j <= nlen,
            forall|k: int| 0 <= k < j ==> fold_chars(h@)[i + k] == fold_chars(n@)[k],
        decreases nlen - j,
    {
        if fold_char_exec(h.get_char(i + j)) != fold_char_exec(n.get_char(j)) {
            assert(fold_chars(h@).subrange(i as int, i + nlen) != fold_chars(n@)) by {
                assert(fold_chars(h@).subrange(i as int, i + nlen)[j as int] == fold_chars(
                    h@,
                )[i + j]);
            }
            return false;
        }
        j += 1;
    }
    assert(fold_chars(h@).subrange(i as int, i + nlen) =~= fold_chars(n@));
    true
}

/// Whether `n` occurs in `h`, comparing ASCII case-insensitively.
pub fn str_contains_ci(h: &str, n: &str) -> (r: bool)
    ensures
        r == contains_ci(h@, n@),
{
    let hlen = h.unicode_len();
    let nlen = n.unicode_len();
    if nlen > hlen {
        return false;
    }
    if nlen == 0 {
        assert(fold_chars(h@).subrange(0, 0) =~= fold_chars(n@));
        assert(matches_at(fold_chars(h@), fold_chars(n@), 0));
        return true;
    }
    let mut i: usize = 0;
    while i <= hlen - nlen
        invariant
            hlen == h@.len(),
            nlen == n@.len(),
            1 <= nlen <= hlen,
            0 <= i <= hlen - nlen + 1,
            forall|j: int| 0 <= j < i ==> !matches_at(fold_chars(h@), fold_chars(n@), j),
        decreases hlen - nlen + 1 - i,
    {
        if check_match_at_ci(h, n, i, hlen, nlen) {
            return true;
        }
        i += 1;
    }
    assert(forall|j: int| !matches_at(fold_chars(h@), fold_chars(n@), j));
    false
}

/// Whether two string slices hold the same characters.
pub fn str_eq(a: &str, b: &str) -> (r: bool)
    ensures
        r == (a@ == b@),
{
    let alen = a.unicode_len();
    let blen = b.unicode_len();
    if alen != blen {
        assert(a@ != b@);
        return false;
    }
    let mut i: usize = 0;
    while i < alen
        invariant
            alen == a@.len(),
            alen == b@.len(),
            0 <= i <= alen,
            forall|k: int| 0 <= k < i ==> a@[k] == b@[k],
        decreases alen - i,
    {
        if a.get_char(i) != b.get_char(i) {
            return false;
        }
        i += 1;
    }
    assert(a@ =~= b@);
    true
}

/// Number of occurrences of the character `c` in `s`.
pub open spec fn count_occ(s: Seq<char>, c: char) -> nat
    decreases s.len(),
{
    if s.len() == 0 {
        0
    } else {
        count_occ(s.drop_last(), c) + (if s.last() == c {
            1nat
        } else {
            0nat
        })
    }
}

proof fn lemma_count_occ_take(s: Seq<char>, c: char, i: int)
    requires
        0 <= i < s.len(),
    ensures
        count_occ(s.take(i + 1), c) == count_occ(s.take(i), c) + (if s[i] == c {
            1nat
        } else {
            0nat
        }),
{
    assert(s.take(i + 1).drop_last() =~= s.take(i));
    assert(s.take(i + 1).last() == s[i]);
}

/// Number of occurrences of `c` in `s`.
pub fn str_count_char(s: &str, c: char) -> (r: usize)
    ensures
        r == count_occ(s@, c),
{
    let len = s.unicode_len();
    let mut r: usize = 0;
    let mut i: usize = 0;
    while i < len
        invariant
            len == s@.len(),
            0 <= i <= len,
            r <= i,
            r == count_occ(s@.take(i as int), c),
        decreases len - i,
    {
        proof {
            lemma_count_occ_take(s@, c, i as int);
        }
        if s.get_char(i) == c {
            r += 1;
        }
        i += 1;
    }
    assert(s@.take(len as int) =~= s@);
    r
}

/// `n` is a prefix of `h`.
pub open spec fn starts_with(h: Seq<char>, n: Seq<char>) -> bool {
    matches_at(h, n, 0)
}

/// Whether `h` begins with `n`.
pub fn str_starts_with(h: &str, n: &str) -> (r: bool)
    ensures
        r == starts_with(h@, n@),
{
    let hlen = h.unicode_len();
    let nlen = n.unicode_len();
    if nlen > hlen {
        return false;
    }
    check_match_at(h, n, 0, hlen, nlen)
}

/// A character that ASCII trimming removes at either end.
pub open spec fn is_space(c: char) -> bool {
    c == ' ' || c == '\t' || c == '\r' || c == '\n'
}

/// `s` without its leading space characters.
pub open spec fn trim_start(s: Seq<char>) -> Seq<char>
    decreases s.len(),
{
    if s.len() > 0 && is_space(s[0]) {
        trim_start(s.drop_first())
    } else {
        s
    }
}

/// `s` without its trailing space characters.
pub open spec fn trim_end(s: Seq<char>) -> Seq<char>
    decreases s.len(),
{
    if s.len() > 0 && is_space(s.last()) {
        trim_end(s.drop_last())
    } else {
        s
    }
}

/// `s` without leading and trailing space characters.
pub open spec fn trim_seq(s: Seq<char>) -> Seq<char> {
    trim_end(trim_start(s))
}

proof fn lemma_trim_start_at(s: Seq<char>, a: int)
    requires
        0 <= a <= s.len(),
        forall|k: int| 0 <= k < a ==> is_space(s[k]),
        a < s.len() ==> !is_space(s[a]),
    ensures
        trim_start(s) == s.subrange(a, s.len() as int),
    decreases a,
{
    if a == 0 {
        assert(s.subrange(0, s.len() as int) =~= s);
    } else {
        lemma_trim_start_at(s.drop_first(), a - 1);
        assert(s.drop_first().subrange(a - 1, s.drop_first().len() as int) =~= s.subrange(
            a,
            s.len() as int,
        ));
    }
}

proof fn lemma_trim_end_at(t: Seq<char>, b: int)
    requires
        0 <= b <= t.len(),
        forall|k: int| b <= k < t.len() ==> is_space(t[k]),
        b > 0 ==> !is_space(t[b - 1]),
    ensures
        trim_end(t) == t.subrange(0, b),
    decreases t.len() - b,
{
    if b == t.len() {
        assert(t.subrange(0, b) =~= t);
    } else {
        assert(is_space(t.last()));
        lemma_trim_end_at(t.drop_last(), b);
        assert(t.drop_last().subrange(0, b) =~= t.subrange(0, b));
    }
}

/// Whether trimming removes the character `c`.
fn is_space_char(c: char) -> (r: bool)
    ensures
        r == is_space(c),
{
    c == ' ' || c == '\t' || c == '\r' || c == '\n'
}

/// `s` with ASCII space characters removed from both ends.
pub fn str_trim(s: &str) -> (r: &str)
    ensures
        r@ == trim_seq(s@),
{
    let len = s.unicode_len();
    let mut a: usize = 0;
    while a < len && is_space_char(s.get_char(a))
        invariant
            len == s@.len(),
            0 <= a <= len,
            forall|k: int| 0 <= k < a ==> is_space(s@[k]),
        decreases len - a,
    {
        a += 1;
    }
    let mut b: usize = len;
    while b > a && is_space_char(s.get_char(b - 1))
        invariant
            len == s@.len(),
            0 <= a <= b <= len,
            forall|k: int| 0 <= k < a ==> is_space(s@[k]),
            forall|k: int| b <= k < len ==> is_space(s@[k]),
        decreases b,
    {
        b -= 1;
    }
    proof {
        lemma_trim_start_at(s@, a as int);
        let t = s@.subrange(a as int, len as int);
        if b == a {
            lemma_trim_end_at(t, 0);
        } else {
            lemma_trim_end_at(t, b - a);
        }
        assert(t.subrange(0, b - a) =~= s@.subrange(a as int, b as int));
    }
    s.substring_char(a, b)
}

/// First position at or after `from` where the character `c` occurs.
pub fn str_index_of_char_from(s: &str, c: char, from: usize) -> (r: Option<usize>)
    requires
        from <= s@.len(),
    ensures
        match r {
            Some(i) => from <= i < s@.len() && s@[i as int] == c && (forall|j: int|
                from <= j < i ==> s@[j] != c),
            None => forall|j: int| from <= j < s@.len() ==> s@[j] != c,
        },
{
    let len = s.unicode_len();
    let mut i: usize = from;
    while i < len
        invariant
            len == s@.len(),
            from <= i <= len,
            forall|j: int| from <= j < i ==> s@[j] != c,
        decreases len - i,
    {
        if s.get_char(i) == c {
            return Some(i);
        }
        i += 1;
    }
    None
}

/// The position of the first occurrence of `n` in `h`, as a spec value.
pub open spec fn first_match(h: Seq<char>, n: Seq<char>) -> int {
    choose|i: int| matches_at(h, n, i) && (forall|j: int| 0 <= j < i ==> !matches_at(h, n, j))
}

/// The position of the first occurrence of `c` in `h` at or after `from`,
/// or `h.len()` when there is none.
pub open spec fn first_char_from(h: Seq<char>, c: char, from: int) -> int {
    if exists|j: int| from <= j < h.len() && h[j] == c {
        choose|j: int|
            from <= j < h.len() && h[j] == c && (forall|k: int| from <= k < j ==> h[k] != c)
    } else {
        h.len() as int
    }
}


/// The trimmed text standing after the first occurrence of `marker`, up to
/// the end of that line; `None` when the marker does not occur.
pub fn marker_line_suffix(content: &str, marker: &str) -> (r: Option<String>)
    ensures
        match r {
            Some(s) => contains_seq(content@, marker@) && s@ == trim_seq(
                content@.subrange(
                    first_match(content@, marker@) + marker@.len(),
                    first_char_from(content@, '\n', first_match(content@, marker@) + marker@.len()),
                ),
            ),
            None => !contains_seq(content@, marker@),
        },
{
    let clen = content.unicode_len();
    match str_index_of(content, marker) {
        Some(p) => {
            proof {
                let w = first_match(content@, marker@);
                assert(matches_at(content@, marker@, p as int) && (forall|j: int|
                    0 <= j < p ==> !matches_at(content@, marker@, j)));
                assert(matches_at(content@, marker@, w) && (forall|j: int|
                    0 <= j < w ==> !matches_at(content@, marker@, j)));
                if w < p {
                    assert(!matches_at(content@, marker@, w));
                } else if p < w {
                    assert(!matches_at(content@, marker@, p as int));
                }
                assert(w == p);
            }
            let mlen = marker.unicode_len();
            assert(p + mlen <= clen);
            let start = p + mlen;
            let stop = match str_index_of_char_from(content, '\n', start) {
                Some(j) => {
                    proof {
                        assert(exists|j2: int|
                            start <= j2 < content@.len() && content@[j2] == '\n');
                        let w2 = choose|j2: int|
                            start <= j2 < content@.len() && content@[j2] == '\n' && (forall|k: int|
                                start <= k < j2 ==> content@[k] != '\n');
                        if w2 < j {
                            assert(content@[w2] != '\n');
                        } else if (j as int) < w2 {
                            assert(content@[j as int] != '\n');
                        }
                        assert(first_char_from(content@, '\n', start as int) == j);
                    }
                    j
                },
                None => {
                    proof {
                        assert(first_char_from(content@, '\n', start as int)
                            == content@.len() as int);
                    }
                    clen
                },
            };
            let seg = content.substring_char(start, stop);
            let t = str_trim(seg);
            Some(String::from_str(t))
        },
        None => None,
    }
}

} // verus!
