//! Small verified text utilities: equality of strings by their
//! characters, and the byte-level helpers the configuration processing
//! is written over.

use vstd::prelude::*;

verus! {

/// Whether two string slices hold the same characters.
pub fn str_eq(a: &str, b: &str) -> (r: bool)
    ensures
        r == (a@ == b@),
{
    let n = a.unicode_len();
    if n != b.unicode_len() {
        proof {
            assert(a@ != b@) by {
                assert(a@.len() != b@.len());
            };
        }
        return false;
    }
    let mut i: usize = 0;
    while i < n
        invariant
            n == a@.len(),
            n == b@.len(),
            i <= n,
            forall|j: int| 0 <= j < i ==> a@[j] == b@[j],
        decreases n - i,
    {
        if a.get_char(i) != b.get_char(i) {
            proof {
                assert(a@ != b@) by {
                    assert(a@[i as int] != b@[i as int]);
                };
            }
            return false;
        }
        i = i + 1;
    }
    proof {
        assert(a@ =~= b@);
    }
    true
}

/// Whether two strings hold the same characters.
pub fn string_eq(a: &String, b: &String) -> (r: bool)
    ensures
        r == (a@ == b@),
{
    str_eq(a.as_str(), b.as_str())
}

/// Whether a byte is ASCII whitespace.
pub open spec fn spec_is_space(b: u8) -> bool {
    b == 0x20 || b == 0x09 || b == 0x0d || b == 0x0a
}

/// Whether a byte is ASCII whitespace.
pub fn is_space(b: u8) -> (r: bool)
    ensures
        r == spec_is_space(b),
{
    b == 0x20 || b == 0x09 || b == 0x0d || b == 0x0a
}

/// The index of the first byte of `s` that is not whitespace; the length
/// when all of it is.
pub open spec fn spec_first_non_space(s: Seq<u8>) -> int
    decreases s.len(),
{
    if s.len() == 0 {
        0
    } else if spec_is_space(s[0]) {
        1 + spec_first_non_space(s.drop_first())
    } else {
        0
    }
}

/// The index one past the last byte of `s` that is not whitespace; zero
/// when all of it is.
pub open spec fn spec_last_non_space_end(s: Seq<u8>) -> int
    decreases s.len(),
{
    if s.len() == 0 {
        0
    } else if spec_is_space(s.last()) {
        spec_last_non_space_end(s.drop_last())
    } else {
        s.len() as int
    }
}

/// `s` without leading and trailing ASCII whitespace.
pub open spec fn spec_trim(s: Seq<u8>) -> Seq<u8> {
    let start = spec_first_non_space(s);
    let end = spec_last_non_space_end(s);
    if start <= end {
        s.subrange(start, end)
    } else {
        Seq::empty()
    }
}

proof fn lemma_first_non_space_bounds(s: Seq<u8>)
    ensures
        0 <= spec_first_non_space(s) <= s.len(),
        forall|j: int| 0 <= j < spec_first_non_space(s) ==> spec_is_space(#[trigger] s[j]),
        spec_first_non_space(s) < s.len() ==> !spec_is_space(s[spec_first_non_space(s)]),
    decreases s.len(),
{
    if s.len() > 0 && spec_is_space(s[0]) {
        lemma_first_non_space_bounds(s.drop_first());
        assert forall|j: int| 0 <= j < spec_first_non_space(s) implies spec_is_space(
            #[trigger] s[j]) by {
            if j >= 1 {
                assert(s.drop_first()[j - 1] == s[j]);
                assert(spec_is_space(s.drop_first()[j - 1]));
            }
        };
        if spec_first_non_space(s) < s.len() {
            assert(s.drop_first()[spec_first_non_space(s) - 1] == s[spec_first_non_space(s)]);
        }
    }
}

proof fn lemma_last_non_space_end_bounds(s: Seq<u8>)
    ensures
        0 <= spec_last_non_space_end(s) <= s.len(),
        forall|j: int|
            spec_last_non_space_end(s) <= j < s.len() ==> spec_is_space(#[trigger] s[j]),
        spec_last_non_space_end(s) > 0 ==> !spec_is_space(s[spec_last_non_space_end(s) - 1]),
    decreases s.len(),
{
    if s.len() > 0 && spec_is_space(s.last()) {
        lemma_last_non_space_end_bounds(s.drop_last());
        assert forall|j: int| spec_last_non_space_end(s) <= j < s.len() implies spec_is_space(
            #[trigger] s[j]) by {
            if j < s.len() - 1 {
                assert(s.drop_last()[j] == s[j]);
                assert(spec_is_space(s.drop_last()[j]));
            } else {
                assert(s[j] == s.last());
            }
        };
        if spec_last_non_space_end(s) > 0 {
            assert(s.drop_last()[spec_last_non_space_end(s) - 1]
                == s[spec_last_non_space_end(s) - 1]);
        }
    }
}

/// Strip leading and trailing ASCII whitespace from a line of bytes.
pub fn trim_bytes(s: &Vec<u8>) -> (r: Vec<u8>)
    ensures
        r@ == spec_trim(s@),
{
    let n = s.len();
    let mut start: usize = 0;
    proof {
        lemma_first_non_space_bounds(s@);
    }
    while start < n && is_space(s[start])
        invariant
            n == s@.len(),
            start <= n,
            forall|j: int| 0 <= j < start ==> spec_is_space(#[trigger] s@[j]),
            spec_first_non_space(s@) >= start,
        decreases n - start,
    {
        proof {
            lemma_first_non_space_step(s@, start as int);
        }
        start = start + 1;
    }
    proof {
        lemma_first_non_space_bounds(s@);
        assert(spec_first_non_space(s@) == start);
    }
    let mut end: usize = n;
    proof {
        lemma_last_non_space_end_bounds(s@);
    }
    while end > start && is_space(s[end - 1])
        invariant
            n == s@.len(),
            start <= end <= n,
            forall|j: int| end <= j < n ==> spec_is_space(#[trigger] s@[j]),
            spec_first_non_space(s@) == start,
            spec_last_non_space_end(s@) <= end,
        decreases end,
    {
        proof {
            lemma_last_non_space_end_step(s@, end as int);
        }
        end = end - 1;
    }
    proof {
        lemma_last_non_space_end_bounds(s@);
        if end > start {
            assert(!spec_is_space(s@[end - 1]));
            assert(spec_last_non_space_end(s@) == end);
        } else {
            if spec_last_non_space_end(s@) > start {
                lemma_first_non_space_bounds(s@);
                assert(!spec_is_space(s@[spec_last_non_space_end(s@) - 1]));
                assert(false);
            }
        }
    }
    let mut r: Vec<u8> = Vec::new();
    let mut i: usize = start;
    while i < end
        invariant
            n == s@.len(),
            start <= i <= end <= n,
            r@ == s@.subrange(start as int, i as int),
        decreases end - i,
    {
        r.push(s[i]);
        proof {
            assert(r@ =~= s@.subrange(start as int, i + 1));
        }
        i = i + 1;
    }
    proof {
        if start < end {
            assert(spec_trim(s@) == s@.subrange(start as int, end as int));
        } else {
            assert(spec_last_non_space_end(s@) <= start);
            if spec_last_non_space_end(s@) < spec_first_non_space(s@) {
                assert(spec_trim(s@) =~= Seq::<u8>::empty());
            }
            assert(r@ =~= spec_trim(s@));
        }
    }
    r
}

proof fn lemma_first_non_space_step(s: Seq<u8>, i: int)
    requires
        0 <= i < s.len(),
        spec_is_space(s[i]),
        spec_first_non_space(s) >= i,
    ensures
        spec_first_non_space(s) >= i + 1,
    decreases i,
{
    lemma_first_non_space_bounds(s);
    if spec_first_non_space(s) == i {
        assert(!spec_is_space(s[i]));
    }
}

proof fn lemma_last_non_space_end_step(s: Seq<u8>, e: int)
    requires
        0 < e <= s.len(),
        spec_is_space(s[e - 1]),
        spec_last_non_space_end(s) <= e,
    ensures
        spec_last_non_space_end(s) <= e - 1,
{
    lemma_last_non_space_end_bounds(s);
    if spec_last_non_space_end(s) == e {
        assert(!spec_is_space(s[e - 1]));
    }
}

/// The index of the first occurrence of `b` in `s`, if any.
pub open spec fn spec_find_byte(s: Seq<u8>, b: u8) -> Option<int> {
    if exists|i: int| 0 <= i < s.len() && s[i] == b {
        Some(choose|i: int|
            0 <= i < s.len() && s[i] == b && forall|j: int| 0 <= j < i ==> s[j] != b)
    } else {
        None
    }
}

/// Find the first occurrence of `b` in `s`.
pub fn find_byte(s: &Vec<u8>, b: u8) -> (r: Option<usize>)
    ensures
        match r {
            Some(i) => i < s@.len() && s@[i as int] == b && forall|j: int|
                0 <= j < i ==> s@[j] != b,
            None => forall|j: int| 0 <= j < s@.len() ==> s@[j] != b,
        },
{
    let mut i: usize = 0;
    while i < s.len()
        invariant
            i <= s@.len(),
            forall|j: int| 0 <= j < i ==> s@[j] != b,
        decreases s@.len() - i,
    {
        if s[i] == b {
            return Some(i);
        }
        i = i + 1;
    }
    None
}

/// Whether `s` starts with `prefix`.
pub open spec fn spec_starts_with(s: Seq<u8>, prefix: Seq<u8>) -> bool {
    prefix.len() <= s.len() && s.subrange(0, prefix.len() as int) == prefix
}

/// Whether `s` starts with `prefix`.
pub fn starts_with(s: &Vec<u8>, prefix: &Vec<u8>) -> (r: bool)
    ensures
        r == spec_starts_with(s@, prefix@),
{
    if prefix.len() > s.len() {
        return false;
    }
    let mut i: usize = 0;
    while i < prefix.len()
        invariant
            prefix@.len() <= s@.len(),
            i <= prefix@.len(),
            forall|j: int| 0 <= j < i ==> s@[j] == prefix@[j],
        decreases prefix@.len() - i,
    {
        if s[i] != prefix[i] {
            proof {
                assert(s@.subrange(0, prefix@.len() as int)[i as int] != prefix@[i as int]);
            }
            return false;
        }
        i = i + 1;
    }
    proof {
        assert(s@.subrange(0, prefix@.len() as int) =~= prefix@);
    }
    true
}

/// Whether `needle` occurs somewhere in `hay`.
pub open spec fn spec_contains_seq(hay: Seq<u8>, needle: Seq<u8>) -> bool {
    exists|i: int|
        0 <= i && i + needle.len() <= hay.len() && #[trigger] hay.subrange(i, i + needle.len())
            == needle
}

/// Whether `needle` occurs somewhere in `hay`.
pub fn contains_bytes(hay: &Vec<u8>, needle: &Vec<u8>) -> (r: bool)
    ensures
        r == spec_contains_seq(hay@, needle@),
{
    let hlen = hay.len();
    let nlen = needle.len();
    if nlen > hlen {
        proof {
            assert(!spec_contains_seq(hay@, needle@));
        }
        return false;
    }
    let mut i: usize = 0;
    while i <= hlen - nlen
        invariant
            hlen == hay@.len(),
            nlen == needle@.len(),
            needle@.len() <= hay@.len(),
            i <= hay@.len() - needle@.len() + 1,
            forall|j: int|
                0 <= j < i ==> #[trigger] hay@.subrange(j, j + needle@.len()) != needle@,
        decreases hay@.len() - needle@.len() + 1 - i,
    {
        let mut matches_here = true;
        let mut j: usize = 0;
        while j < nlen
            invariant
                hlen == hay@.len(),
                nlen == needle@.len(),
                needle@.len() <= hay@.len(),
                i + needle@.len() <= hay@.len(),
                j <= needle@.len(),
                matches_here == (hay@.subrange(i as int, i + j) =~= needle@.take(j as int)),
            decreases needle@.len() - j,
        {
            if hay[i + j] != needle[j] {
                proof {
                    assert(hay@.subrange(i as int, i + needle@.len())[j as int] != needle@[
                        j as int]);
                    assert(hay@.subrange(i as int, i + needle@.len()) != needle@);
                    assert(needle@.take(needle@.len() as int) =~= needle@);
                }
                matches_here = false;
                j = nlen;
            } else {
                proof {
                    assert(hay@.subrange(i as int, i + j + 1) =~= hay@.subrange(i as int, i
                        + j).push(hay@[i + j]));
                    assert(needle@.take(j + 1) =~= needle@.take(j as int).push(needle@[j as int]));
                }
                j = j + 1;
            }
        }
        if matches_here && j == nlen {
            proof {
                assert(hay@.subrange(i as int, i + needle@.len()) =~= needle@.take(
                    needle@.len() as int));
                assert(needle@.take(needle@.len() as int) =~= needle@);
            }
            return true;
        }
        i = i + 1;
    }
    proof {
        assert(!spec_contains_seq(hay@, needle@));
    }
    false
}

/// Two byte vectors, compared by content.
pub fn bytes_eq(a: &Vec<u8>, b: &Vec<u8>) -> (r: bool)
    ensures
        r == (a@ == b@),
{
    if a.len() != b.len() {
        return false;
    }
    let mut i: usize = 0;
    while i < a.len()
        invariant
            a@.len() == b@.len(),
            i <= a@.len(),
            forall|j: int| 0 <= j < i ==> a@[j] == b@[j],
        decreases a@.len() - i,
    {
        if a[i] != b[i] {
            return false;
        }
        i = i + 1;
    }
    proof {
        assert(a@ =~= b@);
    }
    true
}

/// `a` followed by `b`.
pub fn concat_bytes(a: &Vec<u8>, b: &Vec<u8>) -> (r: Vec<u8>)
    ensures
        r@ == a@ + b@,
{
    let mut r: Vec<u8> = Vec::new();
    let mut i: usize = 0;
    while i < a.len()
        invariant
            i <= a@.len(),
            r@ == a@.take(i as int),
        decreases a@.len() - i,
    {
        r.push(a[i]);
        proof {
            assert(r@ =~= a@.take(i + 1));
        }
        i = i + 1;
    }
    proof {
        assert(r@ =~= a@);
    }
    let mut j: usize = 0;
    while j < b.len()
        invariant
            j <= b@.len(),
            r@ == a@ + b@.take(j as int),
        decreases b@.len() - j,
    {
        r.push(b[j]);
        proof {
            assert(r@ =~= a@ + b@.take(j + 1));
        }
        j = j + 1;
    }
    proof {
        assert(r@ =~= a@ + b@);
    }
    r
}

/// The bytes of `s` from `from` on.
pub fn suffix_bytes(s: &Vec<u8>, from: usize) -> (r: Vec<u8>)
    requires
        from <= s@.len(),
    ensures
        r@ == s@.skip(from as int),
{
    let mut r: Vec<u8> = Vec::new();
    let mut i: usize = from;
    while i < s.len()
        invariant
            from <= i <= s@.len(),
            r@ == s@.subrange(from as int, i as int),
        decreases s@.len() - i,
    {
        r.push(s[i]);
        proof {
            assert(r@ =~= s@.subrange(from as int, i + 1));
        }
        i = i + 1;
    }
    proof {
        assert(r@ =~= s@.skip(from as int));
    }
    r
}

/// The first `to` bytes of `s`.
pub fn prefix_bytes(s: &Vec<u8>, to: usize) -> (r: Vec<u8>)
    requires
        to <= s@.len(),
    ensures
        r@ == s@.take(to as int),
{
    let mut r: Vec<u8> = Vec::new();
    let mut i: usize = 0;
    while i < to
        invariant
            i <= to <= s@.len(),
            r@ == s@.take(i as int),
        decreases to - i,
    {
        r.push(s[i]);
        proof {
            assert(r@ =~= s@.take(i + 1));
        }
        i = i + 1;
    }
    r
}

} // verus!
