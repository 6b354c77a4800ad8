//! Verified text utilities: substring search (first and last occurrence),
//! whitespace trimming, and removal of a single character. The scraping
//! heuristics in the rest of the crate are stated over these.

use vstd::prelude::*;
use vstd::string::*;

verus! {

/// `p` occurs in `s` starting at position `i`.
pub open spec fn match_at(s: Seq<char>, p: Seq<char>, i: int) -> bool {
    0 <= i && i + p.len() <= s.len() && s.subrange(i, i + p.len()) == p
}

/// Position of the first occurrence of `p` in `s` at or after `from`
/// (`None` when `from` is negative).
pub open spec fn first_match_from(s: Seq<char>, p: Seq<char>, from: int) -> Option<int>
    decreases s.len() - from,
{
    if from < 0 || from + p.len() > s.len() {
        None
    } else if p.len() == 0 {
        Some(from)
    } else if match_at(s, p, from) {
        Some(from)
    } else {
        first_match_from(s, p, from + 1)
    }
}

/// Position of the last occurrence of `p` in `s` starting in `[lo, hi]`.
pub open spec fn last_match_in(s: Seq<char>, p: Seq<char>, lo: int, hi: int) -> Option<int>
    decreases hi - lo + 1,
{
    if hi < lo || hi - lo + 1 < 0 {
        None
    } else if match_at(s, p, hi) {
        Some(hi)
    } else {
        last_match_in(s, p, lo, hi - 1)
    }
}

/// `first_match_from` returns the leftmost occurrence at or after `from`,
/// and `None` exactly when there is none.
pub proof fn lemma_first_match_from(s: Seq<char>, p: Seq<char>, from: int)
    requires
        from >= 0,
    ensures
        first_match_from(s, p, from) matches Some(i) ==> from <= i && match_at(s, p, i)
            && forall|j: int| from <= j < i ==> !match_at(s, p, j),
        first_match_from(s, p, from) is None ==> forall|j: int| j >= from ==> !match_at(s, p, j),
    decreases s.len() - from,
{
    if from + p.len() <= s.len() {
        if p.len() == 0 {
            assert(s.subrange(from, from + p.len()) =~= p);
        } else if !match_at(s, p, from) {
            lemma_first_match_from(s, p, from + 1);
        }
    }
}

/// Whether `p` occurs in `s` at position `i`, by comparing characters.
pub fn matches_at(s: &str, p: &str, i: usize) -> (r: bool)
    requires
        i + p@.len() <= s@.len(),
    ensures
        r == match_at(s@, p@, i as int),
{
    let slen = s.unicode_len();
    let plen = p.unicode_len();
    let mut j: usize = 0;
    while j < plen
        invariant
            slen == s@.len(),
            plen == p@.len(),
            j <= plen,
            i + plen <= slen,
            forall|k: int| 0 <= k < j ==> s@[i + k] == p@[k],
        decreases plen - j,
    {
        if s.get_char(i + j) != p.get_char(j) {
            proof {
                if match_at(s@, p@, i as int) {
                    assert(s@.subrange(i as int, i + p@.len())[j as int] == p@[j as int]);
                }
            }
            return false;
        }
        j += 1;
    }
    proof {
        assert(s@.subrange(i as int, i + p@.len()) =~= p@);
    }
    true
}

/// First occurrence of `p` in `s` at or after `from`.
pub fn find_str_from(s: &str, p: &str, from: usize) -> (r: Option<usize>)
    ensures
        match r {
            Some(i) => from <= i && first_match_from(s@, p@, from as int) == Some(i as int),
            None => first_match_from(s@, p@, from as int) is None,
        },
{
    let slen = s.unicode_len();
    let plen = p.unicode_len();
    if plen > slen || from > slen - plen {
        return None;
    }
    if plen == 0 {
        return Some(from);
    }
    let mut i: usize = from;
    while i <= slen - plen
        invariant
            slen == s@.len(),
            plen == p@.len(),
            0 < plen <= slen,
            from <= i,
            i <= slen,
            first_match_from(s@, p@, from as int) == first_match_from(s@, p@, i as int),
        decreases slen - i,
    {
        if matches_at(s, p, i) {
            return Some(i);
        }
        i += 1;
    }
    None
}

/// Last occurrence of `p` in `s` starting in `[lo, hi]`.
pub fn rfind_str_in(s: &str, p: &str, lo: usize, hi: usize) -> (r: Option<usize>)
    ensures
        match r {
            Some(i) => lo <= i <= hi && last_match_in(s@, p@, lo as int, hi as int) == Some(
                i as int,
            ),
            None => last_match_in(s@, p@, lo as int, hi as int) is None,
        },
{
    let slen = s.unicode_len();
    let plen = p.unicode_len();
    let mut h = hi;
    loop
        invariant
            slen == s@.len(),
            plen == p@.len(),
            h <= hi,
            last_match_in(s@, p@, lo as int, hi as int) == last_match_in(
                s@,
                p@,
                lo as int,
                h as int,
            ),
        decreases h + 1,
    {
        if h < lo {
            return None;
        }
        if plen <= slen && h <= slen - plen {
            if matches_at(s, p, h) {
                return Some(h);
            }
        }
        proof {
            assert(!match_at(s@, p@, h as int));
        }
        if h == 0 {
            proof {
                assert(last_match_in(s@, p@, lo as int, 0 - 1) is None);
            }
            return None;
        }
        h -= 1;
    }
}

/// A whitespace character, as trimming understands it: the Unicode
/// `White_Space` set.
pub open spec fn is_space(c: char) -> bool {
    ||| c == '\u{0009}'
    ||| c == '\u{000A}'
    ||| c == '\u{000B}'
    ||| c == '\u{000C}'
    ||| c == '\u{000D}'
    ||| c == ' '
    ||| c == '\u{0085}'
    ||| c == '\u{00A0}'
    ||| c == '\u{1680}'
    ||| ('\u{2000}' <= c && c <= '\u{200A}')
    ||| c == '\u{2028}'
    ||| c == '\u{2029}'
    ||| c == '\u{202F}'
    ||| c == '\u{205F}'
    ||| c == '\u{3000}'
}

/// `s` with its leading whitespace removed.
pub open spec fn trim_start_spec(s: Seq<char>) -> Seq<char>
    decreases s.len(),
{
    if s.len() > 0 && is_space(s.first()) {
        trim_start_spec(s.drop_first())
    } else {
        s
    }
}

/// `s` with its trailing whitespace removed.
pub open spec fn trim_end_spec(s: Seq<char>) -> Seq<char>
    decreases s.len(),
{
    if s.len() > 0 && is_space(s.last()) {
        trim_end_spec(s.drop_last())
    } else {
        s
    }
}

/// `s` with leading and trailing whitespace removed.
pub open spec fn trim_spec(s: Seq<char>) -> Seq<char> {
    trim_end_spec(trim_start_spec(s))
}

fn is_space_char(c: char) -> (r: bool)
    ensures
        r == is_space(c),
{
    c == '\u{0009}' || c == '\u{000A}' || c == '\u{000B}' || c == '\u{000C}' || c == '\u{000D}'
        || c == ' ' || c == '\u{0085}' || c == '\u{00A0}' || c == '\u{1680}' || ('\u{2000}' <= c
        && c <= '\u{200A}') || c == '\u{2028}' || c == '\u{2029}' || c == '\u{202F}'
        || c == '\u{205F}' || c == '\u{3000}'
}

/// A copy of `s` with leading and trailing whitespace removed.
pub fn trim_str(s: &str) -> (r: String)
    ensures
        r@ == trim_spec(s@),
{
    let slen = s.unicode_len();
    proof {
        assert(s@.skip(0) =~= s@);
    }
    let mut i: usize = 0;
    while i < slen && is_space_char(s.get_char(i))
        invariant
            slen == s@.len(),
            i <= slen,
            trim_start_spec(s@) == trim_start_spec(s@.skip(i as int)),
        decreases slen - i,
    {
        proof {
            assert(s@.skip(i as int).drop_first() =~= s@.skip(i as int + 1));
        }
        i += 1;
    }
    if i == slen {
        proof {
            assert(s@.skip(slen as int) =~= Seq::<char>::empty());
        }
        return String::new();
    }
    proof {
        assert(trim_start_spec(s@) == s@.skip(i as int));
    }
    proof {
        assert(s@.skip(i as int) =~= s@.subrange(i as int, slen as int));
    }
    let mut j: usize = slen;
    while j > i && is_space_char(s.get_char(j - 1))
        invariant
            slen == s@.len(),
            i < slen,
            !is_space(s@[i as int]),
            i + 1 <= j <= slen,
            trim_end_spec(s@.skip(i as int)) == trim_end_spec(s@.subrange(i as int, j as int)),
        decreases j,
    {
        proof {
            assert(s@.subrange(i as int, j as int).drop_last() =~= s@.subrange(
                i as int,
                j as int - 1,
            ));
            assert(s@.subrange(i as int, j as int).last() == s@[j as int - 1]);
        }
        j -= 1;
    }
    proof {
        assert(s@.subrange(i as int, j as int).last() == s@[j as int - 1]);
        assert(trim_end_spec(s@.subrange(i as int, j as int)) == s@.subrange(i as int, j as int));
    }
    s.substring_char(i, j).to_owned()
}

/// `s` with every occurrence of the character `c` removed.
pub open spec fn strip_char_spec(s: Seq<char>, c: char) -> Seq<char>
    decreases s.len(),
{
    if s.len() == 0 {
        Seq::empty()
    } else if s.last() == c {
        strip_char_spec(s.drop_last(), c)
    } else {
        strip_char_spec(s.drop_last(), c).push(s.last())
    }
}

/// A copy of `s` with every occurrence of the character `c` removed.
pub fn strip_char_str(s: &str, c: char) -> (r: String)
    ensures
        r@ == strip_char_spec(s@, c),
{
    let slen = s.unicode_len();
    let mut r = String::new();
    let mut i: usize = 0;
    while i < slen
        invariant
            slen == s@.len(),
            i <= slen,
            r@ == strip_char_spec(s@.take(i as int), c),
        decreases slen - i,
    {
        let ch = s.get_char(i);
        proof {
            assert(s@.take(i as int + 1).drop_last() =~= s@.take(i as int));
            assert(s@.take(i as int + 1).last() == s@[i as int]);
        }
        if ch != c {
            r.append(s.substring_char(i, i + 1));
            proof {
                assert(s@.subrange(i as int, i as int + 1) =~= seq![s@[i as int]]);
                assert(strip_char_spec(s@.take(i as int), c).push(s@[i as int]) =~= strip_char_spec(
                    s@.take(i as int),
                    c,
                ) + seq![s@[i as int]]);
            }
        }
        i += 1;
    }
    proof {
        assert(s@.take(slen as int) =~= s@);
    }
    r
}

} // verus!
