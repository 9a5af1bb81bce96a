//! Verified text helpers: substring containment, removal of every occurrence
//! of a pattern, and whitespace trimming, each against an exact sequence-level
//! specification.
use vstd::prelude::*;

verus! {

/// True when `needle` occurs in `hay` starting at character index `k`.
pub open spec fn contains_seq_at(hay: Seq<char>, needle: Seq<char>, k: int) -> bool {
    0 <= k && k + needle.len() <= hay.len() && hay.subrange(k, k + needle.len() as int) == needle
}

/// True when `needle` occurs somewhere in `hay` (substring containment,
/// unanchored; the empty needle occurs in every text).
pub open spec fn contains_seq(hay: Seq<char>, needle: Seq<char>) -> bool {
    exists|k: int| contains_seq_at(hay, needle, k)
}

/// `hay` with every occurrence of the non-empty pattern `p` removed,
/// scanning left to right without overlap.
pub open spec fn remove_all_seq(s: Seq<char>, p: Seq<char>) -> Seq<char>
    decreases s.len(),
{
    if p.len() == 0 || s.len() < p.len() {
        s
    } else if s.subrange(0, p.len() as int) == p {
        remove_all_seq(s.skip(p.len() as int), p)
    } else {
        seq![s[0]] + remove_all_seq(s.skip(1), p)
    }
}

/// The characters the trimming helpers treat as whitespace: the Unicode
/// `White_Space` code points.
pub open spec fn is_space_char(c: char) -> bool {
    ||| c == '\u{0009}'
    ||| c == '\u{000A}'
    ||| c == '\u{000B}'
    ||| c == '\u{000C}'
    ||| c == '\u{000D}'
    ||| c == ' '
    ||| c == '\u{0085}'
    ||| c == '\u{00A0}'
    ||| c == '\u{1680}'
    ||| c == '\u{2000}'
    ||| c == '\u{2001}'
    ||| c == '\u{2002}'
    ||| c == '\u{2003}'
    ||| c == '\u{2004}'
    ||| c == '\u{2005}'
    ||| c == '\u{2006}'
    ||| c == '\u{2007}'
    ||| c == '\u{2008}'
    ||| c == '\u{2009}'
    ||| c == '\u{200A}'
    ||| c == '\u{2028}'
    ||| c == '\u{2029}'
    ||| c == '\u{202F}'
    ||| c == '\u{205F}'
    ||| c == '\u{3000}'
}

/// `s` without its leading whitespace.
pub open spec fn trim_start_seq(s: Seq<char>) -> Seq<char>
    decreases s.len(),
{
    if s.len() > 0 && is_space_char(s[0]) {
        trim_start_seq(s.skip(1))
    } else {
        s
    }
}

/// `s` without its trailing whitespace.
pub open spec fn trim_end_seq(s: Seq<char>) -> Seq<char>
    decreases s.len(),
{
    if s.len() > 0 && is_space_char(s[s.len() - 1]) {
        trim_end_seq(s.drop_last())
    } else {
        s
    }
}

/// Whether `needle` occurs in `hay` at index `k`; compares character by
/// character.
fn match_at(hay: &str, hay_len: usize, needle: &str, needle_len: usize, k: usize) -> (b: bool)
    requires
        hay_len == hay@.len(),
        needle_len == needle@.len(),
        k + needle_len <= hay_len,
    ensures
        b == contains_seq_at(hay@, needle@, k as int),
{
    let mut j: usize = 0;
    while j < needle_len
        invariant
            hay_len == hay@.len(),
            needle_len == needle@.len(),
            k + needle_len <= hay_len,
            0 <= j <= needle_len,
            forall|m: int| 0 <= m < j ==> hay@[k + m] == needle@[m],
        decreases needle_len - j,
    {
        if hay.get_char(k + j) != needle.get_char(j) {
            proof {
                let sub = hay@.subrange(k as int, k + needle@.len() as int);
                assert(sub[j as int] != needle@[j as int]);
            }
            return false;
        }
        j += 1;
    }
    proof {
        let sub = hay@.subrange(k as int, k + needle@.len() as int);
        assert(sub =~= needle@);
    }
    true
}

/// Substring containment on `&str`, specified by `contains_seq`.
pub fn str_contains(hay: &str, needle: &str) -> (b: bool)
    ensures
        b == contains_seq(hay@, needle@),
{
    let hay_len = hay.unicode_len();
    let needle_len = needle.unicode_len();
    if needle_len == 0 {
        proof {
            assert(hay@.subrange(0, 0) =~= needle@);
            assert(contains_seq_at(hay@, needle@, 0));
        }
        return true;
    }
    if needle_len > hay_len {
        proof {
            assert(forall|k: int| !contains_seq_at(hay@, needle@, k));
        }
        return false;
    }
    let mut k: usize = 0;
    while k <= hay_len - needle_len
        invariant
            hay_len == hay@.len(),
            needle_len == needle@.len(),
            1 <= needle_len <= hay_len,
            0 <= k <= hay_len - needle_len + 1,
            forall|i: int| 0 <= i < k ==> !contains_seq_at(hay@, needle@, i),
        decreases hay_len - k,
    {
        if match_at(hay, hay_len, needle, needle_len, k) {
            return true;
        }
        k += 1;
    }
    proof {
        assert(forall|i: int| i >= k ==> !contains_seq_at(hay@, needle@, i));
    }
    false
}

/// `s` with every occurrence of `p` removed, specified by `remove_all_seq`.
pub fn remove_all(s: &str, p: &str) -> (r: String)
    ensures
        r@ == remove_all_seq(s@, p@),
{
    let s_len = s.unicode_len();
    let p_len = p.unicode_len();
    if p_len == 0 {
        return String::from_str(s);
    }
    let mut out = String::new();
    let mut i: usize = 0;
    proof {
        assert(s@.skip(0) =~= s@);
        assert(out@ + remove_all_seq(s@, p@) =~= remove_all_seq(s@, p@));
    }
    while i < s_len
        invariant
            s_len == s@.len(),
            p_len == p@.len(),
            p_len > 0,
            0 <= i <= s_len,
            remove_all_seq(s@, p@) == out@ + remove_all_seq(s@.skip(i as int), p@),
        decreases s_len - i,
    {
        let rest = s_len - i;
        if p_len <= rest && match_at(s, s_len, p, p_len, i) {
            proof {
                let tail = s@.skip(i as int);
                assert(tail.subrange(0, p@.len() as int) =~= s@.subrange(
                    i as int,
                    i + p@.len() as int,
                ));
                assert(tail.skip(p@.len() as int) =~= s@.skip(i + p@.len() as int));
                assert(remove_all_seq(tail, p@) == remove_all_seq(
                    tail.skip(p@.len() as int),
                    p@,
                ));
            }
            i += p_len;
        } else {
            let piece = s.substring_char(i, i + 1);
            out.append(piece);
            proof {
                let tail = s@.skip(i as int);
                assert(tail.skip(1) =~= s@.skip(i + 1));
                if p_len <= rest {
                    assert(tail.subrange(0, p@.len() as int) =~= s@.subrange(
                        i as int,
                        i + p@.len() as int,
                    ));
                    assert(remove_all_seq(tail, p@) == seq![tail[0]] + remove_all_seq(
                        tail.skip(1),
                        p@,
                    ));
                } else {
                    assert(remove_all_seq(tail, p@) == tail);
                    assert(remove_all_seq(tail.skip(1), p@) == tail.skip(1));
                    assert(tail =~= seq![tail[0]] + tail.skip(1));
                }
                assert(seq![tail[0]] =~= s@.subrange(i as int, i + 1));
                assert((out@ + s@.subrange(i as int, i + 1)) + remove_all_seq(
                    s@.skip(i + 1),
                    p@,
                ) =~= out@ + remove_all_seq(tail, p@));
            }
            i += 1;
        }
    }
    proof {
        assert(s@.skip(s_len as int) =~= Seq::<char>::empty());
        assert(out@ + Seq::<char>::empty() =~= out@);
    }
    out
}

/// `s` without its leading whitespace, specified by `trim_start_seq`.
pub fn trim_start(s: &str) -> (r: String)
    ensures
        r@ == trim_start_seq(s@),
{
    let s_len = s.unicode_len();
    let mut j: usize = 0;
    proof {
        assert(s@.skip(0) =~= s@);
    }
    while j < s_len && is_space(s.get_char(j))
        invariant
            s_len == s@.len(),
            0 <= j <= s_len,
            trim_start_seq(s@) == trim_start_seq(s@.skip(j as int)),
        decreases s_len - j,
    {
        proof {
            let tail = s@.skip(j as int);
            assert(tail[0] == s@[j as int]);
            assert(tail.skip(1) =~= s@.skip(j + 1));
        }
        j += 1;
    }
    let r = String::from_str(s.substring_char(j, s_len));
    proof {
        let tail = s@.skip(j as int);
        assert(tail =~= s@.subrange(j as int, s@.len() as int));
        if tail.len() > 0 {
            assert(tail[0] == s@[j as int]);
        }
        assert(trim_start_seq(tail) == tail);
    }
    r
}

/// `s` without its trailing whitespace, specified by `trim_end_seq`.
pub fn trim_end(s: &str) -> (r: String)
    ensures
        r@ == trim_end_seq(s@),
{
    let s_len = s.unicode_len();
    let mut j: usize = s_len;
    proof {
        assert(s@.take(s_len as int) =~= s@);
    }
    while j > 0 && is_space(s.get_char(j - 1))
        invariant
            s_len == s@.len(),
            0 <= j <= s_len,
            trim_end_seq(s@) == trim_end_seq(s@.take(j as int)),
        decreases j,
    {
        proof {
            let front = s@.take(j as int);
            assert(front[front.len() - 1] == s@[j - 1]);
            assert(front.drop_last() =~= s@.take(j - 1));
        }
        j -= 1;
    }
    let r = String::from_str(s.substring_char(0, j));
    proof {
        let front = s@.take(j as int);
        assert(front =~= s@.subrange(0, j as int));
        if front.len() > 0 {
            assert(front[front.len() - 1] == s@[j - 1]);
        }
        assert(trim_end_seq(front) == front);
    }
    r
}

/// Whether `c` is one of the whitespace characters of `is_space_char`.
pub fn is_space(c: char) -> (b: bool)
    ensures
        b == is_space_char(c),
{
    c == '\u{0009}' || c == '\u{000A}' || c == '\u{000B}' || c == '\u{000C}' || c == '\u{000D}'
        || c == ' ' || c == '\u{0085}' || c == '\u{00A0}' || c == '\u{1680}' || c == '\u{2000}'
        || c == '\u{2001}' || c == '\u{2002}' || c == '\u{2003}' || c == '\u{2004}' || c
        == '\u{2005}' || c == '\u{2006}' || c == '\u{2007}' || c == '\u{2008}' || c == '\u{2009}'
        || c == '\u{200A}' || c == '\u{2028}' || c == '\u{2029}' || c == '\u{202F}' || c
        == '\u{205F}' || c == '\u{3000}'
}

/// Whether two string slices hold the same characters.
pub fn str_eq(a: &str, b: &str) -> (r: bool)
    ensures
        r == (a@ == b@),
{
    let sa = String::from_str(a);
    let sb = String::from_str(b);
    sa == sb
}

} // verus!
