//! Version tags: the `v<major>.<minor>.<patch>` tag-name grammar, its
//! verified parser, and the resolution of the highest version among a set of
//! tag references.
use vstd::prelude::*;

verus! {

/// Whether `c` is a decimal digit.
pub open spec fn is_digit(c: char) -> bool {
    48 <= c as u32 <= 57
}

/// The numeric value of a decimal digit.
pub open spec fn digit_val(c: char) -> nat
    recommends
        is_digit(c),
{
    (c as u32 - 48) as nat
}

/// Whether every character of `s` is a decimal digit.
pub open spec fn all_digits(s: Seq<char>) -> bool {
    forall|k: int| 0 <= k < s.len() ==> is_digit(#[trigger] s[k])
}

/// The number a digit run denotes, most significant digit first.
pub open spec fn digits_val(s: Seq<char>) -> nat
    decreases s.len(),
{
    if s.len() == 0 {
        0
    } else {
        digits_val(s.drop_last()) * 10 + digit_val(s.last())
    }
}

/// Whether `s` splits as `v`, the digit run `m`, a dot, the digit run `n`,
/// a dot, and the digit run `p`, each run non-empty.
pub open spec fn tag_decomposition(s: Seq<char>, m: Seq<char>, n: Seq<char>, p: Seq<char>) -> bool {
    &&& s == seq!['v'] + m + seq!['.'] + n + seq!['.'] + p
    &&& m.len() > 0 && all_digits(m)
    &&& n.len() > 0 && all_digits(n)
    &&& p.len() > 0 && all_digits(p)
}

/// Whether `s` is a well-formed version tag name `v<major>.<minor>.<patch>`.
pub open spec fn is_version_tag_name(s: Seq<char>) -> bool {
    exists|m: Seq<char>, n: Seq<char>, p: Seq<char>| tag_decomposition(s, m, n, p)
}

/// Whether the three numbers of a well-formed tag name fit in `u64`.
pub open spec fn version_fits(s: Seq<char>) -> bool {
    forall|m: Seq<char>, n: Seq<char>, p: Seq<char>|
        #[trigger] tag_decomposition(s, m, n, p) ==> digits_val(m) <= u64::MAX && digits_val(n)
            <= u64::MAX && digits_val(p) <= u64::MAX
}

/// A semantic version: the major, minor and patch numbers.
#[derive(Clone, Copy, Debug, PartialEq, Eq, Structural, Hash)]
pub struct Version {
    pub major: u64,
    pub minor: u64,
    pub patch: u64,
}

impl Version {
    /// Packs the three numbers into a version.
    pub fn new(major: u64, minor: u64, patch: u64) -> (r: Version)
        ensures
            r == (Version { major, minor, patch }),
    {
        Version { major, minor, patch }
    }
}

/// Strict lexicographic order on versions: major first, then minor, then
/// patch.
pub open spec fn version_lt(a: Version, b: Version) -> bool {
    ||| a.major < b.major
    ||| (a.major == b.major && a.minor < b.minor)
    ||| (a.major == b.major && a.minor == b.minor && a.patch < b.patch)
}

/// Lexicographic order on versions, allowing equality.
pub open spec fn version_le(a: Version, b: Version) -> bool {
    version_lt(a, b) || a == b
}

/// The version a tag name denotes: `Some` exactly when the name is
/// well-formed and its numbers fit in `u64`.
pub open spec fn spec_parse_version(s: Seq<char>) -> Option<Version> {
    if is_version_tag_name(s) && version_fits(s) {
        let (m, n, p) = choose|m: Seq<char>, n: Seq<char>, p: Seq<char>|
            tag_decomposition(s, m, n, p);
        Some(
            Version {
                major: digits_val(m) as u64,
                minor: digits_val(n) as u64,
                patch: digits_val(p) as u64,
            },
        )
    } else {
        None
    }
}

/// A tag reference of the repository, already resolved to a plain name and
/// the commit it points at; annotated and lightweight tags carry the same
/// data and resolution treats them alike.
#[derive(Debug)]
pub enum TagRef {
    /// A reference that points directly at a commit.
    Lightweight { name: String, target: String },
    /// A reference that points at a tag object, peeled to its name and its
    /// target commit.
    Annotated { name: String, target: String },
}

/// The name a tag reference carries.
pub open spec fn tag_ref_name(t: TagRef) -> Seq<char> {
    match t {
        TagRef::Lightweight { name, target } => name@,
        TagRef::Annotated { name, target } => name@,
    }
}

/// The commit a tag reference points at.
pub open spec fn tag_ref_target(t: TagRef) -> Seq<char> {
    match t {
        TagRef::Lightweight { name, target } => target@,
        TagRef::Annotated { name, target } => target@,
    }
}

/// The abstract value of a version tag.
pub struct VersionTagV {
    pub version: Version,
    pub commit_oid: Seq<char>,
}

/// A version tag: the version parsed from the tag name and the hash of the
/// commit the tag points at.
#[derive(Debug)]
pub struct VersionTag {
    pub version: Version,
    pub commit_oid: String,
}

impl View for VersionTag {
    type V = VersionTagV;

    open spec fn view(&self) -> VersionTagV {
        VersionTagV { version: self.version, commit_oid: self.commit_oid@ }
    }
}

impl Clone for VersionTag {
    fn clone(&self) -> (r: VersionTag)
        ensures
            r@ == self@,
    {
        VersionTag { version: self.version, commit_oid: self.commit_oid.clone() }
    }
}

/// The version tag a tag reference denotes, if its name is a well-formed
/// version tag name whose numbers fit in `u64`.
pub open spec fn tag_of(t: TagRef) -> Option<VersionTagV> {
    match spec_parse_version(tag_ref_name(t)) {
        Some(v) => Some(VersionTagV { version: v, commit_oid: tag_ref_target(t) }),
        None => None,
    }
}

/// Annotated and lightweight encodings of the same name and target denote
/// the same version tag.
pub proof fn lemma_tag_encoding_irrelevant(name: String, target: String)
    ensures
        tag_of(TagRef::Annotated { name, target }) == tag_of(
            TagRef::Lightweight { name, target },
        ),
{
}

/// The character positions a decomposition pins down.
proof fn lemma_decomposition_chars(s: Seq<char>, m: Seq<char>, n: Seq<char>, p: Seq<char>)
    requires
        tag_decomposition(s, m, n, p),
    ensures
        s.len() == 3 + m.len() + n.len() + p.len(),
        s[0] == 'v',
        forall|i: int| 0 <= i < m.len() ==> s[1 + i] == m[i],
        s[(1 + m.len()) as int] == '.',
        forall|i: int| 0 <= i < n.len() ==> s[(2 + m.len() + i) as int] == n[i],
        s[(2 + m.len() + n.len()) as int] == '.',
        forall|i: int| 0 <= i < p.len() ==> s[(3 + m.len() + n.len() + i) as int] == p[i],
{
    assert(s == seq!['v'] + m + seq!['.'] + n + seq!['.'] + p);
    assert forall|i: int| 0 <= i < m.len() implies s[1 + i] == m[i] by {
        assert(s[1 + i] == (seq!['v'] + m)[1 + i]);
    }
    assert forall|i: int| 0 <= i < n.len() implies s[(2 + m.len() + i) as int] == n[i] by {
        assert(s[(2 + m.len() + i) as int] == (seq!['v'] + m + seq!['.'] + n)[(2 + m.len() + i) as int]);
    }
}

/// A maximal digit run that starts where a decomposition segment starts
/// stops exactly at the segment's end.
proof fn lemma_scan_stops_at(s: Seq<char>, base: int, seglen: int, i: int)
    requires
        0 <= base,
        base + seglen <= s.len(),
        seglen > 0,
        forall|j: int| base <= j < base + seglen ==> is_digit(#[trigger] s[j]),
        base + seglen < s.len() ==> !is_digit(s[base + seglen]),
        base <= i <= s.len(),
        forall|j: int| base <= j < i ==> is_digit(#[trigger] s[j]),
        i == s.len() || !is_digit(s[i]),
    ensures
        i == base + seglen,
{
    if i < base + seglen {
        assert(is_digit(s[i]));
        assert(false);
    }
    if i > base + seglen {
        assert(is_digit(s[base + seglen]));
        assert(false);
    }
}

/// A tag name decomposes in only one way.
proof fn lemma_decomposition_unique(
    s: Seq<char>,
    m1: Seq<char>,
    n1: Seq<char>,
    p1: Seq<char>,
    m2: Seq<char>,
    n2: Seq<char>,
    p2: Seq<char>,
)
    requires
        tag_decomposition(s, m1, n1, p1),
        tag_decomposition(s, m2, n2, p2),
    ensures
        m1 == m2,
        n1 == n2,
        p1 == p2,
{
    lemma_decomposition_chars(s, m1, n1, p1);
    lemma_decomposition_chars(s, m2, n2, p2);
    assert(!is_digit('.'));
    if m1.len() < m2.len() {
        assert(s[(1 + m1.len()) as int] == '.');
        assert(s[(1 + m1.len()) as int] == m2[m1.len() as int]);
        assert(is_digit(m2[m1.len() as int]));
        assert(false);
    }
    if m2.len() < m1.len() {
        assert(s[(1 + m2.len()) as int] == '.');
        assert(s[(1 + m2.len()) as int] == m1[m2.len() as int]);
        assert(false);
    }
    assert(m1 =~= m2);
    if n1.len() < n2.len() {
        assert(s[(2 + m1.len() + n1.len()) as int] == '.');
        assert(s[(2 + m2.len() + n1.len()) as int] == n2[n1.len() as int]);
        assert(false);
    }
    if n2.len() < n1.len() {
        assert(s[(2 + m2.len() + n2.len()) as int] == '.');
        assert(s[(2 + m1.len() + n2.len()) as int] == n1[n2.len() as int]);
        assert(false);
    }
    assert(n1 =~= n2);
    assert(p1.len() == p2.len());
    assert forall|i: int| 0 <= i < p1.len() implies p1[i] == p2[i] by {
        assert(p1[i] == s[(3 + m1.len() + n1.len() + i) as int]);
        assert(p2[i] == s[(3 + m2.len() + n2.len() + i) as int]);
    }
    assert(p1 =~= p2);
}

/// Whether `c` is a decimal digit.
fn digit_check(c: char) -> (b: bool)
    ensures
        b == is_digit(c),
{
    let u = c as u32;
    48 <= u && u <= 57
}

/// The end of the digit run of `s` that starts at `start`.
fn scan_digits(s: &str, s_len: usize, start: usize) -> (end: usize)
    requires
        s_len == s@.len(),
        start <= s_len,
    ensures
        start <= end <= s_len,
        forall|i: int| start <= i < end ==> is_digit(#[trigger] s@[i]),
        end < s_len ==> !is_digit(s@[end as int]),
{
    let mut end = start;
    while end < s_len && digit_check(s.get_char(end))
        invariant
            s_len == s@.len(),
            start <= end <= s_len,
            forall|i: int| start <= i < end ==> is_digit(#[trigger] s@[i]),
        decreases s_len - end,
    {
        end += 1;
    }
    end
}

/// The two dot positions of a well-formed tag name, or `None` when the name
/// does not match the grammar.
fn scan_structure(s: &str) -> (r: Option<(usize, usize)>)
    ensures
        match r {
            Some(dots) => {
                &&& 1 < dots.0 && dots.0 + 1 < dots.1 && dots.1 + 1 < s@.len()
                &&& tag_decomposition(
                    s@,
                    s@.subrange(1, dots.0 as int),
                    s@.subrange(dots.0 + 1, dots.1 as int),
                    s@.subrange(dots.1 + 1, s@.len() as int),
                )
            },
            None => !is_version_tag_name(s@),
        },
{
    let s_len = s.unicode_len();
    proof {
        if is_version_tag_name(s@) {
            let (m, n, p) = choose|m: Seq<char>, n: Seq<char>, p: Seq<char>|
                tag_decomposition(s@, m, n, p);
            lemma_decomposition_chars(s@, m, n, p);
        }
    }
    if s_len < 6 || s.get_char(0) != 'v' {
        return None;
    }
    let i1 = scan_digits(s, s_len, 1);
    proof {
        if is_version_tag_name(s@) {
            let (m, n, p) = choose|m: Seq<char>, n: Seq<char>, p: Seq<char>|
                tag_decomposition(s@, m, n, p);
            lemma_decomposition_chars(s@, m, n, p);
            assert(!is_digit('.'));
            lemma_scan_stops_at(s@, 1, m.len() as int, i1 as int);
        }
    }
    if i1 == 1 || i1 >= s_len || s.get_char(i1) != '.' {
        return None;
    }
    let i2 = scan_digits(s, s_len, i1 + 1);
    proof {
        if is_version_tag_name(s@) {
            let (m, n, p) = choose|m: Seq<char>, n: Seq<char>, p: Seq<char>|
                tag_decomposition(s@, m, n, p);
            lemma_decomposition_chars(s@, m, n, p);
            assert(!is_digit('.'));
            lemma_scan_stops_at(s@, 1, m.len() as int, i1 as int);
            lemma_scan_stops_at(s@, (2 + m.len()) as int, n.len() as int, i2 as int);
        }
    }
    if i2 == i1 + 1 || i2 >= s_len || s.get_char(i2) != '.' {
        return None;
    }
    let i3 = scan_digits(s, s_len, i2 + 1);
    proof {
        if is_version_tag_name(s@) {
            let (m, n, p) = choose|m: Seq<char>, n: Seq<char>, p: Seq<char>|
                tag_decomposition(s@, m, n, p);
            lemma_decomposition_chars(s@, m, n, p);
            assert(!is_digit('.'));
            lemma_scan_stops_at(s@, 1, m.len() as int, i1 as int);
            lemma_scan_stops_at(s@, (2 + m.len()) as int, n.len() as int, i2 as int);
            lemma_scan_stops_at(s@, (3 + m.len() + n.len()) as int, p.len() as int, i3 as int);
        }
    }
    if i3 != s_len || i3 == i2 + 1 {
        return None;
    }
    proof {
        let m = s@.subrange(1, i1 as int);
        let n = s@.subrange(i1 + 1, i2 as int);
        let p = s@.subrange(i2 + 1, s@.len() as int);
        assert(s@ =~= seq!['v'] + m + seq!['.'] + n + seq!['.'] + p);
        assert(tag_decomposition(s@, m, n, p));
    }
    Some((i1, i2))
}

/// The value of a longer digit run is at least the value of its prefix.
proof fn lemma_digits_val_prefix(t: Seq<char>, k: int)
    requires
        0 <= k <= t.len(),
    ensures
        digits_val(t) >= digits_val(t.take(k)),
    decreases t.len() - k,
{
    if k == t.len() {
        assert(t.take(k) =~= t);
    } else {
        lemma_digits_val_prefix(t, k + 1);
        assert(t.take(k + 1).drop_last() =~= t.take(k));
        assert(digits_val(t.take(k + 1)) == digits_val(t.take(k)) * 10 + digit_val(t[k]));
    }
}

/// The number a digit run of `s` denotes, or `None` when it exceeds `u64`.
fn digits_value(s: &str, s_len: usize, start: usize, end: usize) -> (r: Option<u64>)
    requires
        s_len == s@.len(),
        0 <= start <= end <= s_len,
        forall|i: int| start <= i < end ==> is_digit(#[trigger] s@[i]),
    ensures
        match r {
            Some(v) => v == digits_val(s@.subrange(start as int, end as int)),
            None => digits_val(s@.subrange(start as int, end as int)) > u64::MAX,
        },
{
    let ghost seg = s@.subrange(start as int, end as int);
    let mut acc: u64 = 0;
    let mut i = start;
    proof {
        assert(seg.take(0) =~= Seq::<char>::empty());
    }
    while i < end
        invariant
            s_len == s@.len(),
            start <= i <= end <= s_len,
            forall|j: int| start <= j < end ==> is_digit(#[trigger] s@[j]),
            seg == s@.subrange(start as int, end as int),
            acc == digits_val(seg.take(i - start)),
        decreases end - i,
    {
        let c = s.get_char(i);
        proof {
            assert(s@[i as int] == seg[i - start]);
            assert(seg.take(i - start + 1).drop_last() =~= seg.take(i - start));
            assert(digits_val(seg.take(i - start + 1)) == digits_val(seg.take(i - start)) * 10
                + digit_val(seg[i - start]));
        }
        let d = (c as u32 - 48) as u64;
        let shifted = match acc.checked_mul(10) {
            Some(v) => v,
            None => {
                proof {
                    lemma_digits_val_prefix(seg, i - start + 1);
                }
                return None;
            },
        };
        acc = match shifted.checked_add(d) {
            Some(v) => v,
            None => {
                proof {
                    lemma_digits_val_prefix(seg, i - start + 1);
                }
                return None;
            },
        };
        i += 1;
    }
    proof {
        assert(seg.take(end - start) =~= seg);
    }
    Some(acc)
}

/// Whether a tag name matches the version grammar `v<major>.<minor>.<patch>`.
pub fn is_valid_version_tag(tag_name: &str) -> (b: bool)
    ensures
        b == is_version_tag_name(tag_name@),
{
    let r = scan_structure(tag_name);
    proof {
        if r is Some {
            let dots = r->Some_0;
            assert(tag_decomposition(
                tag_name@,
                tag_name@.subrange(1, dots.0 as int),
                tag_name@.subrange(dots.0 + 1, dots.1 as int),
                tag_name@.subrange(dots.1 + 1, tag_name@.len() as int),
            ));
        }
    }
    r.is_some()
}

/// Parses a tag name, exactly as `spec_parse_version` describes: the
/// version for a well-formed name whose numbers fit in `u64`, `None`
/// otherwise.
pub fn parse_version_tag(tag_name: &str) -> (r: Option<Version>)
    ensures
        r == spec_parse_version(tag_name@),
{
    let s_len = tag_name.unicode_len();
    let dots = match scan_structure(tag_name) {
        Some(d) => d,
        None => {
            return None;
        },
    };
    let (i1, i2) = dots;
    let ghost m = tag_name@.subrange(1, i1 as int);
    let ghost n = tag_name@.subrange(i1 + 1, i2 as int);
    let ghost p = tag_name@.subrange(i2 + 1, tag_name@.len() as int);
    proof {
        assert(tag_decomposition(tag_name@, m, n, p));
        assert forall|i: int| 1 <= i < i1 implies is_digit(#[trigger] tag_name@[i]) by {
            assert(tag_name@[i] == m[i - 1]);
        }
        assert forall|i: int| i1 + 1 <= i < i2 implies is_digit(#[trigger] tag_name@[i]) by {
            assert(tag_name@[i] == n[i - i1 - 1]);
        }
        assert forall|i: int| i2 + 1 <= i < s_len implies is_digit(#[trigger] tag_name@[i]) by {
            assert(tag_name@[i] == p[i - i2 - 1]);
        }
    }
    let major = match digits_value(tag_name, s_len, 1, i1) {
        Some(v) => v,
        None => {
            proof {
                assert(!version_fits(tag_name@));
            }
            return None;
        },
    };
    let minor = match digits_value(tag_name, s_len, i1 + 1, i2) {
        Some(v) => v,
        None => {
            proof {
                assert(!version_fits(tag_name@));
            }
            return None;
        },
    };
    let patch = match digits_value(tag_name, s_len, i2 + 1, s_len) {
        Some(v) => v,
        None => {
            proof {
                assert(!version_fits(tag_name@));
            }
            return None;
        },
    };
    proof {
        assert forall|m2: Seq<char>, n2: Seq<char>, p2: Seq<char>|
            #[trigger] tag_decomposition(tag_name@, m2, n2, p2) implies digits_val(m2)
            <= u64::MAX && digits_val(n2) <= u64::MAX && digits_val(p2) <= u64::MAX by {
            lemma_decomposition_unique(tag_name@, m, n, p, m2, n2, p2);
        }
        assert(version_fits(tag_name@));
        let (mc, nc, pc) = choose|mc: Seq<char>, nc: Seq<char>, pc: Seq<char>|
            tag_decomposition(tag_name@, mc, nc, pc);
        lemma_decomposition_unique(tag_name@, m, n, p, mc, nc, pc);
    }
    Some(Version { major, minor, patch })
}

/// Whether `a` is strictly below `b` in version order.
pub fn version_less(a: &Version, b: &Version) -> (r: bool)
    ensures
        r == version_lt(*a, *b),
{
    if a.major != b.major {
        a.major < b.major
    } else if a.minor != b.minor {
        a.minor < b.minor
    } else {
        a.patch < b.patch
    }
}

/// Resolves the latest version tag among a set of tag references: the one
/// whose name parses to the greatest version, or `None` when no reference
/// carries a well-formed version tag name. Malformed names are skipped, not
/// errors.
pub fn latest_version_tag(tag_refs: &Vec<TagRef>) -> (r: Option<VersionTag>)
    ensures
        match r {
            Some(vt) => {
                &&& exists|i: int|
                    0 <= i < tag_refs@.len() && tag_of(#[trigger] tag_refs@[i]) == Some(vt@)
                &&& forall|i: int|
                    0 <= i < tag_refs@.len() ==> match tag_of(#[trigger] tag_refs@[i]) {
                        Some(t) => version_le(t.version, vt@.version),
                        None => true,
                    }
            },
            None => forall|i: int|
                0 <= i < tag_refs@.len() ==> tag_of(#[trigger] tag_refs@[i]) is None,
        },
{
    let mut best: Option<VersionTag> = None;
    let mut i: usize = 0;
    while i < tag_refs.len()
        invariant
            0 <= i <= tag_refs@.len(),
            match best {
                Some(vt) => {
                    &&& exists|j: int| 0 <= j < i && tag_of(#[trigger] tag_refs@[j]) == Some(vt@)
                    &&& forall|j: int|
                        0 <= j < i ==> match tag_of(#[trigger] tag_refs@[j]) {
                            Some(t) => version_le(t.version, vt@.version),
                            None => true,
                        }
                },
                None => forall|j: int| 0 <= j < i ==> tag_of(#[trigger] tag_refs@[j]) is None,
            },
        decreases tag_refs@.len() - i,
    {
        let parsed: Option<Version> = match &tag_refs[i] {
            TagRef::Lightweight { name, target } => parse_version_tag(name.as_str()),
            TagRef::Annotated { name, target } => parse_version_tag(name.as_str()),
        };
        if let Some(ver) = parsed {
            let target = match &tag_refs[i] {
                TagRef::Lightweight { name, target } => target.clone(),
                TagRef::Annotated { name, target } => target.clone(),
            };
            proof {
                assert(tag_of(tag_refs@[i as int]) == Some(
                    VersionTagV { version: ver, commit_oid: target@ },
                ));
            }
            let replace = match &best {
                None => true,
                Some(b) => version_less(&b.version, &ver),
            };
            if replace {
                best = Some(VersionTag { version: ver, commit_oid: target });
                proof {
                    assert(tag_of(tag_refs@[i as int]) == Some(best->Some_0@));
                }
            }
        }
        i += 1;
    }
    best
}

} // verus!
