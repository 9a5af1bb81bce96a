//! The change set of a repository: commits classified into the four
//! severity buckets, and the release decision they aggregate to.
use vstd::prelude::*;

use crate::commit::Commit;
use crate::commit::CommitInterface;
use crate::commit::CommitV;
use crate::commit::GitmojiCommit;
use crate::commit::GitmojiCommitV;
use crate::commit::gitmoji_commit_display;
use crate::commit::parsed_commit;
use crate::gitmoji::Gitmoji;
use crate::gitmoji::Severity;
use crate::gitmoji::lemma_catalogue_member_severity;
use crate::gitmoji::lemma_intention_in_catalogue;
use crate::gitmoji::catalogue;
use crate::gitmoji::major_intentions;
use crate::gitmoji::major_list;
use crate::gitmoji::minor_intentions;
use crate::gitmoji::minor_list;
use crate::gitmoji::other_intentions;
use crate::gitmoji::other_list;
use crate::gitmoji::patch_intentions;
use crate::gitmoji::patch_list;
use crate::gitmoji::severity_of;
use crate::repo::RepositoryError;
use crate::repo::RepositoryExtension;

verus! {

/// The abstract values of a run of gitmoji commits.
pub open spec fn gc_views(s: Seq<GitmojiCommit>) -> Seq<GitmojiCommitV> {
    s.map_values(|c: GitmojiCommit| c@)
}

/// The commits of `s` that classify, in order, as classified values.
pub open spec fn parsed_all(s: Seq<CommitV>) -> Seq<GitmojiCommitV>
    decreases s.len(),
{
    if s.len() == 0 {
        Seq::empty()
    } else {
        parsed_all(s.drop_last()) + (match parsed_commit(s.last()) {
            Some(g) => seq![g],
            None => Seq::empty(),
        })
    }
}

/// The filter that keeps a commit-like value whose intention is in
/// `intentions`.
pub open spec fn intention_filter<U: CommitInterface>(intentions: Seq<Gitmoji>) -> spec_fn(U) -> bool {
    |u: U| intentions.contains(u.intention_spec())
}

/// The same filter at the level of abstract values.
pub open spec fn view_list_filter(intentions: Seq<Gitmoji>) -> spec_fn(GitmojiCommitV) -> bool {
    |m: GitmojiCommitV| intentions.contains(m.intention)
}

/// The filter that keeps a classified value of severity `sev`.
pub open spec fn severity_filter(sev: Severity) -> spec_fn(GitmojiCommitV) -> bool {
    |m: GitmojiCommitV| severity_of(m.intention) == sev
}

/// The bucket of severity `sev`: the classified commits of `s` whose
/// intention has that severity, in traversal order.
pub open spec fn bucket_of(s: Seq<CommitV>, sev: Severity) -> Seq<GitmojiCommitV> {
    parsed_all(s).filter(severity_filter(sev))
}

/// The abstract value of a change set: the four buckets.
pub struct ChangesV {
    pub major: Seq<GitmojiCommitV>,
    pub minor: Seq<GitmojiCommitV>,
    pub patch: Seq<GitmojiCommitV>,
    pub other: Seq<GitmojiCommitV>,
}

/// The change set a commit list gives rise to: each commit classified and
/// placed in the bucket of its intention's severity.
pub open spec fn buckets_of(s: Seq<CommitV>) -> ChangesV {
    ChangesV {
        major: bucket_of(s, Severity::Major),
        minor: bucket_of(s, Severity::Minor),
        patch: bucket_of(s, Severity::Patch),
        other: bucket_of(s, Severity::Other),
    }
}

/// Bucket equality as sets: the same commits regardless of order.
pub open spec fn set_equal(a: Seq<GitmojiCommitV>, b: Seq<GitmojiCommitV>) -> bool {
    a.to_set() == b.to_set()
}

/// The changes found in a repository, sorted into the four severity
/// buckets by commit intention.
#[derive(Debug)]
pub struct Changes {
    pub major: Vec<GitmojiCommit>,
    pub minor: Vec<GitmojiCommit>,
    pub patch: Vec<GitmojiCommit>,
    pub other: Vec<GitmojiCommit>,
}

impl View for Changes {
    type V = ChangesV;

    open spec fn view(&self) -> ChangesV {
        ChangesV {
            major: gc_views(self.major@),
            minor: gc_views(self.minor@),
            patch: gc_views(self.patch@),
            other: gc_views(self.other@),
        }
    }
}

/// The recommended action for the semantic version.
#[derive(Clone, Copy, Debug, PartialEq, Eq, Structural)]
pub enum SemanticVersionAction {
    IncrementMajor,
    IncrementMinor,
    IncrementPatch,
    Keep,
}

/// The decision rule: the highest-severity non-empty bucket wins, and the
/// `other` bucket never takes part.
pub open spec fn decide_spec(c: ChangesV) -> SemanticVersionAction {
    if c.major.len() > 0 {
        SemanticVersionAction::IncrementMajor
    } else if c.minor.len() > 0 {
        SemanticVersionAction::IncrementMinor
    } else if c.patch.len() > 0 {
        SemanticVersionAction::IncrementPatch
    } else {
        SemanticVersionAction::Keep
    }
}

impl SemanticVersionAction {
    /// The fixed phrase each action renders to.
    pub fn description(&self) -> (r: &'static str)
        ensures
            *self == SemanticVersionAction::IncrementMajor ==> r@ == "increment major version"@,
            *self == SemanticVersionAction::IncrementMinor ==> r@ == "increment minor version"@,
            *self == SemanticVersionAction::IncrementPatch ==> r@ == "increment patch version"@,
            *self == SemanticVersionAction::Keep ==> r@ == "keep version"@,
    {
        match self {
            SemanticVersionAction::IncrementMajor => "increment major version",
            SemanticVersionAction::IncrementMinor => "increment minor version",
            SemanticVersionAction::IncrementPatch => "increment patch version",
            SemanticVersionAction::Keep => "keep version",
        }
    }
}

/// Whether `g` occurs in `v`.
fn contains_gitmoji(v: &Vec<Gitmoji>, g: Gitmoji) -> (b: bool)
    ensures
        b == v@.contains(g),
{
    let mut i: usize = 0;
    while i < v.len()
        invariant
            0 <= i <= v@.len(),
            forall|j: int| 0 <= j < i ==> v@[j] != g,
        decreases v@.len() - i,
    {
        if v[i] == g {
            return true;
        }
        i += 1;
    }
    false
}

/// Keeps the commits whose intention is one of `intentions`, in order.
pub fn get_commits_with_intention<U: CommitInterface>(commits: Vec<U>, intentions: Vec<Gitmoji>) -> (r:
    Vec<U>)
    ensures
        r@ == commits@.filter(intention_filter::<U>(intentions@)),
{
    let ghost orig = commits@;
    let mut rest = commits;
    let mut out: Vec<U> = Vec::new();
    let ghost mut done: Seq<U> = Seq::empty();
    proof {
        reveal(Seq::filter);
        assert(done + rest@ =~= orig);
        assert(out@ =~= done.filter(intention_filter::<U>(intentions@)));
    }
    while rest.len() > 0
        invariant
            orig == done + rest@,
            out@ == done.filter(intention_filter::<U>(intentions@)),
        decreases rest@.len(),
    {
        let ghost old_done = done;
        let ghost old_rest = rest@;
        let u = rest.remove(0);
        let keep = contains_gitmoji(&intentions, *u.intention());
        proof {
            done = done.push(u);
            reveal(Seq::filter);
            assert(done.drop_last() =~= old_done);
            assert(done.last() == u);
            assert(old_rest[0] == u);
            assert(old_done + old_rest =~= done + rest@);
            assert(intention_filter::<U>(intentions@)(u) == intentions@.contains(
                u.intention_spec(),
            ));
        }
        if keep {
            out.push(u);
        }
    }
    proof {
        assert(done =~= orig);
    }
    out
}

/// Copies of the gitmoji commits of `v`, with the same abstract values.
fn clone_commits(v: &Vec<GitmojiCommit>) -> (r: Vec<GitmojiCommit>)
    ensures
        gc_views(r@) == gc_views(v@),
{
    let mut r: Vec<GitmojiCommit> = Vec::new();
    let mut i: usize = 0;
    proof {
        assert(gc_views(r@) =~= gc_views(v@).take(0));
    }
    while i < v.len()
        invariant
            0 <= i <= v@.len(),
            gc_views(r@) == gc_views(v@).take(i as int),
        decreases v@.len() - i,
    {
        let ghost old_r = r@;
        r.push(v[i].clone());
        proof {
            assert(gc_views(r@) =~= gc_views(old_r).push(v@[i as int]@));
            assert(gc_views(v@).take(i + 1) =~= gc_views(v@).take(i as int).push(
                gc_views(v@)[i as int],
            ));
        }
        i += 1;
    }
    proof {
        assert(gc_views(v@).take(v@.len() as int) =~= gc_views(v@));
    }
    r
}

/// Filtering by intention list commutes with taking abstract values.
proof fn lemma_filter_views(s: Seq<GitmojiCommit>, intentions: Seq<Gitmoji>)
    ensures
        gc_views(s.filter(intention_filter::<GitmojiCommit>(intentions))) == gc_views(s).filter(
            view_list_filter(intentions),
        ),
    decreases s.len(),
{
    reveal(Seq::filter);
    if s.len() == 0 {
        assert(gc_views(s) =~= Seq::<GitmojiCommitV>::empty());
        assert(s.filter(intention_filter::<GitmojiCommit>(intentions)) =~= s);
    } else {
        let front = s.drop_last();
        lemma_filter_views(front, intentions);
        let u = s.last();
        assert(gc_views(s).drop_last() =~= gc_views(front));
        assert(gc_views(s).last() == u@);
        assert(gc_views(s).len() == s.len());
        assert(intention_filter::<GitmojiCommit>(intentions)(u) == intentions.contains(
            u.intention_spec(),
        ));
        assert(view_list_filter(intentions)(u@) == intentions.contains(u@.intention));
        assert(u.intention_spec() == u@.intention);
        if intentions.contains(u@.intention) {
            assert(s.filter(intention_filter::<GitmojiCommit>(intentions)) == front.filter(
                intention_filter::<GitmojiCommit>(intentions),
            ).push(u));
            assert(gc_views(s).filter(view_list_filter(intentions)) == gc_views(front).filter(
                view_list_filter(intentions),
            ).push(u@));
            assert(gc_views(
                front.filter(intention_filter::<GitmojiCommit>(intentions)).push(u),
            ) =~= gc_views(front.filter(intention_filter::<GitmojiCommit>(intentions))).push(u@));
        } else {
            assert(s.filter(intention_filter::<GitmojiCommit>(intentions)) == front.filter(
                intention_filter::<GitmojiCommit>(intentions),
            ));
            assert(gc_views(s).filter(view_list_filter(intentions)) == gc_views(front).filter(
                view_list_filter(intentions),
            ));
        }
    }
}

/// Filters with pointwise-equivalent predicates agree.
proof fn lemma_filter_congruence(
    s: Seq<GitmojiCommitV>,
    p: spec_fn(GitmojiCommitV) -> bool,
    q: spec_fn(GitmojiCommitV) -> bool,
)
    requires
        forall|i: int| 0 <= i < s.len() ==> (p(#[trigger] s[i]) <==> q(s[i])),
    ensures
        s.filter(p) == s.filter(q),
    decreases s.len(),
{
    reveal(Seq::filter);
    if s.len() > 0 {
        let front = s.drop_last();
        assert(forall|i: int| 0 <= i < front.len() ==> front[i] == s[i]);
        lemma_filter_congruence(front, p, q);
        assert(s.last() == s[s.len() - 1]);
    }
}

/// Every classified commit's intention is a catalogue member.
proof fn lemma_parsed_intentions(s: Seq<CommitV>)
    ensures
        forall|i: int|
            0 <= i < parsed_all(s).len() ==> catalogue().contains(
                (#[trigger] parsed_all(s)[i]).intention,
            ),
    decreases s.len(),
{
    if s.len() > 0 {
        let front = s.drop_last();
        lemma_parsed_intentions(front);
        lemma_intention_in_catalogue(s.last().message);
        assert forall|i: int| 0 <= i < parsed_all(s).len() implies catalogue().contains(
            (#[trigger] parsed_all(s)[i]).intention,
        ) by {
            if i < parsed_all(front).len() {
                assert(parsed_all(s)[i] == parsed_all(front)[i]);
            } else {
                assert(parsed_commit(s.last()) is Some);
                assert(parsed_all(s)[i] == parsed_commit(s.last())->Some_0);
            }
        }
    }
}

/// Members of a filtered run are members of the run.
proof fn lemma_filter_subset(s: Seq<GitmojiCommitV>, p: spec_fn(GitmojiCommitV) -> bool)
    ensures
        forall|g: GitmojiCommitV| #[trigger] s.filter(p).contains(g) ==> s.contains(g),
    decreases s.len(),
{
    reveal(Seq::filter);
    if s.len() > 0 {
        let front = s.drop_last();
        lemma_filter_subset(front, p);
        assert forall|g: GitmojiCommitV| #[trigger] s.filter(p).contains(g) implies s.contains(
            g,
        ) by {
            if p(s.last()) {
                assert(s.filter(p) == front.filter(p).push(s.last()));
                if g == s.last() {
                    assert(s[s.len() - 1] == g);
                } else {
                    let k = choose|k: int|
                        0 <= k < s.filter(p).len() && s.filter(p)[k] == g;
                    assert(front.filter(p)[k] == g);
                    assert(front.filter(p).contains(g));
                    let j = choose|j: int| 0 <= j < front.len() && front[j] == g;
                    assert(s[j] == g);
                }
            } else {
                assert(s.filter(p) == front.filter(p));
                assert(front.contains(g));
                let j = choose|j: int| 0 <= j < front.len() && front[j] == g;
                assert(s[j] == g);
            }
        }
    }
}

impl Changes {
    /// Classifies a commit list and sorts it into the four buckets,
    /// exactly as `buckets_of` describes: a commit lands in the bucket of
    /// its intention's severity, and a commit whose message holds no
    /// catalogue symbol lands nowhere.
    pub fn from_commits(commits: Vec<Commit>) -> (c: Changes)
        ensures
            c@ == buckets_of(commits@.map_values(|x: Commit| x@)),
    {
        let ghost sv = commits@.map_values(|x: Commit| x@);
        let mut unsorted: Vec<GitmojiCommit> = Vec::new();
        let mut i: usize = 0;
        proof {
            assert(sv.take(0) =~= Seq::<CommitV>::empty());
            assert(gc_views(unsorted@) =~= parsed_all(sv.take(0)));
        }
        while i < commits.len()
            invariant
                sv == commits@.map_values(|x: Commit| x@),
                0 <= i <= commits@.len(),
                gc_views(unsorted@) == parsed_all(sv.take(i as int)),
            decreases commits@.len() - i,
        {
            let ghost old_un = unsorted@;
            let parsed = GitmojiCommit::try_from(&commits[i]);
            proof {
                assert(sv.take(i + 1).drop_last() =~= sv.take(i as int));
                assert(sv.take(i + 1).last() == sv[i as int]);
                assert(sv[i as int] == commits@[i as int]@);
            }
            match parsed {
                Ok(gc) => {
                    proof {
                        assert(parsed_commit(sv[i as int]) == Some(gc@));
                    }
                    unsorted.push(gc);
                    proof {
                        assert(gc_views(unsorted@) =~= gc_views(old_un).push(
                            parsed_commit(sv[i as int])->Some_0,
                        ));
                        assert(parsed_all(sv.take(i + 1)) =~= parsed_all(sv.take(i as int)).push(
                            parsed_commit(sv[i as int])->Some_0,
                        ));
                    }
                },
                Err(_) => {
                    proof {
                        assert(parsed_commit(sv[i as int]) is None);
                        assert(parsed_all(sv.take(i + 1)) =~= parsed_all(sv.take(i as int)));
                    }
                },
            }
            i += 1;
        }
        proof {
            assert(sv.take(sv.len() as int) =~= sv);
        }
        let minor_src = clone_commits(&unsorted);
        let patch_src = clone_commits(&unsorted);
        let other_src = clone_commits(&unsorted);
        let ghost pre = unsorted@;
        let ghost minor_pre = minor_src@;
        let ghost patch_pre = patch_src@;
        let ghost other_pre = other_src@;
        let major = get_commits_with_intention(unsorted, major_intentions());
        let minor = get_commits_with_intention(minor_src, minor_intentions());
        let patch = get_commits_with_intention(patch_src, patch_intentions());
        let other = get_commits_with_intention(other_src, other_intentions());
        proof {
            lemma_parsed_intentions(sv);
            lemma_filter_views(pre, major_list());
            lemma_filter_views(minor_pre, minor_list());
            lemma_filter_views(patch_pre, patch_list());
            lemma_filter_views(other_pre, other_list());
            lemma_bucket_agreement(sv, major_list(), Severity::Major);
            lemma_bucket_agreement(sv, minor_list(), Severity::Minor);
            lemma_bucket_agreement(sv, patch_list(), Severity::Patch);
            lemma_bucket_agreement(sv, other_list(), Severity::Other);
        }
        Changes { major, minor, patch, other }
    }

    /// Classifies the commits made since the latest version tag. The tag
    /// and the commits come from the repository capability, about which
    /// nothing is assumed: whatever commits it hands over, the result is
    /// their change set, and its errors propagate unchanged.
    pub fn from_repo<R: RepositoryExtension>(repository: &R) -> (r: Result<Changes, RepositoryError>)
        ensures
            r matches Ok(c) ==> exists|s: Seq<CommitV>| c@ == buckets_of(s),
    {
        let version_tag = match repository.get_latest_version_tag() {
            Ok(v) => v,
            Err(e) => {
                return Err(e);
            },
        };
        let unsorted_commits = match version_tag {
            Some(vt) => {
                match repository.fetch_commits_until(vt.commit_oid.as_str()) {
                    Ok(cs) => cs,
                    Err(e) => {
                        return Err(e);
                    },
                }
            },
            None => {
                match repository.fetch_all_commits() {
                    Ok(cs) => cs,
                    Err(e) => {
                        return Err(e);
                    },
                }
            },
        };
        let ghost w = unsorted_commits@.map_values(|x: Commit| x@);
        let changes = Changes::from_commits(unsorted_commits);
        proof {
            assert(changes@ == buckets_of(w));
        }
        Ok(changes)
    }

    /// The release decision: the highest-severity non-empty bucket wins,
    /// and the `other` bucket never takes part.
    pub fn define_action_for_semantic_version(self) -> (r: SemanticVersionAction)
        ensures
            r == decide_spec(self@),
    {
        if !self.major.is_empty() {
            return SemanticVersionAction::IncrementMajor;
        }
        if !self.minor.is_empty() {
            return SemanticVersionAction::IncrementMinor;
        }
        if !self.patch.is_empty() {
            return SemanticVersionAction::IncrementPatch;
        }
        SemanticVersionAction::Keep
    }
}

/// A bucket built by intention-list filtering is the severity bucket: on
/// classified commits, membership of a severity list and having that
/// severity coincide.
proof fn lemma_bucket_agreement(s: Seq<CommitV>, list: Seq<Gitmoji>, sev: Severity)
    requires
        list == major_list() && sev == Severity::Major || list == minor_list() && sev
            == Severity::Minor || list == patch_list() && sev == Severity::Patch || list
            == other_list() && sev == Severity::Other,
    ensures
        parsed_all(s).filter(view_list_filter(list)) == bucket_of(s, sev),
{
    lemma_parsed_intentions(s);
    let parsed = parsed_all(s);
    assert forall|i: int| 0 <= i < parsed.len() implies (view_list_filter(list)(
        #[trigger] parsed[i],
    ) <==> severity_filter(sev)(parsed[i])) by {
        lemma_catalogue_member_severity(parsed[i].intention);
    }
    lemma_filter_congruence(parsed, view_list_filter(list), severity_filter(sev));
}

/// The four buckets are pairwise disjoint, hold only commits of their own
/// severity, and together hold exactly the classified commits: a commit
/// without a recognised symbol lands in none of them.
pub proof fn lemma_buckets_partition(commits: Seq<CommitV>)
    ensures
        forall|g: GitmojiCommitV| #[trigger]
            buckets_of(commits).major.contains(g) ==> severity_of(g.intention) == Severity::Major,
        forall|g: GitmojiCommitV| #[trigger]
            buckets_of(commits).minor.contains(g) ==> severity_of(g.intention) == Severity::Minor,
        forall|g: GitmojiCommitV| #[trigger]
            buckets_of(commits).patch.contains(g) ==> severity_of(g.intention) == Severity::Patch,
        forall|g: GitmojiCommitV| #[trigger]
            buckets_of(commits).other.contains(g) ==> severity_of(g.intention) == Severity::Other,
        forall|g: GitmojiCommitV|
            parsed_all(commits).contains(g) <==> (buckets_of(commits).major.contains(g)
                || buckets_of(commits).minor.contains(g) || buckets_of(commits).patch.contains(g)
                || buckets_of(commits).other.contains(g)),
        forall|g: GitmojiCommitV|
            #![auto]
            !(buckets_of(commits).major.contains(g) && buckets_of(commits).minor.contains(g)) && !(
            buckets_of(commits).major.contains(g) && buckets_of(commits).patch.contains(g)) && !(
            buckets_of(commits).major.contains(g) && buckets_of(commits).other.contains(g)) && !(
            buckets_of(commits).minor.contains(g) && buckets_of(commits).patch.contains(g)) && !(
            buckets_of(commits).minor.contains(g) && buckets_of(commits).other.contains(g)) && !(
            buckets_of(commits).patch.contains(g) && buckets_of(commits).other.contains(g)),
{
    let parsed = parsed_all(commits);
    broadcast use vstd::seq_lib::group_filter_ensures;

    lemma_filter_subset(parsed, severity_filter(Severity::Major));
    lemma_filter_subset(parsed, severity_filter(Severity::Minor));
    lemma_filter_subset(parsed, severity_filter(Severity::Patch));
    lemma_filter_subset(parsed, severity_filter(Severity::Other));
    assert forall|g: GitmojiCommitV| #[trigger]
        parsed.contains(g) implies (buckets_of(commits).major.contains(g) || buckets_of(
        commits,
    ).minor.contains(g) || buckets_of(commits).patch.contains(g) || buckets_of(
        commits,
    ).other.contains(g)) by {
        let i = choose|i: int| 0 <= i < parsed.len() && parsed[i] == g;
        let sev = severity_of(g.intention);
        if sev == Severity::Major {
            assert(severity_filter(Severity::Major)(parsed[i]));
            assert(parsed.filter(severity_filter(Severity::Major)).contains(parsed[i]));
        } else if sev == Severity::Minor {
            assert(severity_filter(Severity::Minor)(parsed[i]));
            assert(parsed.filter(severity_filter(Severity::Minor)).contains(parsed[i]));
        } else if sev == Severity::Patch {
            assert(severity_filter(Severity::Patch)(parsed[i]));
            assert(parsed.filter(severity_filter(Severity::Patch)).contains(parsed[i]));
        } else {
            assert(severity_filter(Severity::Other)(parsed[i]));
            assert(parsed.filter(severity_filter(Severity::Other)).contains(parsed[i]));
        }
    }
    assert forall|g: GitmojiCommitV| #[trigger]
        buckets_of(commits).major.contains(g) implies severity_of(g.intention)
        == Severity::Major by {
        let b = parsed.filter(severity_filter(Severity::Major));
        let i = choose|i: int| 0 <= i < b.len() && b[i] == g;
        assert(severity_filter(Severity::Major)(b[i]));
    }
    assert forall|g: GitmojiCommitV| #[trigger]
        buckets_of(commits).minor.contains(g) implies severity_of(g.intention)
        == Severity::Minor by {
        let b = parsed.filter(severity_filter(Severity::Minor));
        let i = choose|i: int| 0 <= i < b.len() && b[i] == g;
        assert(severity_filter(Severity::Minor)(b[i]));
    }
    assert forall|g: GitmojiCommitV| #[trigger]
        buckets_of(commits).patch.contains(g) implies severity_of(g.intention)
        == Severity::Patch by {
        let b = parsed.filter(severity_filter(Severity::Patch));
        let i = choose|i: int| 0 <= i < b.len() && b[i] == g;
        assert(severity_filter(Severity::Patch)(b[i]));
    }
    assert forall|g: GitmojiCommitV| #[trigger]
        buckets_of(commits).other.contains(g) implies severity_of(g.intention)
        == Severity::Other by {
        let b = parsed.filter(severity_filter(Severity::Other));
        let i = choose|i: int| 0 <= i < b.len() && b[i] == g;
        assert(severity_filter(Severity::Other)(b[i]));
    }
}

/// Putting one more commit into the major bucket decides a major
/// increment, whatever the other buckets hold.
pub proof fn lemma_decide_monotonic_major(c: ChangesV, extra: GitmojiCommitV)
    ensures
        decide_spec(
            ChangesV { major: c.major.push(extra), minor: c.minor, patch: c.patch, other: c.other },
        ) == SemanticVersionAction::IncrementMajor,
{
}

/// One single major-classified commit outweighs any number of minor or
/// patch commits: the decision on a classified commit list is a major
/// increment exactly when the major bucket is inhabited.
pub proof fn lemma_single_major_decides(commits: Seq<CommitV>)
    ensures
        decide_spec(buckets_of(commits)) == SemanticVersionAction::IncrementMajor <==> bucket_of(
            commits,
            Severity::Major,
        ).len() > 0,
{
}

/// The `other` bucket never influences the decision.
pub proof fn lemma_decide_ignores_other(c: ChangesV, other: Seq<GitmojiCommitV>)
    ensures
        decide_spec(ChangesV { major: c.major, minor: c.minor, patch: c.patch, other }) == decide_spec(c),
{
}

/// Classifying the same commits twice gives bucket-equal change sets and
/// the same action: the pipeline is referentially transparent in the
/// fetched commits.
pub proof fn lemma_pipeline_idempotent(c1: Changes, c2: Changes, commits: Seq<CommitV>)
    requires
        c1@ == buckets_of(commits),
        c2@ == buckets_of(commits),
    ensures
        set_equal(c1@.major, c2@.major),
        set_equal(c1@.minor, c2@.minor),
        set_equal(c1@.patch, c2@.patch),
        set_equal(c1@.other, c2@.other),
        decide_spec(c1@) == decide_spec(c2@),
{
}

/// Whether `x`'s value occurs among the values of `v`.
fn contains_commit(v: &Vec<GitmojiCommit>, x: &GitmojiCommit) -> (b: bool)
    ensures
        b == gc_views(v@).contains(x@),
{
    let mut i: usize = 0;
    while i < v.len()
        invariant
            0 <= i <= v@.len(),
            forall|j: int| 0 <= j < i ==> gc_views(v@)[j] != x@,
        decreases v@.len() - i,
    {
        if &v[i] == x {
            proof {
                assert(gc_views(v@)[i as int] == x@);
            }
            return true;
        }
        proof {
            assert(gc_views(v@)[i as int] == v@[i as int]@);
        }
        i += 1;
    }
    false
}

/// Whether every commit value of `a` occurs in `b`.
fn commits_subset(a: &Vec<GitmojiCommit>, b: &Vec<GitmojiCommit>) -> (r: bool)
    ensures
        r == forall|g: GitmojiCommitV| gc_views(a@).contains(g) ==> gc_views(b@).contains(g),
{
    let mut i: usize = 0;
    while i < a.len()
        invariant
            0 <= i <= a@.len(),
            forall|j: int| 0 <= j < i ==> gc_views(b@).contains(#[trigger] gc_views(a@)[j]),
        decreases a@.len() - i,
    {
        if !contains_commit(b, &a[i]) {
            proof {
                assert(gc_views(a@)[i as int] == a@[i as int]@);
                assert(gc_views(a@).contains(gc_views(a@)[i as int]));
            }
            return false;
        }
        proof {
            assert(gc_views(a@)[i as int] == a@[i as int]@);
        }
        i += 1;
    }
    proof {
        assert forall|g: GitmojiCommitV| gc_views(a@).contains(g) implies gc_views(b@).contains(
            g,
        ) by {
            let j = choose|j: int| 0 <= j < gc_views(a@).len() && gc_views(a@)[j] == g;
        }
    }
    true
}

/// Whether two commit runs hold the same set of values.
fn same_commit_set(a: &Vec<GitmojiCommit>, b: &Vec<GitmojiCommit>) -> (r: bool)
    ensures
        r == set_equal(gc_views(a@), gc_views(b@)),
{
    let forward = commits_subset(a, b);
    let backward = commits_subset(b, a);
    proof {
        broadcast use vstd::seq_lib::group_seq_properties;

        if forward && backward {
            assert(gc_views(a@).to_set() =~= gc_views(b@).to_set());
        } else {
            if gc_views(a@).to_set() == gc_views(b@).to_set() {
                assert forall|g: GitmojiCommitV| gc_views(a@).contains(g) implies gc_views(
                    b@,
                ).contains(g) by {
                    assert(gc_views(a@).to_set().contains(g));
                    assert(gc_views(b@).to_set().contains(g));
                }
                assert forall|g: GitmojiCommitV| gc_views(b@).contains(g) implies gc_views(
                    a@,
                ).contains(g) by {
                    assert(gc_views(b@).to_set().contains(g));
                    assert(gc_views(a@).to_set().contains(g));
                }
                assert(false);
            }
        }
    }
    forward && backward
}

impl PartialEq for Changes {
    /// Change sets are equal when each bucket holds the same commits,
    /// regardless of order.
    fn eq(&self, other: &Changes) -> (r: bool) {
        same_commit_set(&self.major, &other.major) && same_commit_set(&self.minor, &other.minor)
            && same_commit_set(&self.patch, &other.patch) && same_commit_set(
            &self.other,
            &other.other,
        )
    }
}

impl vstd::std_specs::cmp::PartialEqSpecImpl for Changes {
    open spec fn obeys_eq_spec() -> bool {
        true
    }

    open spec fn eq_spec(&self, other: &Changes) -> bool {
        &&& set_equal(self@.major, other@.major)
        &&& set_equal(self@.minor, other@.minor)
        &&& set_equal(self@.patch, other@.patch)
        &&& set_equal(self@.other, other@.other)
    }
}

/// Each commit shown on its own line, as the report prints it.
pub fn convert_to_string_vector(commits: Vec<GitmojiCommit>) -> (r: Vec<String>)
    ensures
        r@.len() == commits@.len(),
        forall|i: int|
            0 <= i < r@.len() ==> (#[trigger] r@[i])@ == gitmoji_commit_display(commits@[i]@)
                + "\n"@,
{
    let mut r: Vec<String> = Vec::new();
    let mut i: usize = 0;
    while i < commits.len()
        invariant
            0 <= i <= commits@.len(),
            r@.len() == i,
            forall|j: int|
                0 <= j < i ==> (#[trigger] r@[j])@ == gitmoji_commit_display(commits@[j]@)
                    + "\n"@,
        decreases commits@.len() - i,
    {
        let mut line = commits[i].display_string();
        line.append("\n");
        r.push(line);
        i += 1;
    }
    r
}

/// A bucket's report body: each commit's line, the lines separated by tabs.
pub open spec fn bucket_lines(s: Seq<GitmojiCommitV>) -> Seq<char>
    decreases s.len(),
{
    if s.len() == 0 {
        Seq::empty()
    } else if s.len() == 1 {
        gitmoji_commit_display(s[0]) + "\n"@
    } else {
        bucket_lines(s.drop_last()) + "\t"@ + gitmoji_commit_display(s.last()) + "\n"@
    }
}

/// The whole report: the four buckets with their headings.
pub open spec fn changes_display(c: ChangesV) -> Seq<char> {
    "major:\n\t"@ + bucket_lines(c.major) + "\nminor:\n\t"@ + bucket_lines(c.minor)
        + "\npatch:\n\t"@ + bucket_lines(c.patch) + "\nother:\n\t"@ + bucket_lines(c.other)
}

/// One bucket's report body.
fn bucket_report(commits: &Vec<GitmojiCommit>) -> (r: String)
    ensures
        r@ == bucket_lines(gc_views(commits@)),
{
    let mut out = String::new();
    let mut i: usize = 0;
    proof {
        assert(gc_views(commits@).take(0) =~= Seq::<GitmojiCommitV>::empty());
    }
    while i < commits.len()
        invariant
            0 <= i <= commits@.len(),
            out@ == bucket_lines(gc_views(commits@).take(i as int)),
        decreases commits@.len() - i,
    {
        if i > 0 {
            out.append("\t");
        }
        let line = commits[i].display_string();
        out.append(line.as_str());
        out.append("\n");
        proof {
            let views = gc_views(commits@);
            assert(views.take(i + 1).drop_last() =~= views.take(i as int));
            assert(views.take(i + 1).last() == views[i as int]);
            assert(views[i as int] == commits@[i as int]@);
            assert(out@ =~= bucket_lines(views.take(i + 1)));
        }
        i += 1;
    }
    proof {
        assert(gc_views(commits@).take(commits@.len() as int) =~= gc_views(commits@));
    }
    out
}

impl Changes {
    /// The report of the change set, bucket by bucket, as `changes_display`
    /// describes.
    pub fn display_string(&self) -> (r: String)
        ensures
            r@ == changes_display(self@),
    {
        let mut out = String::from_str("major:\n\t");
        let major = bucket_report(&self.major);
        out.append(major.as_str());
        out.append("\nminor:\n\t");
        let minor = bucket_report(&self.minor);
        out.append(minor.as_str());
        out.append("\npatch:\n\t");
        let patch = bucket_report(&self.patch);
        out.append(patch.as_str());
        out.append("\nother:\n\t");
        let other = bucket_report(&self.other);
        out.append(other.as_str());
        proof {
            assert(out@ =~= changes_display(self@));
        }
        out
    }
}

} // verus!
