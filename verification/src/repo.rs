//! The repository capability the engine consumes, and the verified cut of a
//! commit walk at the boundary commit.
use vstd::prelude::*;

use crate::commit::Commit;
use crate::commit::CommitV;
use crate::strutil::str_eq;
use crate::version_tag::VersionTag;

verus! {

/// What the repository layer can fail with.
#[derive(Debug)]
pub enum RepositoryError {
    /// The underlying storage could not be read; carries the storage
    /// layer's account of the failure, propagated unchanged.
    Access(String),
    /// The repository holds no commits at all, so there is nothing to
    /// classify; kept distinct from an empty release range.
    NoCommits,
}

impl RepositoryError {
    /// A human-readable account of the error.
    pub fn description(&self) -> (r: String)
        ensures
            self matches RepositoryError::Access(msg) ==> r@ == msg@,
            *self is NoCommits ==> r@ == "repository does not have any commits"@,
    {
        match self {
            RepositoryError::Access(msg) => msg.clone(),
            RepositoryError::NoCommits => String::from_str("repository does not have any commits"),
        }
    }
}

/// The repository capability: resolve the latest version tag and fetch
/// commit ranges. The storage layer outside the library implements it, and
/// a test double can stand in; the engine assumes nothing about these
/// methods beyond their types, and `Changes::from_repo` states what holds
/// of its result whatever they return.
pub trait RepositoryExtension {
    /// The commits strictly newer than the commit `stop_oid` names,
    /// newest first.
    fn fetch_commits_until(&self, stop_oid: &str) -> Result<Vec<Commit>, RepositoryError>;

    /// Every commit reachable from the head, newest first.
    fn fetch_all_commits(&self) -> Result<Vec<Commit>, RepositoryError>;

    /// The version tag with the greatest version, or `None` when no tag
    /// carries a well-formed version tag name.
    fn get_latest_version_tag(&self) -> Result<Option<VersionTag>, RepositoryError>;
}

/// The prefix of `s` that comes before the first commit whose hash is
/// `stop`: the whole of `s` when no commit has that hash.
pub open spec fn commits_before(s: Seq<CommitV>, stop: Seq<char>) -> Seq<CommitV>
    decreases s.len(),
{
    if s.len() == 0 {
        Seq::empty()
    } else if s[0].hash == stop {
        Seq::empty()
    } else {
        seq![s[0]] + commits_before(s.drop_first(), stop)
    }
}

/// Cuts a walked commit list at the commit named `stop_oid`, keeping
/// exactly what comes before it, as `commits_before` describes. The walk
/// hands commits newest first, so this keeps the commits strictly newer
/// than the boundary.
pub fn commits_until(commits: Vec<Commit>, stop_oid: &str) -> (r: Vec<Commit>)
    ensures
        r@.map_values(|c: Commit| c@) == commits_before(
            commits@.map_values(|c: Commit| c@),
            stop_oid@,
        ),
{
    let ghost sv = commits@.map_values(|c: Commit| c@);
    let mut r: Vec<Commit> = Vec::new();
    let mut i: usize = 0;
    proof {
        assert(sv.skip(0) =~= sv);
        assert(r@.map_values(|c: Commit| c@) =~= Seq::<CommitV>::empty());
    }
    while i < commits.len() && !str_eq(commits[i].hash.as_str(), stop_oid)
        invariant
            sv == commits@.map_values(|c: Commit| c@),
            0 <= i <= commits@.len(),
            commits_before(sv, stop_oid@) == r@.map_values(|c: Commit| c@) + commits_before(
                sv.skip(i as int),
                stop_oid@,
            ),
            i < commits@.len() ==> sv[i as int] == commits@[i as int]@,
        decreases commits@.len() - i,
    {
        let ghost old_r = r@;
        r.push(commits[i].clone());
        proof {
            let tail = sv.skip(i as int);
            assert(tail[0] == sv[i as int]);
            assert(tail.drop_first() =~= sv.skip(i + 1));
            assert(commits_before(tail, stop_oid@) == seq![tail[0]] + commits_before(
                sv.skip(i + 1),
                stop_oid@,
            ));
            assert(r@.map_values(|c: Commit| c@) =~= old_r.map_values(|c: Commit| c@).push(
                commits@[i as int]@,
            ));
            assert((old_r.map_values(|c: Commit| c@).push(sv[i as int])) + commits_before(
                sv.skip(i + 1),
                stop_oid@,
            ) =~= old_r.map_values(|c: Commit| c@) + commits_before(tail, stop_oid@));
        }
        i += 1;
    }
    proof {
        let tail = sv.skip(i as int);
        if i < commits@.len() {
            assert(tail[0] == sv[i as int]);
            assert(commits_before(tail, stop_oid@) =~= Seq::<CommitV>::empty());
        } else {
            assert(tail.len() == 0);
        }
        assert(r@.map_values(|c: Commit| c@) + Seq::<CommitV>::empty() =~= r@.map_values(
            |c: Commit| c@,
        ));
    }
    r
}

} // verus!
