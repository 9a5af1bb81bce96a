//! Commit records: the raw message-plus-hash value the traversal hands over,
//! and the classified gitmoji commit the engine works with.
use vstd::prelude::*;

use crate::gitmoji::Gitmoji;
use crate::gitmoji::code_of;
use crate::gitmoji::intention_of;
use crate::gitmoji::utf_of;
use crate::strutil::remove_all;
use crate::strutil::remove_all_seq;
use crate::strutil::trim_end;
use crate::strutil::trim_end_seq;
use crate::strutil::trim_start;
use crate::strutil::trim_start_seq;

verus! {

/// What can go wrong while turning a raw commit into a gitmoji commit.
#[derive(Clone, Copy, Debug, PartialEq, Eq, Structural)]
pub enum CommitError {
    /// The underlying commit has no readable message.
    MissingMessage,
    /// The message contains no symbol of any catalogue gitmoji.
    MissingIntention,
}

impl CommitError {
    /// A human-readable account of the error.
    pub fn description(&self) -> (r: &'static str)
        ensures
            *self == CommitError::MissingMessage ==> r@ == "Commit does not have a message"@,
            *self == CommitError::MissingIntention ==> r@
                == "Commit message does not contain a valid Gitmoji intention"@,
    {
        match self {
            CommitError::MissingMessage => "Commit does not have a message",
            CommitError::MissingIntention => "Commit message does not contain a valid Gitmoji intention",
        }
    }
}

/// The abstract value of a raw commit: its message and hash texts.
pub struct CommitV {
    pub message: Seq<char>,
    pub hash: Seq<char>,
}

/// A raw commit record: the message verbatim and the content hash.
#[derive(Debug)]
pub struct Commit {
    pub message: String,
    pub hash: String,
}

impl View for Commit {
    type V = CommitV;

    open spec fn view(&self) -> CommitV {
        CommitV { message: self.message@, hash: self.hash@ }
    }
}

impl Commit {
    /// Packs a message and a hash into a commit record.
    pub fn new(message: String, hash: String) -> (r: Commit)
        ensures
            r@ == (CommitV { message: message@, hash: hash@ }),
    {
        Commit { message, hash }
    }
}

impl Clone for Commit {
    fn clone(&self) -> (r: Commit)
        ensures
            r@ == self@,
    {
        Commit { message: self.message.clone(), hash: self.hash.clone() }
    }
}

impl PartialEq for Commit {
    fn eq(&self, other: &Commit) -> (r: bool) {
        self.message == other.message && self.hash == other.hash
    }
}

impl vstd::std_specs::cmp::PartialEqSpecImpl for Commit {
    open spec fn obeys_eq_spec() -> bool {
        true
    }

    open spec fn eq_spec(&self, other: &Commit) -> bool {
        self@ == other@
    }
}

/// The abstract value of a classified commit.
pub struct GitmojiCommitV {
    pub message: Seq<char>,
    pub hash: Seq<char>,
    pub intention: Gitmoji,
    pub scope: Seq<char>,
}

/// A commit classified by the gitmoji found in its message; the message is
/// kept with that symbol stripped and leading whitespace removed.
#[derive(Debug)]
pub struct GitmojiCommit {
    pub message: String,
    pub hash: String,
    pub intention: Gitmoji,
    pub scope: String,
}

impl View for GitmojiCommit {
    type V = GitmojiCommitV;

    open spec fn view(&self) -> GitmojiCommitV {
        GitmojiCommitV {
            message: self.message@,
            hash: self.hash@,
            intention: self.intention,
            scope: self.scope@,
        }
    }
}

/// How a raw commit classifies: `None` when its message holds no catalogue
/// symbol, otherwise the gitmoji commit with the matched intention, the
/// message with that intention's glyph and shortcode removed and leading
/// whitespace trimmed, the hash unchanged, and an empty scope.
pub open spec fn parsed_commit(c: CommitV) -> Option<GitmojiCommitV> {
    match intention_of(c.message) {
        Some(g) => Some(
            GitmojiCommitV {
                message: trim_start_seq(
                    remove_all_seq(remove_all_seq(c.message, utf_of(g)), code_of(g)),
                ),
                hash: c.hash,
                intention: g,
                scope: Seq::empty(),
            },
        ),
        None => None,
    }
}

impl GitmojiCommit {
    /// Packs the four fields into a gitmoji commit.
    pub fn new(message: String, hash: String, intention: Gitmoji, scope: String) -> (r:
        GitmojiCommit)
        ensures
            r@ == (GitmojiCommitV {
                message: message@,
                hash: hash@,
                intention,
                scope: scope@,
            }),
    {
        GitmojiCommit { message, hash, intention, scope }
    }

    /// Classifies a raw commit, exactly as `parsed_commit` describes;
    /// a message without any catalogue symbol is rejected.
    pub fn try_from(value: &Commit) -> (r: Result<GitmojiCommit, CommitError>)
        ensures
            r matches Ok(gc) ==> parsed_commit(value@) == Some(gc@),
            r is Err ==> parsed_commit(value@) is None && r == Err::<GitmojiCommit, CommitError>(
                CommitError::MissingIntention,
            ),
    {
        match Gitmoji::try_from(value.message.as_str()) {
            Ok(g) => {
                let without_utf = remove_all(value.message.as_str(), g.as_utf());
                let without_code = remove_all(without_utf.as_str(), g.as_shortcode());
                let message = trim_start(without_code.as_str());
                Ok(GitmojiCommit { message, hash: value.hash.clone(), intention: g, scope: String::new() })
            },
            Err(_) => Err(CommitError::MissingIntention),
        }
    }

    /// The gitmoji commit shown as glyph, trimmed message and short hash.
    pub fn display_string(&self) -> (r: String)
        ensures
            r@ == gitmoji_commit_display(self@),
    {
        let mut out = String::from_str(self.intention.as_utf());
        out.append(" ");
        let trimmed = trim_end(self.message.as_str());
        out.append(trimmed.as_str());
        out.append(" (");
        if self.hash.as_str().unicode_len() >= 7 {
            out.append(self.hash.as_str().substring_char(0, 7));
        } else {
            out.append("Error: can't show short hash");
        }
        out.append(")");
        proof {
            assert(out@ =~= gitmoji_commit_display(self@));
        }
        out
    }
}

impl Clone for GitmojiCommit {
    fn clone(&self) -> (r: GitmojiCommit)
        ensures
            r@ == self@,
    {
        GitmojiCommit {
            message: self.message.clone(),
            hash: self.hash.clone(),
            intention: self.intention,
            scope: self.scope.clone(),
        }
    }
}

impl PartialEq for GitmojiCommit {
    fn eq(&self, other: &GitmojiCommit) -> (r: bool) {
        self.message == other.message && self.hash == other.hash && self.intention
            == other.intention && self.scope == other.scope
    }
}

impl vstd::std_specs::cmp::PartialEqSpecImpl for GitmojiCommit {
    open spec fn obeys_eq_spec() -> bool {
        true
    }

    open spec fn eq_spec(&self, other: &GitmojiCommit) -> bool {
        self@ == other@
    }
}

/// The first seven characters of the hash, or an error notice when the hash
/// is shorter than that.
pub open spec fn short_hash_of(h: Seq<char>) -> Seq<char> {
    if h.len() >= 7 {
        h.subrange(0, 7)
    } else {
        "Error: can't show short hash"@
    }
}

/// The display form of a gitmoji commit: glyph, message without trailing
/// whitespace, and the short hash in parentheses.
pub open spec fn gitmoji_commit_display(v: GitmojiCommitV) -> Seq<char> {
    utf_of(v.intention) + " "@ + trim_end_seq(v.message) + " ("@ + short_hash_of(v.hash) + ")"@
}

/// What every commit-like value offers the classifier: its message, its
/// hash and its intention, each with a spec-level twin that the exec
/// accessor is promised to agree with.
pub trait CommitInterface {
    /// The error type of the conversion that builds the value.
    type Error;

    /// The message text, at the spec level.
    spec fn message_spec(&self) -> Seq<char>;

    /// The hash text, at the spec level.
    spec fn hash_spec(&self) -> Seq<char>;

    /// The intention, at the spec level.
    spec fn intention_spec(&self) -> Gitmoji;

    /// The message text.
    fn message(&self) -> (r: &str)
        ensures
            r@ == self.message_spec(),
    ;

    /// The hash text.
    fn hash(&self) -> (r: &str)
        ensures
            r@ == self.hash_spec(),
    ;

    /// The intention.
    fn intention(&self) -> (r: &Gitmoji)
        ensures
            *r == self.intention_spec(),
    ;
}

impl CommitInterface for GitmojiCommit {
    type Error = CommitError;

    open spec fn message_spec(&self) -> Seq<char> {
        self.message@
    }

    open spec fn hash_spec(&self) -> Seq<char> {
        self.hash@
    }

    open spec fn intention_spec(&self) -> Gitmoji {
        self.intention
    }

    fn message(&self) -> (r: &str) {
        self.message.as_str()
    }

    fn hash(&self) -> (r: &str) {
        self.hash.as_str()
    }

    fn intention(&self) -> (r: &Gitmoji) {
        &self.intention
    }
}

/// A commit record kept with its message verbatim, for conventional-commit
/// style reporting.
#[derive(Debug)]
pub struct ConventionalCommit {
    pub message: String,
    pub hash: String,
}

impl View for ConventionalCommit {
    type V = CommitV;

    open spec fn view(&self) -> CommitV {
        CommitV { message: self.message@, hash: self.hash@ }
    }
}

/// The display form of a conventional commit: message without trailing
/// whitespace, a dash, and the short hash.
pub open spec fn conventional_commit_display(v: CommitV) -> Seq<char> {
    trim_end_seq(v.message) + " - "@ + short_hash_of(v.hash)
}

impl ConventionalCommit {
    /// Packs a message and a hash into a conventional commit.
    pub fn new(message: String, hash: String) -> (r: ConventionalCommit)
        ensures
            r@ == (CommitV { message: message@, hash: hash@ }),
    {
        ConventionalCommit { message, hash }
    }

    /// A reference to the message attribute.
    pub fn message(&self) -> (r: &str)
        ensures
            r@ == self@.message,
    {
        self.message.as_str()
    }

    /// The commit shown as trimmed message and short hash.
    pub fn display_string(&self) -> (r: String)
        ensures
            r@ == conventional_commit_display(self@),
    {
        let mut out = trim_end(self.message.as_str());
        out.append(" - ");
        if self.hash.as_str().unicode_len() >= 7 {
            out.append(self.hash.as_str().substring_char(0, 7));
        } else {
            out.append("Error: can't show short hash");
        }
        proof {
            assert(out@ =~= conventional_commit_display(self@));
        }
        out
    }
}

impl Clone for ConventionalCommit {
    fn clone(&self) -> (r: ConventionalCommit)
        ensures
            r@ == self@,
    {
        ConventionalCommit { message: self.message.clone(), hash: self.hash.clone() }
    }
}

impl PartialEq for ConventionalCommit {
    fn eq(&self, other: &ConventionalCommit) -> (r: bool) {
        self.message == other.message && self.hash == other.hash
    }
}

impl vstd::std_specs::cmp::PartialEqSpecImpl for ConventionalCommit {
    open spec fn obeys_eq_spec() -> bool {
        true
    }

    open spec fn eq_spec(&self, other: &ConventionalCommit) -> bool {
        self@ == other@
    }
}

} // verus!
