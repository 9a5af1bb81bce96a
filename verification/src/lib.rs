//! Release-decision engine for a git-style repository: resolves the latest
//! semantic-version tag, ranges the commits made since it, classifies each
//! commit's intention from the symbol embedded in its message, and aggregates
//! the classified commits into a single recommended version bump.
pub mod changes;
pub mod commit;
pub mod gitmoji;
pub mod repo;
pub mod strutil;
pub mod version_tag;

pub use crate::changes::Changes;
pub use crate::changes::SemanticVersionAction;
