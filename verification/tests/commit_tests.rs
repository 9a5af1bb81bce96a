use cargo_semantic_release::commit::{
    Commit, CommitError, CommitInterface, ConventionalCommit, GitmojiCommit,
};
use cargo_semantic_release::gitmoji::{Emoji, Gitmoji};

#[test]
fn gitmoji_commit_from_commit_strips_the_symbol() {
    // Given
    let commit = Commit::new(
        ":tada: initial commit".to_string(),
        "fa1afe1cafefa1afe1cafefa1afe1cafefa1afe1".to_string(),
    );

    // When
    let result = GitmojiCommit::try_from(&commit).expect("Failed to parse");

    // Then
    let expected_result = GitmojiCommit::new(
        "initial commit".to_string(),
        "fa1afe1cafefa1afe1cafefa1afe1cafefa1afe1".to_string(),
        Gitmoji::Tada,
        "".to_string(),
    );
    assert_eq!(result, expected_result);
}

#[test]
fn gitmoji_commit_without_intention_is_rejected() {
    let commit = Commit::new("no marker at all".to_string(), "abc".to_string());
    let result = GitmojiCommit::try_from(&commit);
    assert_eq!(result, Err(CommitError::MissingIntention));
}

#[test]
fn gitmoji_commit_display_string() {
    let commit = Commit::new(
        ":tada: initial commit".to_string(),
        "fa1afe1cafefa1afe1cafefa1afe1cafefa1afe1".to_string(),
    );
    let parsed = GitmojiCommit::try_from(&commit).expect("Failed to parse");
    assert_eq!(parsed.display_string(), format!("{} {} ({})", "🎉", "initial commit", "fa1afe1"));
}

#[test]
fn gitmoji_commit_accessors() {
    let parsed = GitmojiCommit::new(
        "fix a bug".to_string(),
        "abcdef1".to_string(),
        Gitmoji::Bug,
        "".to_string(),
    );
    assert_eq!(parsed.message(), "fix a bug");
    assert_eq!(CommitInterface::hash(&parsed), "abcdef1");
    assert_eq!(*parsed.intention(), Gitmoji::Bug);
}

#[test]
fn conventional_commit_keeps_message_verbatim() {
    // Given
    let message = "initial commit".to_string();
    let hash = "fa1afe1cafefa1afe1cafefa1afe1cafefa1afe1".to_string();

    // When
    let result = ConventionalCommit::new(message.clone(), hash.clone());

    // Then
    let expected_result = ConventionalCommit { message, hash };
    assert_eq!(result, expected_result);
    assert_eq!(result.message(), "initial commit");
}

#[test]
fn conventional_commit_display_formatting() {
    // Given
    let conventional_commit = ConventionalCommit::new(
        "initial commit".to_string(),
        "fa1afe1cafefa1afe1cafefa1afe1cafefa1afe1".to_string(),
    );

    // When
    let print_out = conventional_commit.display_string();

    // Then
    assert_eq!(print_out, format!("{} - {}", "initial commit", "fa1afe1"));
}

#[test]
fn commit_error_descriptions() {
    assert_eq!(
        CommitError::MissingMessage.description(),
        "Commit does not have a message"
    );
    assert_eq!(
        CommitError::MissingIntention.description(),
        "Commit message does not contain a valid Gitmoji intention"
    );
}

#[test]
fn emoji_new_keeps_both_symbols() {
    let emoji = Emoji::new("💥", ":boom:");
    assert_eq!(emoji.utf, "💥");
    assert_eq!(emoji.shortcode, ":boom:");
}

#[test]
fn short_hash_fallback_for_short_hashes() {
    let parsed = GitmojiCommit::new(
        "tiny".to_string(),
        "abc".to_string(),
        Gitmoji::Bug,
        "".to_string(),
    );
    assert_eq!(
        parsed.display_string(),
        format!("{} {} ({})", "🐛", "tiny", "Error: can't show short hash")
    );
}
