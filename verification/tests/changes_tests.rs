use cargo_semantic_release::changes::{Changes, SemanticVersionAction, convert_to_string_vector};
use cargo_semantic_release::commit::{Commit, CommitInterface, GitmojiCommit};
use cargo_semantic_release::gitmoji::Gitmoji;
use cargo_semantic_release::repo::{RepositoryError, RepositoryExtension};
use cargo_semantic_release::version_tag::{Version, VersionTag};

fn gc(message: &str, intention: Gitmoji) -> GitmojiCommit {
    GitmojiCommit::new(message.to_string(), "".to_string(), intention, "".to_string())
}

struct MockedRepository {
    commits: Vec<GitmojiCommit>,
    commit_fetching_fails: bool,
    commit_with_latest_tag: Option<GitmojiCommit>,
    latest_version_tag: Option<VersionTag>,
    tag_fetching_fails: bool,
}

impl RepositoryExtension for MockedRepository {
    fn fetch_commits_until(&self, stop_oid: &str) -> Result<Vec<Commit>, RepositoryError> {
        assert_eq!(
            stop_oid,
            self.latest_version_tag.as_ref().unwrap().commit_oid,
            "fetch_commits_until is not called with the latest version tag"
        );
        if self.commit_fetching_fails {
            Err(RepositoryError::Access("Mock error".to_string()))
        } else {
            let commits = self
                .commits
                .clone()
                .into_iter()
                .rev()
                .take_while(|commit| {
                    commit
                        != self
                            .commit_with_latest_tag
                            .as_ref()
                            .expect("commit for latest tag is not set")
                })
                .map(|commit| {
                    Commit::new(
                        format!("{} {}", commit.intention().as_utf(), commit.message()),
                        CommitInterface::hash(&commit).to_string(),
                    )
                })
                .collect();
            Ok(commits)
        }
    }

    fn fetch_all_commits(&self) -> Result<Vec<Commit>, RepositoryError> {
        if self.commit_fetching_fails {
            Err(RepositoryError::Access("Mock error".to_string()))
        } else {
            let commits = self
                .commits
                .clone()
                .iter()
                .map(|commit| {
                    Commit::new(
                        format!("{} {}", commit.intention().as_utf(), commit.message()),
                        CommitInterface::hash(commit).to_string(),
                    )
                })
                .collect::<Vec<Commit>>();
            Ok(commits)
        }
    }

    fn get_latest_version_tag(&self) -> Result<Option<VersionTag>, RepositoryError> {
        if self.tag_fetching_fails {
            Err(RepositoryError::Access("Mock error".to_string()))
        } else {
            Ok(self.latest_version_tag.clone())
        }
    }
}

impl MockedRepository {
    fn from_commits(commits: Vec<GitmojiCommit>) -> Self {
        Self {
            commits,
            commit_fetching_fails: false,
            commit_with_latest_tag: None,
            latest_version_tag: None,
            tag_fetching_fails: false,
        }
    }

    fn new() -> Self {
        Self {
            commits: Vec::new(),
            commit_fetching_fails: false,
            commit_with_latest_tag: None,
            latest_version_tag: None,
            tag_fetching_fails: false,
        }
    }
}

#[test]
fn creating_from_empty_commit_list() {
    // Given
    let repository = MockedRepository::new();

    // When
    let result = Changes::from_repo(&repository).unwrap();

    // Then
    let expected_result = Changes {
        major: Vec::new(),
        minor: Vec::new(),
        patch: Vec::new(),
        other: Vec::new(),
    };
    assert_eq!(result, expected_result);
}

#[test]
fn error_during_fetching_commits() {
    // Given
    let mut repository = MockedRepository::new();
    repository.commit_fetching_fails = true;

    // When
    let result = Changes::from_repo(&repository);

    // Then
    assert!(result.is_err(), "Expected error, but got Ok");
}

#[test]
fn creating_from_only_major_conventional_commits() {
    // Given
    let commit_messages = vec![gc("introduce breaking changes", Gitmoji::Boom)];
    let repository = MockedRepository::from_commits(commit_messages.clone());

    // When
    let result = Changes::from_repo(&repository).unwrap();

    // Then
    let expected_result = Changes {
        major: commit_messages,
        minor: Vec::new(),
        patch: Vec::new(),
        other: Vec::new(),
    };
    assert_eq!(result, expected_result);
}

#[test]
fn creating_from_only_minor_conventional_commits() {
    // Given
    let commit_messages = vec![
        gc("introduce new feature", Gitmoji::Sparkles),
        gc("improve user experience / usability", Gitmoji::ChildrenCrossing),
        gc("add or update the UI and style files", Gitmoji::Lipstick),
        gc("work on responsive design", Gitmoji::Iphone),
        gc("add or update an easter egg", Gitmoji::Egg),
        gc("add or update analytics or track code", Gitmoji::ChartWithUpwardsTrend),
        gc("add a dependency", Gitmoji::HeavyPlusSign),
        gc("remove a dependency", Gitmoji::HeavyMinusSign),
        gc("work on code related to authorization, roles and permissions", Gitmoji::PassportControl),
    ];
    let repository = MockedRepository::from_commits(commit_messages.clone());

    // When
    let result = Changes::from_repo(&repository).unwrap();

    // Then
    let expected_result = Changes {
        major: Vec::new(),
        minor: commit_messages,
        patch: Vec::new(),
        other: Vec::new(),
    };
    assert_eq!(result, expected_result);
}

#[test]
fn creating_from_only_patch_conventional_commits() {
    // Given
    let commit_messages = vec![
        gc("improve structure / format of the code", Gitmoji::Art),
        gc("critical hotfix", Gitmoji::Ambulance),
        gc("fix security or privacy issues", Gitmoji::Lock),
        gc("fix a bug", Gitmoji::Bug),
        gc("improve performance", Gitmoji::Zap),
        gc("catch errors", Gitmoji::GoalNet),
        gc("update code due to external API changes", Gitmoji::Alien),
        gc("improve accessibility", Gitmoji::Wheelchair),
        gc("add or update text and literals", Gitmoji::SpeechBalloon),
        gc("improve SEO", Gitmoji::Mag),
        gc("remove code or files", Gitmoji::Fire),
        gc("add, update, or pass tests", Gitmoji::WhiteCheckMark),
        gc("add or update secrets", Gitmoji::ClosedLockWithKey),
        gc("fix compiler / linter warnings", Gitmoji::RotatingLight),
        gc("fix CI build", Gitmoji::GreenHeart),
        gc("downgrade dependencies", Gitmoji::ArrowDown),
        gc("upgrade dependencies", Gitmoji::ArrowUp),
        gc("pin dependencies to specific versions", Gitmoji::Pushpin),
        gc("add or update CI build system", Gitmoji::ConstructionWorker),
        gc("refactor code", Gitmoji::Recycle),
        gc("add or update configuration files", Gitmoji::Wrench),
        gc("add or update development scripts", Gitmoji::Hammer),
        gc("internationalization and localization", Gitmoji::GlobeWithMeridians),
        gc("add or update compiled files or packages", Gitmoji::Package),
        gc("move or rename resources (e.g.: files, paths, routes", Gitmoji::Truck),
        gc("add or update assets", Gitmoji::Bento),
        gc("perform database related changes", Gitmoji::CardFileBox),
        gc("add or update logs", Gitmoji::LoudSound),
        gc("remove logs", Gitmoji::Mute),
        gc("make architectural changes", Gitmoji::BuildingConstruction),
        gc("add or update snapshots", Gitmoji::CameraFlash),
        gc("add or update types", Gitmoji::Label),
        gc("add or update seed files", Gitmoji::Seedling),
        gc("add, update, or remove feature flags", Gitmoji::TriangularFlagOnPost),
        gc("add or update animations an transitions", Gitmoji::Dizzy),
        gc("simple fix for a non critical issue", Gitmoji::AdhesiveBandage),
        gc("data exploration / inspection", Gitmoji::MonocleFace),
        gc("add or update business logic", Gitmoji::Necktie),
        gc("add or update healthcheck", Gitmoji::Stethoscope),
        gc("improve developer experience", Gitmoji::Technologist),
        gc("add or update code related to multithreading or concurrency", Gitmoji::Thread),
        gc("add or update code related to validation", Gitmoji::SafetyVest),
    ];
    let repository = MockedRepository::from_commits(commit_messages.clone());

    // When
    let result = Changes::from_repo(&repository).unwrap();

    // Then
    let expected_result = Changes {
        major: Vec::new(),
        minor: Vec::new(),
        patch: commit_messages,
        other: Vec::new(),
    };
    assert_eq!(result, expected_result);
}

#[test]
fn creating_from_only_other_conventional_commits() {
    // Given
    let commit_messages = vec![
        gc("add or update documentation", Gitmoji::Memo),
        gc("deploy stuff", Gitmoji::Rocket),
        gc("begin a project", Gitmoji::Tada),
        gc("release / version tags", Gitmoji::Bookmark),
        gc("work in progress", Gitmoji::Construction),
        gc("fix typos", Gitmoji::Pencil2),
        gc("write bad code that needs to be improved", Gitmoji::Poop),
        gc("revert changes", Gitmoji::Rewind),
        gc("merge branches", Gitmoji::TwistedRightwardsArrows),
        gc("add or update license", Gitmoji::PageFacingUp),
        gc("add or update comments in source code", Gitmoji::Bulb),
        gc("write code drunkenly", Gitmoji::Beers),
        gc("add or update contributor(s)", Gitmoji::BustInSilhouette),
        gc("mock things", Gitmoji::ClownFace),
        gc("add or update a .gitignore file", Gitmoji::SeeNoEvil),
        gc("perform experiments", Gitmoji::Alembic),
        gc("deprecate code that needs to be cleaned up", Gitmoji::Wastebasket),
        gc("remove dead code", Gitmoji::Coffin),
        gc("add a failing test", Gitmoji::TestTube),
        gc("infrastructure related changes", Gitmoji::Bricks),
        gc("add sponsorship or money related infrastructure", Gitmoji::MoneyWithWings),
    ];
    let repository = MockedRepository::from_commits(commit_messages.clone());

    // When
    let result = Changes::from_repo(&repository).unwrap();

    // Then
    let expected_result = Changes {
        major: Vec::new(),
        minor: Vec::new(),
        patch: Vec::new(),
        other: commit_messages,
    };
    assert_eq!(result, expected_result);
}

#[test]
fn creating_from_repo_with_tags() {
    // Given
    let commit_messages = vec![
        gc("introduce breaking changes", Gitmoji::Boom),
        gc("introduce new feature", Gitmoji::Sparkles),
        gc("add sponsorship or money related infrastructure", Gitmoji::MoneyWithWings),
        gc("add or update documentation", Gitmoji::Memo),
    ];
    let mut repository = MockedRepository::from_commits(commit_messages.clone());
    repository.latest_version_tag = Some(VersionTag {
        version: Version::new(1, 0, 0),
        commit_oid: "0000000000000000000000000000000000000000".to_string(),
    });
    repository.commit_with_latest_tag = Some(commit_messages[1].clone());

    // When
    let result = Changes::from_repo(&repository).unwrap();

    // Then
    let expected_result = Changes {
        major: Vec::new(),
        minor: Vec::new(),
        patch: Vec::new(),
        other: commit_messages[2..].to_vec(),
    };
    assert_eq!(result, expected_result);
}

#[test]
fn error_during_fetching_latest_tag() {
    // Given
    let commit_messages = vec![
        gc("introduce new feature", Gitmoji::Sparkles),
        gc("improve user experience / usability", Gitmoji::ChildrenCrossing),
        gc("add or update the UI and style files", Gitmoji::Lipstick),
        gc("work on responsive design", Gitmoji::Iphone),
        gc("add or update an easter egg", Gitmoji::Egg),
        gc("add or update analytics or track code", Gitmoji::ChartWithUpwardsTrend),
        gc("add a dependency", Gitmoji::HeavyPlusSign),
        gc("remove a dependency", Gitmoji::HeavyMinusSign),
        gc("work on code related to authorization, roles and permissions", Gitmoji::PassportControl),
    ];
    let mut repository = MockedRepository::from_commits(commit_messages.clone());
    repository.tag_fetching_fails = true;

    // When
    let result = Changes::from_repo(&repository);

    // Then
    assert!(result.is_err(), "Expected Error, got Ok");
}

#[test]
fn has_no_changes() {
    // Given
    let changes = Changes {
        major: Vec::new(),
        minor: Vec::new(),
        patch: Vec::new(),
        other: vec![gc("other", Gitmoji::Memo)],
    };

    // When
    let result = changes.define_action_for_semantic_version();

    // Then
    assert_eq!(result, SemanticVersionAction::Keep);
}

#[test]
fn has_patch_changes() {
    // Given
    let changes = Changes {
        major: Vec::new(),
        minor: Vec::new(),
        patch: vec![gc("patch", Gitmoji::Bug)],
        other: vec![gc("other", Gitmoji::Memo)],
    };

    // When
    let result = changes.define_action_for_semantic_version();

    // Then
    assert_eq!(result, SemanticVersionAction::IncrementPatch);
}

#[test]
fn has_minor_changes() {
    // Given
    let changes = Changes {
        major: Vec::new(),
        minor: vec![gc("minor", Gitmoji::Sparkles)],
        patch: vec![gc("patch", Gitmoji::Bug)],
        other: vec![gc("other", Gitmoji::Memo)],
    };

    // When
    let result = changes.define_action_for_semantic_version();

    // Then
    assert_eq!(result, SemanticVersionAction::IncrementMinor);
}

#[test]
fn has_major_changes() {
    // Given
    let changes = Changes {
        major: vec![gc("major", Gitmoji::Boom)],
        minor: vec![gc("minor", Gitmoji::Sparkles)],
        patch: vec![gc("patch", Gitmoji::Bug)],
        other: vec![gc("other", Gitmoji::Memo)],
    };

    // When
    let result = changes.define_action_for_semantic_version();

    // Then
    assert_eq!(result, SemanticVersionAction::IncrementMajor);
}

#[test]
fn pipeline_without_tags_considers_every_commit() {
    // A repository without tags: every commit is classified, each into the
    // bucket of its intention, and one major commit decides the action.
    let commits = vec![
        Commit::new("💥 a".to_string(), "h1".to_string()),
        Commit::new(":sparkles: b".to_string(), "h2".to_string()),
        Commit::new(":memo: c".to_string(), "h3".to_string()),
    ];
    let changes = Changes::from_commits(commits);

    let expected = Changes {
        major: vec![GitmojiCommit::new("a".to_string(), "h1".to_string(), Gitmoji::Boom, "".to_string())],
        minor: vec![GitmojiCommit::new("b".to_string(), "h2".to_string(), Gitmoji::Sparkles, "".to_string())],
        patch: Vec::new(),
        other: vec![GitmojiCommit::new("c".to_string(), "h3".to_string(), Gitmoji::Memo, "".to_string())],
    };
    assert_eq!(changes, expected);

    let action = changes.define_action_for_semantic_version();
    assert_eq!(action, SemanticVersionAction::IncrementMajor);
}

#[test]
fn pipeline_twice_gives_equal_changes_and_action() {
    // Given an unchanged repository, running the pipeline twice yields
    // bucket-equal changes and the same action.
    let commit_messages = vec![
        gc("introduce new feature", Gitmoji::Sparkles),
        gc("fix a bug", Gitmoji::Bug),
        gc("add or update documentation", Gitmoji::Memo),
    ];
    let repository = MockedRepository::from_commits(commit_messages);

    let first = Changes::from_repo(&repository).unwrap();
    let second = Changes::from_repo(&repository).unwrap();

    assert_eq!(first, second);
    assert_eq!(
        first.define_action_for_semantic_version(),
        second.define_action_for_semantic_version()
    );
}

#[test]
fn unclassified_commits_land_in_no_bucket() {
    let commits = vec![
        Commit::new("no symbol here".to_string(), "h1".to_string()),
        Commit::new(":boom: real break".to_string(), "h2".to_string()),
    ];
    let changes = Changes::from_commits(commits);
    let expected = Changes {
        major: vec![GitmojiCommit::new("real break".to_string(), "h2".to_string(), Gitmoji::Boom, "".to_string())],
        minor: Vec::new(),
        patch: Vec::new(),
        other: Vec::new(),
    };
    assert_eq!(changes, expected);
}

#[test]
fn convert_to_string_vector_lines() {
    let commits = vec![
        GitmojiCommit::new(
            "fix a bug".to_string(),
            "fa1afe1cafefa1afe1cafefa1afe1cafefa1afe1".to_string(),
            Gitmoji::Bug,
            "".to_string(),
        ),
        gc("tiny", Gitmoji::Memo),
    ];

    let result = convert_to_string_vector(commits);

    assert_eq!(
        result,
        vec![
            "🐛 fix a bug (fa1afe1)\n".to_string(),
            "📝 tiny (Error: can't show short hash)\n".to_string(),
        ]
    );
}

#[test]
fn display_string_lists_each_bucket() {
    let changes = Changes {
        major: vec![GitmojiCommit::new(
            "breaking".to_string(),
            "fa1afe1cafefa1afe1cafefa1afe1cafefa1afe1".to_string(),
            Gitmoji::Boom,
            "".to_string(),
        )],
        minor: Vec::new(),
        patch: Vec::new(),
        other: Vec::new(),
    };

    assert_eq!(
        changes.display_string(),
        "major:\n\t💥 breaking (fa1afe1)\n\nminor:\n\t\npatch:\n\t\nother:\n\t"
    );
}

