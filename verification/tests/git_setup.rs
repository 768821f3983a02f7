use astropress_cli::git::{
    init_git_repository, is_inside_work_tree, GitCommand, GitOutcome, GitSetupState, GitStep,
};

/// Drives the setup with the given outcomes of the `git` runs it asks for,
/// returning the commands asked for and the final answer.
fn drive(outcomes: &[GitOutcome]) -> (Vec<GitCommand>, bool) {
    let mut state = GitSetupState::Start;
    let mut last = None;
    let mut asked = Vec::new();
    let mut next_outcome = outcomes.iter();
    loop {
        let (s, step) = init_git_repository(state, last);
        state = s;
        match step {
            GitStep::Run(c) => {
                asked.push(c);
                last = Some(*next_outcome.next().expect("asked for more runs than expected"));
            }
            GitStep::Done { created } => return (asked, created),
        }
    }
}

#[test]
fn initialises_outside_any_work_tree() {
    let (asked, created) = drive(&[
        GitOutcome::Exited { success: false },
        GitOutcome::Exited { success: true },
    ]);
    assert_eq!(asked, vec![GitCommand::IsInsideWorkTree, GitCommand::Init]);
    assert!(created);
}

#[test]
fn leaves_a_work_tree_alone() {
    let (asked, created) = drive(&[GitOutcome::Exited { success: true }]);
    assert_eq!(asked, vec![GitCommand::IsInsideWorkTree]);
    assert!(!created);
}

#[test]
fn missing_git_is_not_fatal() {
    let (asked, created) = drive(&[GitOutcome::NotStarted, GitOutcome::NotStarted]);
    assert_eq!(asked, vec![GitCommand::IsInsideWorkTree, GitCommand::Init]);
    assert!(!created);

    let (_, created) = drive(&[
        GitOutcome::Exited { success: false },
        GitOutcome::Exited { success: false },
    ]);
    assert!(!created);
}

#[test]
fn git_arguments() {
    assert_eq!(GitCommand::IsInsideWorkTree.args(), vec!["rev-parse", "--is-inside-work-tree"]);
    assert_eq!(GitCommand::Init.args(), vec!["init"]);
    assert!(is_inside_work_tree(GitOutcome::Exited { success: true }));
    assert!(!is_inside_work_tree(GitOutcome::Exited { success: false }));
    assert!(!is_inside_work_tree(GitOutcome::NotStarted));
}

#[test]
fn finished_setup_stays_finished() {
    let finished = GitSetupState::Finished { created: true };
    assert_eq!(
        init_git_repository(finished, None),
        (finished, GitStep::Done { created: true })
    );
    assert_eq!(
        init_git_repository(finished, Some(GitOutcome::NotStarted)),
        (finished, GitStep::Done { created: true })
    );
}
