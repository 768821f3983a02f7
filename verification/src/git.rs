use vstd::prelude::*;

verus! {

/// How a run of `git` ended: it could not be started, or it exited with or
/// without success.
#[derive(Clone, Copy, Debug, PartialEq, Eq, Structural)]
pub enum GitOutcome {
    NotStarted,
    Exited { success: bool },
}

/// The `git` invocations the repository setup makes.
#[derive(Clone, Copy, Debug, PartialEq, Eq, Structural)]
pub enum GitCommand {
    /// `git rev-parse --is-inside-work-tree`
    IsInsideWorkTree,
    /// `git init`
    Init,
}

/// Where the repository setup stands.
#[derive(Clone, Copy, Debug, PartialEq, Eq, Structural)]
pub enum GitSetupState {
    Start,
    CheckingWorkTree,
    Initialising,
    Finished { created: bool },
}

/// What the caller has to do next: run a `git` command and report how it
/// ended, or stop with whether a repository was created.
#[derive(Clone, Copy, Debug, PartialEq, Eq, Structural)]
pub enum GitStep {
    Run(GitCommand),
    Done { created: bool },
}

/// Whether a run of `git` counts as a success: it started and exited with success.
pub open spec fn outcome_succeeded(o: GitOutcome) -> bool {
    o == GitOutcome::Exited { success: true }
}

/// The arguments passed to `git` for a command.
pub open spec fn command_args(c: GitCommand) -> Seq<Seq<char>> {
    match c {
        GitCommand::IsInsideWorkTree => seq!["rev-parse"@, "--is-inside-work-tree"@],
        GitCommand::Init => seq!["init"@],
    }
}

/// One step of the repository setup, from the state and the outcome of the
/// command last run to the next state and step.
pub open spec fn setup_step(state: GitSetupState, last: Option<GitOutcome>) -> (GitSetupState, GitStep) {
    match state {
        GitSetupState::Start => (GitSetupState::CheckingWorkTree, GitStep::Run(GitCommand::IsInsideWorkTree)),
        GitSetupState::CheckingWorkTree => if outcome_succeeded(last->0) {
            (GitSetupState::Finished { created: false }, GitStep::Done { created: false })
        } else {
            (GitSetupState::Initialising, GitStep::Run(GitCommand::Init))
        },
        GitSetupState::Initialising => {
            let created = outcome_succeeded(last->0);
            (GitSetupState::Finished { created }, GitStep::Done { created })
        },
        GitSetupState::Finished { created } => (state, GitStep::Done { created }),
    }
}

impl GitOutcome {
    /// Whether the run started and exited with success; a `git` that is
    /// missing or cannot be started counts as a failure.
    pub fn succeeded(&self) -> (r: bool)
        ensures
            r == outcome_succeeded(*self),
    {
        match self {
            GitOutcome::NotStarted => false,
            GitOutcome::Exited { success } => *success,
        }
    }
}

impl GitCommand {
    /// The arguments passed to `git` for this command.
    pub fn args(&self) -> (r: Vec<&'static str>)
        ensures
            r@.map_values(|a: &'static str| a@) == command_args(*self),
    {
        match self {
            GitCommand::IsInsideWorkTree => {
                let r = vec!["rev-parse", "--is-inside-work-tree"];
                assert(r@.map_values(|a: &'static str| a@) =~= command_args(*self));
                r
            },
            GitCommand::Init => {
                let r = vec!["init"];
                assert(r@.map_values(|a: &'static str| a@) =~= command_args(*self));
                r
            },
        }
    }
}

/// Reads the outcome of `git rev-parse --is-inside-work-tree`: the directory
/// lies inside a work tree exactly when that run succeeded.
pub fn is_inside_work_tree(rev_parse: GitOutcome) -> (r: bool)
    ensures
        r == outcome_succeeded(rev_parse),
{
    rev_parse.succeeded()
}

/// Advances the setup of a git repository for a freshly scaffolded project.
/// From `Start` it asks to check whether the directory lies inside a work
/// tree; inside one it stops without creating anything, so that no
/// repository is nested in another; otherwise it asks for `git init` and
/// reports whether that succeeded. `last` is the outcome of the command the
/// previous step asked for.
pub fn init_git_repository(state: GitSetupState, last: Option<GitOutcome>) -> (r: (GitSetupState, GitStep))
    requires
        state is CheckingWorkTree || state is Initialising ==> last is Some,
    ensures
        r == setup_step(state, last),
{
    match state {
        GitSetupState::Start => (GitSetupState::CheckingWorkTree, GitStep::Run(GitCommand::IsInsideWorkTree)),
        GitSetupState::CheckingWorkTree => {
            let outcome = last.unwrap();
            if is_inside_work_tree(outcome) {
                (GitSetupState::Finished { created: false }, GitStep::Done { created: false })
            } else {
                (GitSetupState::Initialising, GitStep::Run(GitCommand::Init))
            }
        },
        GitSetupState::Initialising => {
            let created = last.unwrap().succeeded();
            (GitSetupState::Finished { created }, GitStep::Done { created })
        },
        GitSetupState::Finished { created } => (state, GitStep::Done { created }),
    }
}

/// Driven from `Start`, the setup makes at most two runs of `git`. When the
/// directory lies inside a work tree it stops after the check, never asks for
/// `git init`, and reports that no repository was created; otherwise it asks
/// for `git init` next and reports exactly whether that succeeded.
pub proof fn lemma_setup_never_nests(check: GitOutcome, init: GitOutcome)
    ensures
        ({
            let (s1, a1) = setup_step(GitSetupState::Start, None);
            let (s2, a2) = setup_step(s1, Some(check));
            &&& a1 == GitStep::Run(GitCommand::IsInsideWorkTree)
            &&& outcome_succeeded(check) ==> a2 == GitStep::Done { created: false }
                && s2 == GitSetupState::Finished { created: false }
            &&& !outcome_succeeded(check) ==> a2 == GitStep::Run(GitCommand::Init) && ({
                let (s3, a3) = setup_step(s2, Some(init));
                a3 == GitStep::Done { created: outcome_succeeded(init) }
                    && s3 == GitSetupState::Finished { created: outcome_succeeded(init) }
            })
        }),
{
}

/// Once finished, the setup stays finished with the same answer, whatever is
/// reported to it.
pub proof fn lemma_finished_is_final(created: bool, last: Option<GitOutcome>)
    ensures
        setup_step(GitSetupState::Finished { created }, last) == (
            GitSetupState::Finished { created },
            GitStep::Done { created },
        ),
{
}

} // verus!
