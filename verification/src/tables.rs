//! Creating the two tables and waiting until the database reports them
//! active.

use vstd::prelude::*;

verus! {

/// How many times the status of a new table is asked for before giving up.
pub const MAX_ATTEMPTS: u32 = 20;

/// Seconds to wait between two questions for the status of a new table.
pub const RETRY_DELAY_SECS: u64 = 2;

/// A table to create: its name and the name of its string hash key.
#[derive(Debug, Clone)]
pub struct TableSpec {
    pub name: String,
    pub key: String,
}

/// The credentials table, keyed by user name.
pub fn auth_table() -> (t: TableSpec)
    ensures
        t.name@ == "users_auth"@,
        t.key@ == "username"@,
{
    TableSpec { name: "users_auth".to_owned(), key: "username".to_owned() }
}

/// The profiles table, keyed by user id.
pub fn profiles_table() -> (t: TableSpec)
    ensures
        t.name@ == "users_profiles"@,
        t.key@ == "uuid"@,
{
    TableSpec { name: "users_profiles".to_owned(), key: "uuid".to_owned() }
}

/// What the database answered to the creation of a table.
#[derive(Debug, Clone, Copy, PartialEq, Eq)]
pub enum CreateOutcome {
    Created,
    AlreadyExists,
    Failed,
}

/// Whether to go on and wait for the table to become active: a table that
/// was created or already existed is waited for; after any other failure
/// the creation is reported as failed.
pub fn wait_after_create(outcome: CreateOutcome) -> (wait: bool)
    ensures
        wait <==> !(outcome is Failed),
{
    match outcome {
        CreateOutcome::Created => true,
        CreateOutcome::AlreadyExists => true,
        CreateOutcome::Failed => false,
    }
}

/// What one question for the status of a table gave.
#[derive(Debug, Clone, Copy, PartialEq, Eq)]
pub enum TableStatus {
    Active,
    NotActive,
    DescribeFailed,
}

/// What to do after a status answer.
#[derive(Debug, Clone, Copy, PartialEq, Eq)]
pub enum PollAction {
    /// The table is active: report success.
    Ready,
    /// Too many attempts: report failure.
    GiveUp,
    /// Wait `delay_secs` seconds, then ask again, with `attempts` answers
    /// seen so far that were not "active".
    Retry { attempts: u32, delay_secs: u64 },
}

/// The decision after the status answer `observed`, `attempts` earlier
/// answers having not been "active".
pub open spec fn poll_step_spec(attempts: int, observed: TableStatus) -> PollAction {
    if observed is Active {
        PollAction::Ready
    } else if attempts + 1 >= MAX_ATTEMPTS {
        PollAction::GiveUp
    } else {
        PollAction::Retry { attempts: (attempts + 1) as u32, delay_secs: RETRY_DELAY_SECS }
    }
}

/// Decides what follows a status answer.
pub fn poll_step(attempts: u32, observed: TableStatus) -> (a: PollAction)
    ensures
        a == poll_step_spec(attempts as int, observed),
        observed is Active ==> a is Ready,
        !(observed is Active) && attempts >= 19 ==> a is GiveUp,
        !(observed is Active) && attempts < 19 ==> a == (PollAction::Retry { attempts: (attempts + 1) as u32, delay_secs: 2 }),
{
    match observed {
        TableStatus::Active => PollAction::Ready,
        _ => {
            if attempts >= MAX_ATTEMPTS - 1 {
                PollAction::GiveUp
            } else {
                PollAction::Retry { attempts: attempts + 1, delay_secs: RETRY_DELAY_SECS }
            }
        },
    }
}

/// The result of waiting for a table that answers `answers` in turn, with
/// `attempts` answers already seen; `None` while more answers are needed.
pub open spec fn poll_run(attempts: int, answers: Seq<TableStatus>) -> Option<bool>
    decreases answers.len(),
{
    if answers.len() == 0 {
        None
    } else {
        match poll_step_spec(attempts, answers[0]) {
            PollAction::Ready => Some(true),
            PollAction::GiveUp => Some(false),
            PollAction::Retry { attempts: a, .. } => if a > attempts {
                poll_run(a as int, answers.drop_first())
            } else {
                None
            },
        }
    }
}

proof fn lemma_poll_run_from(attempts: int, answers: Seq<TableStatus>)
    requires
        0 <= attempts < MAX_ATTEMPTS,
        answers.len() >= MAX_ATTEMPTS - attempts,
    ensures
        poll_run(attempts, answers) == Some(
            exists|i: int| 0 <= i < MAX_ATTEMPTS - attempts && #[trigger] answers[i] is Active,
        ),
    decreases MAX_ATTEMPTS - attempts,
{
    if answers[0] is Active {
        assert(answers[0] is Active);
    } else if attempts + 1 >= MAX_ATTEMPTS {
        assert forall|i: int| 0 <= i < MAX_ATTEMPTS - attempts implies !(#[trigger] answers[i] is Active) by {
            assert(i == 0);
        }
    } else {
        let rest = answers.drop_first();
        lemma_poll_run_from(attempts + 1, rest);
        if exists|i: int| 0 <= i < MAX_ATTEMPTS - attempts - 1 && #[trigger] rest[i] is Active {
            let i = choose|i: int| 0 <= i < MAX_ATTEMPTS - attempts - 1 && #[trigger] rest[i] is Active;
            assert(answers[i + 1] is Active);
        }
        if exists|i: int| 0 <= i < MAX_ATTEMPTS - attempts && #[trigger] answers[i] is Active {
            let i = choose|i: int| 0 <= i < MAX_ATTEMPTS - attempts && #[trigger] answers[i] is Active;
            assert(i != 0);
            assert(rest[i - 1] is Active);
        }
    }
}

/// Waiting for a table ends within the first `MAX_ATTEMPTS` answers: it
/// succeeds exactly when one of them reports the table active, and the
/// answers after those are never asked for.
pub proof fn lemma_poll_bounded(answers: Seq<TableStatus>)
    requires
        answers.len() >= MAX_ATTEMPTS,
    ensures
        poll_run(0, answers) == Some(exists|i: int| 0 <= i < MAX_ATTEMPTS && #[trigger] answers[i] is Active),
        poll_run(0, answers) == poll_run(0, answers.take(MAX_ATTEMPTS as int)),
{
    lemma_poll_run_from(0, answers);
    let t = answers.take(MAX_ATTEMPTS as int);
    lemma_poll_run_from(0, t);
    assert forall|i: int| 0 <= i < MAX_ATTEMPTS implies (#[trigger] answers[i] is Active) == (t[i] is Active) by {
        assert(t[i] == answers[i]);
    }
    if exists|i: int| 0 <= i < MAX_ATTEMPTS && #[trigger] t[i] is Active {
        let i = choose|i: int| 0 <= i < MAX_ATTEMPTS && #[trigger] t[i] is Active;
        assert(answers[i] is Active);
    }
}

/// Waiting for a table asks at most twenty times: with twenty or more
/// answers available, it succeeds exactly when one of the first twenty
/// reports the table active.
pub proof fn lemma_poll_twenty(answers: Seq<TableStatus>)
    requires
        answers.len() >= 20,
    ensures
        poll_run(0, answers) == Some(exists|i: int| 0 <= i < 20 && #[trigger] answers[i] is Active),
        poll_run(0, answers) == poll_run(0, answers.take(20)),
{
    lemma_poll_bounded(answers);
}

} // verus!
