//! Board edits that run inside a commit.

use vstd::prelude::*;

verus! {

/// The three calls of an IPC client that open and close a commit.
///
/// Each of them can be made at most once, which is all that one commit needs.
pub struct CommitCalls<B, P, D> {
    /// Opens a commit and returns its id.
    pub begin_commit: B,
    /// Makes the commit with the given id permanent, under a description.
    pub push_commit: P,
    /// Discards the commit with the given id.
    pub drop_commit: D,
}

/// How an open commit ends, given what the closure returned.
///
/// Every `call_ensures` is a call that was made, with the arguments it was given and the reply it
/// got.
pub open spec fn commit_closed<B, P, D, I, R, E>(
    client: CommitCalls<B, P, D>,
    description: &str,
    commit_id: I,
    body: Result<R, E>,
    out: Result<R, E>,
) -> bool where
    B: FnOnce() -> Result<I, E>,
    P: FnOnce(&I, &str) -> Result<(), E>,
    D: FnOnce(&I) -> Result<(), E>,
 {
    match body {
        Ok(result) => exists|pushed: Result<(), E>|
            {
                &&& #[trigger] call_ensures(
                    client.push_commit,
                    (&commit_id, description),
                    pushed,
                )
                &&& out == match pushed {
                    Ok(_) => Ok::<R, E>(result),
                    Err(e) => Err::<R, E>(e),
                }
            },
        Err(e) => {
            &&& out == Err::<R, E>(e)
            &&& exists|dropped: Result<(), E>| #[trigger]
                call_ensures(client.drop_commit, (&commit_id,), dropped)
        },
    }
}

/// What a commit around `f` that returned `out` has done.
pub open spec fn commit_ran<B, P, D, F, I, R, E>(
    client: CommitCalls<B, P, D>,
    description: &str,
    f: F,
    out: Result<R, E>,
) -> bool where
    B: FnOnce() -> Result<I, E>,
    P: FnOnce(&I, &str) -> Result<(), E>,
    D: FnOnce(&I) -> Result<(), E>,
    F: FnOnce() -> Result<R, E>,
 {
    ||| exists|e: E|
        {
            &&& #[trigger] call_ensures(client.begin_commit, (), Err::<I, E>(e))
            &&& out == Err::<R, E>(e)
        }
    ||| exists|commit_id: I, body: Result<R, E>|
        {
            &&& #[trigger] call_ensures(client.begin_commit, (), Ok::<I, E>(commit_id))
            &&& #[trigger] call_ensures(f, (), body)
            &&& commit_closed(client, description, commit_id, body, out)
        }
}

/// Wraps a sequence of IPC mutations in a commit transaction.
/// Rolls back automatically if the closure returns `Err`.
///
/// The preconditions are as weak as the order of the calls allows, so they also say which calls
/// are made at all: `f` needs to be callable only once a commit is open, `push_commit` only
/// after `f` succeeded, and `drop_commit` only after `f` failed.
pub fn with_commit<B, P, D, F, I, R, E>(
    client: CommitCalls<B, P, D>,
    description: &str,
    f: F,
) -> (out: Result<R, E>) where
    B: FnOnce() -> Result<I, E>,
    P: FnOnce(&I, &str) -> Result<(), E>,
    D: FnOnce(&I) -> Result<(), E>,
    F: FnOnce() -> Result<R, E>,

    requires
        call_requires(client.begin_commit, ()),
        forall|commit_id: I| #[trigger]
            call_ensures(client.begin_commit, (), Ok::<I, E>(commit_id)) ==> call_requires(f, ()),
        forall|commit_id: I, result: R|
            #![trigger call_ensures(client.begin_commit, (), Ok::<I, E>(commit_id)), call_ensures(f, (), Ok::<R, E>(result))]
            call_ensures(client.begin_commit, (), Ok::<I, E>(commit_id)) && call_ensures(
                f,
                (),
                Ok::<R, E>(result),
            ) ==> call_requires(client.push_commit, (&commit_id, description)),
        forall|commit_id: I, error: E|
            #![trigger call_ensures(client.begin_commit, (), Ok::<I, E>(commit_id)), call_ensures(f, (), Err::<R, E>(error))]
            call_ensures(client.begin_commit, (), Ok::<I, E>(commit_id)) && call_ensures(
                f,
                (),
                Err::<R, E>(error),
            ) ==> call_requires(client.drop_commit, (&commit_id,)),
    ensures
        commit_ran(client, description, f, out),
{
    let CommitCalls { begin_commit, push_commit, drop_commit } = client;
    let commit_id = begin_commit()?;
    match f() {
        Ok(result) => {
            push_commit(&commit_id, description)?;
            Ok(result)
        },
        Err(e) => {
            let _ = drop_commit(&commit_id);
            Err(e)
        },
    }
}

/// A commit returns `Ok` only if it was opened, the closure succeeded with that very value, and
/// the commit was pushed under the given description.
pub proof fn law_ok_means_pushed<B, P, D, F, I, R, E>(
    client: CommitCalls<B, P, D>,
    description: &str,
    f: F,
    result: R,
) where
    B: FnOnce() -> Result<I, E>,
    P: FnOnce(&I, &str) -> Result<(), E>,
    D: FnOnce(&I) -> Result<(), E>,
    F: FnOnce() -> Result<R, E>,

    requires
        commit_ran::<B, P, D, F, I, R, E>(client, description, f, Ok(result)),
    ensures
        call_ensures(f, (), Ok::<R, E>(result)),
        exists|commit_id: I|
            {
                &&& #[trigger] call_ensures(client.begin_commit, (), Ok::<I, E>(commit_id))
                &&& call_ensures(
                    client.push_commit,
                    (&commit_id, description),
                    Ok::<(), E>(()),
                )
            },
{
    let (commit_id, body): (I, Result<R, E>) = choose|commit_id: I, body: Result<R, E>|
        {
            &&& #[trigger] call_ensures(client.begin_commit, (), Ok::<I, E>(commit_id))
            &&& #[trigger] call_ensures(f, (), body)
            &&& commit_closed(client, description, commit_id, body, Ok(result))
        };
    let pushed: Result<(), E> = choose|pushed: Result<(), E>|
        {
            &&& #[trigger] call_ensures(client.push_commit, (&commit_id, description), pushed)
            &&& pushed is Ok
        };
    assert(pushed->Ok_0 == ());
}

/// A closure that fails inside an open commit has that commit dropped, and its own error is what
/// the caller gets, whatever dropping the commit replied.
pub proof fn law_failed_body_is_rolled_back<B, P, D, F, I, R, E>(
    client: CommitCalls<B, P, D>,
    description: &str,
    f: F,
    out: Result<R, E>,
) where
    B: FnOnce() -> Result<I, E>,
    P: FnOnce(&I, &str) -> Result<(), E>,
    D: FnOnce(&I) -> Result<(), E>,
    F: FnOnce() -> Result<R, E>,

    requires
        commit_ran::<B, P, D, F, I, R, E>(client, description, f, out),
        forall|e: E| !#[trigger] call_ensures(client.begin_commit, (), Err::<I, E>(e)),
        forall|result: R| !#[trigger] call_ensures(f, (), Ok::<R, E>(result)),
    ensures
        out matches Err(e) && call_ensures(f, (), Err::<R, E>(e)),
        exists|commit_id: I, dropped: Result<(), E>|
            {
                &&& #[trigger] call_ensures(client.begin_commit, (), Ok::<I, E>(commit_id))
                &&& #[trigger] call_ensures(client.drop_commit, (&commit_id,), dropped)
            },
{
}

/// If no commit can be opened, the caller gets the error of opening it.
pub proof fn law_unopened_commit_fails<B, P, D, F, I, R, E>(
    client: CommitCalls<B, P, D>,
    description: &str,
    f: F,
    out: Result<R, E>,
) where
    B: FnOnce() -> Result<I, E>,
    P: FnOnce(&I, &str) -> Result<(), E>,
    D: FnOnce(&I) -> Result<(), E>,
    F: FnOnce() -> Result<R, E>,

    requires
        commit_ran::<B, P, D, F, I, R, E>(client, description, f, out),
        forall|commit_id: I|
            !#[trigger] call_ensures(client.begin_commit, (), Ok::<I, E>(commit_id)),
    ensures
        out matches Err(e) && call_ensures(client.begin_commit, (), Err::<I, E>(e)),
{
}

/// A commit whose calls all succeed returns what the closure returned.
pub proof fn law_successful_commit_returns_the_result<B, P, D, F, I, R, E>(
    client: CommitCalls<B, P, D>,
    description: &str,
    f: F,
    out: Result<R, E>,
) where
    B: FnOnce() -> Result<I, E>,
    P: FnOnce(&I, &str) -> Result<(), E>,
    D: FnOnce(&I) -> Result<(), E>,
    F: FnOnce() -> Result<R, E>,

    requires
        commit_ran::<B, P, D, F, I, R, E>(client, description, f, out),
        forall|e: E| !#[trigger] call_ensures(client.begin_commit, (), Err::<I, E>(e)),
        forall|e: E| !#[trigger] call_ensures(f, (), Err::<R, E>(e)),
        forall|commit_id: I, e: E|
            !#[trigger] call_ensures(
                client.push_commit,
                (&commit_id, description),
                Err::<(), E>(e),
            ),
    ensures
        out matches Ok(result) && call_ensures(f, (), Ok::<R, E>(result)),
{
    let (commit_id, body): (I, Result<R, E>) = choose|commit_id: I, body: Result<R, E>|
        {
            &&& #[trigger] call_ensures(client.begin_commit, (), Ok::<I, E>(commit_id))
            &&& #[trigger] call_ensures(f, (), body)
            &&& commit_closed(client, description, commit_id, body, out)
        };
    assert(body is Ok) by {
        if let Err(e) = body {
            assert(call_ensures(f, (), Err::<R, E>(e)));
        }
    }
    let pushed: Result<(), E> = choose|pushed: Result<(), E>|
        {
            &&& #[trigger] call_ensures(client.push_commit, (&commit_id, description), pushed)
            &&& out == match pushed {
                Ok(_) => Ok::<R, E>(body->Ok_0),
                Err(e) => Err::<R, E>(e),
            }
        };
    if let Err(e) = pushed {
        assert(call_ensures(client.push_commit, (&commit_id, description), Err::<(), E>(e)));
    }
}

/// A commit that cannot be pushed fails with the error of pushing it, though the closure succeeded.
pub proof fn law_failed_push_is_reported<B, P, D, F, I, R, E>(
    client: CommitCalls<B, P, D>,
    description: &str,
    f: F,
    out: Result<R, E>,
) where
    B: FnOnce() -> Result<I, E>,
    P: FnOnce(&I, &str) -> Result<(), E>,
    D: FnOnce(&I) -> Result<(), E>,
    F: FnOnce() -> Result<R, E>,

    requires
        commit_ran::<B, P, D, F, I, R, E>(client, description, f, out),
        forall|e: E| !#[trigger] call_ensures(client.begin_commit, (), Err::<I, E>(e)),
        forall|e: E| !#[trigger] call_ensures(f, (), Err::<R, E>(e)),
        forall|commit_id: I, pushed: Result<(), E>| #[trigger]
            call_ensures(client.push_commit, (&commit_id, description), pushed) ==> pushed is Err,
    ensures
        out is Err,
        exists|commit_id: I|
            {
                &&& #[trigger] call_ensures(client.begin_commit, (), Ok::<I, E>(commit_id))
                &&& call_ensures(
                    client.push_commit,
                    (&commit_id, description),
                    Err::<(), E>(out->Err_0),
                )
            },
{
    let (commit_id, body): (I, Result<R, E>) = choose|commit_id: I, body: Result<R, E>|
        {
            &&& #[trigger] call_ensures(client.begin_commit, (), Ok::<I, E>(commit_id))
            &&& #[trigger] call_ensures(f, (), body)
            &&& commit_closed(client, description, commit_id, body, out)
        };
    assert(body is Ok) by {
        if let Err(e) = body {
            assert(call_ensures(f, (), Err::<R, E>(e)));
        }
    }
    let pushed: Result<(), E> = choose|pushed: Result<(), E>|
        {
            &&& #[trigger] call_ensures(client.push_commit, (&commit_id, description), pushed)
            &&& out == match pushed {
                Ok(_) => Ok::<R, E>(body->Ok_0),
                Err(e) => Err::<R, E>(e),
            }
        };
    assert(pushed is Err);
    assert(pushed == Err::<(), E>(out->Err_0));
}

} // verus!
