use konnect::board::{with_commit, CommitCalls};
use std::cell::RefCell;

/// Runs a commit with the given replies and returns its outcome and the calls that it made.
fn run(
    begin: Result<u32, &'static str>,
    body: Result<i64, &'static str>,
    push: Result<(), &'static str>,
    drop: Result<(), &'static str>,
) -> (Result<i64, &'static str>, Vec<String>) {
    let calls = RefCell::new(Vec::new());
    let out = with_commit(
        CommitCalls {
            begin_commit: || {
                calls.borrow_mut().push("begin".to_string());
                begin
            },
            push_commit: |id: &u32, description: &str| {
                calls.borrow_mut().push(format!("push {} {}", id, description));
                push
            },
            drop_commit: |id: &u32| {
                calls.borrow_mut().push(format!("drop {}", id));
                drop
            },
        },
        "move footprint",
        || {
            calls.borrow_mut().push("body".to_string());
            body
        },
    );
    (out, calls.into_inner())
}

#[test]
fn successful_body_is_pushed() {
    let (out, calls) = run(Ok(7), Ok(42), Ok(()), Ok(()));
    assert_eq!(out, Ok(42));
    assert_eq!(calls, ["begin", "body", "push 7 move footprint"]);
}

#[test]
fn failed_body_is_rolled_back() {
    let (out, calls) = run(Ok(7), Err("no such net"), Ok(()), Ok(()));
    assert_eq!(out, Err("no such net"));
    assert_eq!(calls, ["begin", "body", "drop 7"]);
}

#[test]
fn failed_rollback_keeps_the_error_of_the_body() {
    let (out, calls) = run(Ok(7), Err("no such net"), Ok(()), Err("gone"));
    assert_eq!(out, Err("no such net"));
    assert_eq!(calls, ["begin", "body", "drop 7"]);
}

#[test]
fn failed_push_is_reported() {
    let (out, calls) = run(Ok(7), Ok(42), Err("refused"), Ok(()));
    assert_eq!(out, Err("refused"));
    assert_eq!(calls, ["begin", "body", "push 7 move footprint"]);
}

#[test]
fn unopened_commit_runs_nothing() {
    let (out, calls) = run(Err("busy"), Ok(42), Ok(()), Ok(()));
    assert_eq!(out, Err("busy"));
    assert_eq!(calls, ["begin"]);
}

#[test]
fn commits_carry_any_error_type() {
    let out: anyhow::Result<u8> = with_commit(
        CommitCalls {
            begin_commit: || -> anyhow::Result<String> { Ok("c1".to_string()) },
            push_commit: |_: &String, _: &str| Ok(()),
            drop_commit: |_: &String| Ok(()),
        },
        "edit",
        || Err(anyhow::Error::msg("bad")),
    );
    assert_eq!(out.unwrap_err().to_string(), "bad");
}
