use pjsip_realtime::engine::{Command, DeprovisionState, ProvisionState, Table};
use pjsip_realtime::errors::{DeletionError, RegistrationError, StoreFailure};

fn run_provision(replies: &[Result<u64, StoreFailure>]) -> (Vec<Command>, Option<Result<(), RegistrationError>>) {
    let mut state = ProvisionState::start();
    let mut commands = Vec::new();
    let mut replies = replies.iter();
    while let Some(cmd) = state.command() {
        commands.push(cmd);
        let reply = replies.next().cloned().unwrap_or(Ok(1));
        state = state.advance(reply);
    }
    (commands, state.outcome())
}

fn run_deprovision(replies: &[Result<u64, StoreFailure>]) -> (Vec<Command>, Option<Result<(), DeletionError>>) {
    let mut state = DeprovisionState::start();
    let mut commands = Vec::new();
    let mut replies = replies.iter();
    while let Some(cmd) = state.command() {
        commands.push(cmd);
        let reply = replies.next().cloned().unwrap_or(Ok(1));
        state = state.advance(reply);
    }
    (commands, state.outcome())
}

#[test]
fn provisioning_inserts_in_order_then_commits() {
    let (cmds, out) = run_provision(&[Ok(0), Ok(0), Ok(1), Ok(1), Ok(1), Ok(1), Ok(0)]);
    assert_eq!(
        cmds,
        vec![
            Command::Begin,
            Command::FindDuplicate,
            Command::Insert(Table::Accounts),
            Command::Insert(Table::Auths),
            Command::Insert(Table::Aors),
            Command::Insert(Table::Endpoints),
            Command::Commit,
        ]
    );
    assert!(matches!(out, Some(Ok(()))));
}

#[test]
fn provisioning_a_duplicate_rolls_back() {
    let (cmds, out) = run_provision(&[Ok(0), Ok(1), Ok(0)]);
    assert_eq!(cmds, vec![Command::Begin, Command::FindDuplicate, Command::Rollback]);
    assert!(matches!(out, Some(Err(RegistrationError::DuplicateError))));
}

#[test]
fn insert_affecting_no_row_fails_the_insertion() {
    let (cmds, out) = run_provision(&[Ok(0), Ok(0), Ok(1), Ok(1), Ok(0), Ok(0)]);
    assert_eq!(cmds.last(), Some(&Command::Rollback));
    assert!(!cmds.contains(&Command::Insert(Table::Endpoints)));
    assert!(!cmds.contains(&Command::Commit));
    assert!(matches!(out, Some(Err(RegistrationError::InsertionFailed))));
}

#[test]
fn unique_violation_on_insert_is_a_duplicate() {
    let violation = Err(StoreFailure::UniqueViolation("duplicate key".to_string()));
    let (cmds, out) = run_provision(&[Ok(0), Ok(0), violation, Ok(0)]);
    assert_eq!(cmds.len(), 4);
    assert_eq!(cmds[3], Command::Rollback);
    assert!(matches!(out, Some(Err(RegistrationError::DuplicateError))));
}

#[test]
fn other_failure_is_a_database_error_after_rollback() {
    let failure = Err(StoreFailure::Other("connection reset".to_string()));
    let (cmds, out) = run_provision(&[Ok(0), Ok(0), Ok(1), failure, Ok(0)]);
    assert_eq!(cmds.last(), Some(&Command::Rollback));
    match out {
        Some(Err(e @ RegistrationError::DatabaseError(_))) => {
            assert_eq!(e.message(), "Database error: connection reset");
        }
        other => panic!("unexpected outcome {:?}", other),
    }
}

#[test]
fn failed_commit_rolls_back() {
    let failure = Err(StoreFailure::Other("commit refused".to_string()));
    let (cmds, out) = run_provision(&[Ok(0), Ok(0), Ok(1), Ok(1), Ok(1), Ok(1), failure, Ok(0)]);
    assert_eq!(cmds.len(), 8);
    assert_eq!(cmds[6], Command::Commit);
    assert_eq!(cmds[7], Command::Rollback);
    assert!(matches!(out, Some(Err(RegistrationError::DatabaseError(_)))));
}

#[test]
fn failed_begin_ends_without_rollback() {
    let failure = Err(StoreFailure::Other("pool closed".to_string()));
    let (cmds, out) = run_provision(&[failure]);
    assert_eq!(cmds, vec![Command::Begin]);
    assert!(matches!(out, Some(Err(RegistrationError::DatabaseError(_)))));
    let failure = Err(StoreFailure::Other("pool closed".to_string()));
    let (cmds, out) = run_deprovision(&[failure]);
    assert_eq!(cmds, vec![Command::Begin]);
    assert!(matches!(out, Some(Err(DeletionError::DatabaseError(_)))));
}

#[test]
fn deprovisioning_deletes_in_reverse_order_then_commits() {
    let (cmds, out) = run_deprovision(&[Ok(0), Ok(1), Ok(1), Ok(1), Ok(1), Ok(1), Ok(0)]);
    assert_eq!(
        cmds,
        vec![
            Command::Begin,
            Command::FindAccount,
            Command::Delete(Table::Endpoints),
            Command::Delete(Table::Aors),
            Command::Delete(Table::Auths),
            Command::Delete(Table::Accounts),
            Command::Commit,
        ]
    );
    assert!(matches!(out, Some(Ok(()))));
}

#[test]
fn deprovisioning_an_absent_id_is_not_found() {
    let (cmds, out) = run_deprovision(&[Ok(0), Ok(0), Ok(0)]);
    assert_eq!(cmds, vec![Command::Begin, Command::FindAccount, Command::Rollback]);
    assert!(matches!(out, Some(Err(DeletionError::NotFoundRecord))));
}

#[test]
fn delete_with_unexpected_row_count_fails() {
    let (_, out) = run_deprovision(&[Ok(0), Ok(1), Ok(1), Ok(0), Ok(0)]);
    assert!(matches!(out, Some(Err(DeletionError::DeletionFailed))));
    let (_, out) = run_deprovision(&[Ok(0), Ok(1), Ok(2), Ok(0)]);
    assert!(matches!(out, Some(Err(DeletionError::DeletionFailed))));
}

#[test]
fn deletion_storage_failure_is_a_database_error() {
    let failure = Err(StoreFailure::Other("lost".to_string()));
    let (cmds, out) = run_deprovision(&[Ok(0), Ok(1), failure, Ok(0)]);
    assert_eq!(cmds.last(), Some(&Command::Rollback));
    match out {
        Some(Err(e @ DeletionError::DatabaseError(_))) => assert_eq!(e.message(), "Database error: lost"),
        other => panic!("unexpected outcome {:?}", other),
    }
}

#[test]
fn finished_state_issues_nothing() {
    let state = ProvisionState::Finished(Ok(()));
    assert_eq!(state.command(), None);
    let state = state.advance(Ok(1));
    assert!(matches!(state.outcome(), Some(Ok(()))));
    assert!(ProvisionState::start().outcome().is_none());
}
