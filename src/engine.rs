use crate::errors::{DeletionError, RegistrationError, StoreFailure};
use vstd::prelude::*;

verus! {

/// One of the four record sets an account is stored in.
#[derive(Debug, Clone, Copy, PartialEq, Eq, Structural)]
pub enum Table {
    Accounts,
    Auths,
    Aors,
    Endpoints,
}

/// A step that the storage adapter is to perform inside the transaction.
#[derive(Debug, Clone, Copy, PartialEq, Eq, Structural)]
pub enum Command {
    /// Open the transaction.
    Begin,
    /// Count the accounts that have the new account's id or username.
    FindDuplicate,
    /// Count the accounts that have the id being removed.
    FindAccount,
    /// Insert the new account's record into a table; reply with the rows affected.
    Insert(Table),
    /// Delete the account's record from a table; reply with the rows affected.
    Delete(Table),
    /// Commit the transaction.
    Commit,
    /// Roll the transaction back.
    Rollback,
}

/// Table written after the given one when an account is created.
pub open spec fn insert_after(t: Table) -> Option<Table> {
    match t {
        Table::Accounts => Some(Table::Auths),
        Table::Auths => Some(Table::Aors),
        Table::Aors => Some(Table::Endpoints),
        Table::Endpoints => None,
    }
}

/// Table cleared after the given one when an account is removed: the reverse
/// of the creation order.
pub open spec fn delete_after(t: Table) -> Option<Table> {
    match t {
        Table::Endpoints => Some(Table::Aors),
        Table::Aors => Some(Table::Auths),
        Table::Auths => Some(Table::Accounts),
        Table::Accounts => None,
    }
}

/// How a storage failure is reported while provisioning: a unique-constraint
/// violation means another account holds the id or the username.
pub open spec fn registration_failure(f: StoreFailure) -> RegistrationError {
    match f {
        StoreFailure::UniqueViolation(_) => RegistrationError::DuplicateError,
        StoreFailure::Other(_) => RegistrationError::DatabaseError(f),
    }
}

fn to_registration_failure(f: StoreFailure) -> (r: RegistrationError)
    ensures
        r == registration_failure(f),
{
    match f {
        StoreFailure::UniqueViolation(_) => RegistrationError::DuplicateError,
        StoreFailure::Other(_) => RegistrationError::DatabaseError(f),
    }
}

fn next_insert(t: Table) -> (r: Option<Table>)
    ensures
        r == insert_after(t),
{
    match t {
        Table::Accounts => Some(Table::Auths),
        Table::Auths => Some(Table::Aors),
        Table::Aors => Some(Table::Endpoints),
        Table::Endpoints => None,
    }
}

fn next_delete(t: Table) -> (r: Option<Table>)
    ensures
        r == delete_after(t),
{
    match t {
        Table::Endpoints => Some(Table::Aors),
        Table::Aors => Some(Table::Auths),
        Table::Auths => Some(Table::Accounts),
        Table::Accounts => None,
    }
}

/// Where the creation of one account stands. The adapter performs the
/// state's command and hands the reply (rows counted or affected, or the
/// failure) to `advance`, until the state is `Finished`.
#[derive(Debug)]
pub enum ProvisionState {
    Opening,
    Checking,
    Inserting(Table),
    Committing,
    RollingBack(RegistrationError),
    Finished(Result<(), RegistrationError>),
}

impl ProvisionState {
    pub open spec fn spec_command(self) -> Option<Command> {
        match self {
            ProvisionState::Opening => Some(Command::Begin),
            ProvisionState::Checking => Some(Command::FindDuplicate),
            ProvisionState::Inserting(t) => Some(Command::Insert(t)),
            ProvisionState::Committing => Some(Command::Commit),
            ProvisionState::RollingBack(_) => Some(Command::Rollback),
            ProvisionState::Finished(_) => None,
        }
    }

    /// The state after the current command gave `reply`. A duplicate found,
    /// an insert that affected no row, or any failure once the transaction is
    /// open leads to a rollback; the commit comes only after all four
    /// inserts affected a row.
    pub open spec fn spec_next(self, reply: Result<u64, StoreFailure>) -> ProvisionState {
        match self {
            ProvisionState::Opening => match reply {
                Ok(_) => ProvisionState::Checking,
                Err(f) => ProvisionState::Finished(Err(registration_failure(f))),
            },
            ProvisionState::Checking => match reply {
                Ok(n) => if n == 0 {
                    ProvisionState::Inserting(Table::Accounts)
                } else {
                    ProvisionState::RollingBack(RegistrationError::DuplicateError)
                },
                Err(f) => ProvisionState::RollingBack(registration_failure(f)),
            },
            ProvisionState::Inserting(t) => match reply {
                Ok(n) => if n == 0 {
                    ProvisionState::RollingBack(RegistrationError::InsertionFailed)
                } else {
                    match insert_after(t) {
                        Some(u) => ProvisionState::Inserting(u),
                        None => ProvisionState::Committing,
                    }
                },
                Err(f) => ProvisionState::RollingBack(registration_failure(f)),
            },
            ProvisionState::Committing => match reply {
                Ok(_) => ProvisionState::Finished(Ok(())),
                Err(f) => ProvisionState::RollingBack(registration_failure(f)),
            },
            ProvisionState::RollingBack(e) => ProvisionState::Finished(Err(e)),
            ProvisionState::Finished(r) => ProvisionState::Finished(r),
        }
    }

    pub fn start() -> (r: ProvisionState)
        ensures
            r == ProvisionState::Opening,
    {
        ProvisionState::Opening
    }

    /// The command to perform next, or `None` once finished.
    pub fn command(&self) -> (r: Option<Command>)
        ensures
            r == self.spec_command(),
    {
        match self {
            ProvisionState::Opening => Some(Command::Begin),
            ProvisionState::Checking => Some(Command::FindDuplicate),
            ProvisionState::Inserting(t) => Some(Command::Insert(*t)),
            ProvisionState::Committing => Some(Command::Commit),
            ProvisionState::RollingBack(_) => Some(Command::Rollback),
            ProvisionState::Finished(_) => None,
        }
    }

    pub fn advance(self, reply: Result<u64, StoreFailure>) -> (r: ProvisionState)
        ensures
            r == self.spec_next(reply),
    {
        match self {
            ProvisionState::Opening => match reply {
                Ok(_) => ProvisionState::Checking,
                Err(f) => ProvisionState::Finished(Err(to_registration_failure(f))),
            },
            ProvisionState::Checking => match reply {
                Ok(n) => if n == 0 {
                    ProvisionState::Inserting(Table::Accounts)
                } else {
                    ProvisionState::RollingBack(RegistrationError::DuplicateError)
                },
                Err(f) => ProvisionState::RollingBack(to_registration_failure(f)),
            },
            ProvisionState::Inserting(t) => match reply {
                Ok(n) => if n == 0 {
                    ProvisionState::RollingBack(RegistrationError::InsertionFailed)
                } else {
                    match next_insert(t) {
                        Some(u) => ProvisionState::Inserting(u),
                        None => ProvisionState::Committing,
                    }
                },
                Err(f) => ProvisionState::RollingBack(to_registration_failure(f)),
            },
            ProvisionState::Committing => match reply {
                Ok(_) => ProvisionState::Finished(Ok(())),
                Err(f) => ProvisionState::RollingBack(to_registration_failure(f)),
            },
            ProvisionState::RollingBack(e) => ProvisionState::Finished(Err(e)),
            ProvisionState::Finished(r) => ProvisionState::Finished(r),
        }
    }

    /// The result, once finished.
    pub fn outcome(self) -> (r: Option<Result<(), RegistrationError>>)
        ensures
            r == match self {
                ProvisionState::Finished(x) => Some(x),
                _ => None,
            },
    {
        match self {
            ProvisionState::Finished(x) => Some(x),
            _ => None,
        }
    }
}

/// Where the removal of one account stands; driven as `ProvisionState` is.
#[derive(Debug)]
pub enum DeprovisionState {
    Opening,
    Checking,
    Deleting(Table),
    Committing,
    RollingBack(DeletionError),
    Finished(Result<(), DeletionError>),
}

impl DeprovisionState {
    pub open spec fn spec_command(self) -> Option<Command> {
        match self {
            DeprovisionState::Opening => Some(Command::Begin),
            DeprovisionState::Checking => Some(Command::FindAccount),
            DeprovisionState::Deleting(t) => Some(Command::Delete(t)),
            DeprovisionState::Committing => Some(Command::Commit),
            DeprovisionState::RollingBack(_) => Some(Command::Rollback),
            DeprovisionState::Finished(_) => None,
        }
    }

    /// The state after the current command gave `reply`. An absent account,
    /// a delete that affected other than the one row the account has, or any
    /// failure once the transaction is open leads to a rollback; the commit
    /// comes only after all four deletes.
    pub open spec fn spec_next(self, reply: Result<u64, StoreFailure>) -> DeprovisionState {
        match self {
            DeprovisionState::Opening => match reply {
                Ok(_) => DeprovisionState::Checking,
                Err(f) => DeprovisionState::Finished(Err(DeletionError::DatabaseError(f))),
            },
            DeprovisionState::Checking => match reply {
                Ok(n) => if n == 0 {
                    DeprovisionState::RollingBack(DeletionError::NotFoundRecord)
                } else {
                    DeprovisionState::Deleting(Table::Endpoints)
                },
                Err(f) => DeprovisionState::RollingBack(DeletionError::DatabaseError(f)),
            },
            DeprovisionState::Deleting(t) => match reply {
                Ok(n) => if n != 1 {
                    DeprovisionState::RollingBack(DeletionError::DeletionFailed)
                } else {
                    match delete_after(t) {
                        Some(u) => DeprovisionState::Deleting(u),
                        None => DeprovisionState::Committing,
                    }
                },
                Err(f) => DeprovisionState::RollingBack(DeletionError::DatabaseError(f)),
            },
            DeprovisionState::Committing => match reply {
                Ok(_) => DeprovisionState::Finished(Ok(())),
                Err(f) => DeprovisionState::RollingBack(DeletionError::DatabaseError(f)),
            },
            DeprovisionState::RollingBack(e) => DeprovisionState::Finished(Err(e)),
            DeprovisionState::Finished(r) => DeprovisionState::Finished(r),
        }
    }

    pub fn start() -> (r: DeprovisionState)
        ensures
            r == DeprovisionState::Opening,
    {
        DeprovisionState::Opening
    }

    /// The command to perform next, or `None` once finished.
    pub fn command(&self) -> (r: Option<Command>)
        ensures
            r == self.spec_command(),
    {
        match self {
            DeprovisionState::Opening => Some(Command::Begin),
            DeprovisionState::Checking => Some(Command::FindAccount),
            DeprovisionState::Deleting(t) => Some(Command::Delete(*t)),
            DeprovisionState::Committing => Some(Command::Commit),
            DeprovisionState::RollingBack(_) => Some(Command::Rollback),
            DeprovisionState::Finished(_) => None,
        }
    }

    pub fn advance(self, reply: Result<u64, StoreFailure>) -> (r: DeprovisionState)
        ensures
            r == self.spec_next(reply),
    {
        match self {
            DeprovisionState::Opening => match reply {
                Ok(_) => DeprovisionState::Checking,
                Err(f) => DeprovisionState::Finished(Err(DeletionError::DatabaseError(f))),
            },
            DeprovisionState::Checking => match reply {
                Ok(n) => if n == 0 {
                    DeprovisionState::RollingBack(DeletionError::NotFoundRecord)
                } else {
                    DeprovisionState::Deleting(Table::Endpoints)
                },
                Err(f) => DeprovisionState::RollingBack(DeletionError::DatabaseError(f)),
            },
            DeprovisionState::Deleting(t) => match reply {
                Ok(n) => if n != 1 {
                    DeprovisionState::RollingBack(DeletionError::DeletionFailed)
                } else {
                    match next_delete(t) {
                        Some(u) => DeprovisionState::Deleting(u),
                        None => DeprovisionState::Committing,
                    }
                },
                Err(f) => DeprovisionState::RollingBack(DeletionError::DatabaseError(f)),
            },
            DeprovisionState::Committing => match reply {
                Ok(_) => DeprovisionState::Finished(Ok(())),
                Err(f) => DeprovisionState::RollingBack(DeletionError::DatabaseError(f)),
            },
            DeprovisionState::RollingBack(e) => DeprovisionState::Finished(Err(e)),
            DeprovisionState::Finished(r) => DeprovisionState::Finished(r),
        }
    }

    /// The result, once finished.
    pub fn outcome(self) -> (r: Option<Result<(), DeletionError>>)
        ensures
            r == match self {
                DeprovisionState::Finished(x) => Some(x),
                _ => None,
            },
    {
        match self {
            DeprovisionState::Finished(x) => Some(x),
            _ => None,
        }
    }
}

/// Provisioning commits only once all four inserts, in order, affected a
/// row: the commit follows only a successful endpoint insert, and each insert
/// follows only the success of the one before it (the first, a duplicate
/// check that found nothing). It reports success only after the commit, and
/// once the transaction is open it reports a failure only after a rollback.
pub proof fn law_provision_commits_only_after_all_inserts(
    s: ProvisionState,
    reply: Result<u64, StoreFailure>,
)
    ensures
        s.spec_next(reply) is Committing ==> (s == ProvisionState::Inserting(Table::Endpoints)
            && (reply matches Ok(n) && n > 0)),
        s.spec_next(reply) matches ProvisionState::Inserting(t) ==> (reply matches Ok(n) && (
        (t == Table::Accounts && s is Checking && n == 0) || (s matches ProvisionState::Inserting(
            u,
        ) && insert_after(u) == Some(t) && n > 0))),
        s.spec_next(reply) == ProvisionState::Finished(Ok::<(), RegistrationError>(())) ==> (
        s is Committing || s == ProvisionState::Finished(Ok::<(), RegistrationError>(()))),
        s.spec_next(reply) matches ProvisionState::Finished(Err(_)) ==> (s is Opening
            || s is RollingBack || s is Finished),
{
}

/// Deprovisioning commits only once the account was found and all four
/// deletes, endpoint first and account last, affected exactly one row. It
/// reports success only after the commit, and once the transaction is open
/// it reports a failure only after a rollback.
pub proof fn law_deprovision_commits_only_after_all_deletes(
    s: DeprovisionState,
    reply: Result<u64, StoreFailure>,
)
    ensures
        s.spec_next(reply) is Committing ==> (s == DeprovisionState::Deleting(Table::Accounts)
            && reply == Ok::<u64, StoreFailure>(1)),
        s.spec_next(reply) matches DeprovisionState::Deleting(t) ==> (reply matches Ok(n) && (
        (t == Table::Endpoints && s is Checking && n > 0) || (s matches DeprovisionState::Deleting(
            u,
        ) && delete_after(u) == Some(t) && n == 1))),
        s.spec_next(reply) == DeprovisionState::Finished(Ok::<(), DeletionError>(())) ==> (
        s is Committing || s == DeprovisionState::Finished(Ok::<(), DeletionError>(()))),
        s.spec_next(reply) matches DeprovisionState::Finished(Err(_)) ==> (s is Opening
            || s is RollingBack || s is Finished),
{
}

} // verus!
