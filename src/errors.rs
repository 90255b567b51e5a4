use vstd::prelude::*;

verus! {

/// The input field that a validation failure is about.
#[derive(Debug, Clone, Copy, PartialEq, Eq, Structural)]
pub enum InputField {
    Id,
    Username,
}

/// Why an input field was refused.
#[derive(Debug, Clone, Copy, PartialEq, Eq, Structural)]
pub enum ValidationReason {
    Empty,
    TooLong,
}

/// A failure reported by the storage behind a transaction.
#[derive(Debug, Clone)]
pub enum StoreFailure {
    /// A unique constraint (on id or on username) refused a write.
    UniqueViolation(String),
    /// Any other storage failure, with the store's own message.
    Other(String),
}

/// Why provisioning an account failed.
#[derive(Debug, Clone)]
pub enum RegistrationError {
    /// Malformed input, found before any storage work.
    ValidationError(InputField, ValidationReason),
    /// An account with the same id or username already exists.
    DuplicateError,
    /// An insert affected no row inside an otherwise error-free transaction.
    InsertionFailed,
    /// Any other storage failure.
    DatabaseError(StoreFailure),
}

/// Why deprovisioning an account failed.
#[derive(Debug, Clone)]
pub enum DeletionError {
    /// The id of the account to remove is empty; found before any storage work.
    IdNotSpecified,
    /// No account has the given id.
    NotFoundRecord,
    /// A delete affected a row count other than the one existence implies.
    DeletionFailed,
    /// Any storage failure.
    DatabaseError(StoreFailure),
}

impl StoreFailure {
    pub open spec fn spec_detail(self) -> Seq<char> {
        match self {
            StoreFailure::UniqueViolation(m) => m@,
            StoreFailure::Other(m) => m@,
        }
    }

    /// The store's own message.
    pub fn detail(&self) -> (r: String)
        ensures
            r@ == self.spec_detail(),
    {
        match self {
            StoreFailure::UniqueViolation(m) => m.clone(),
            StoreFailure::Other(m) => m.clone(),
        }
    }
}

impl RegistrationError {
    pub open spec fn spec_message(self) -> Seq<char> {
        match self {
            RegistrationError::ValidationError(InputField::Id, ValidationReason::Empty) => "Validation error: ID cannot be empty"@,
            RegistrationError::ValidationError(InputField::Id, ValidationReason::TooLong) => "Validation error: ID is too long"@,
            RegistrationError::ValidationError(InputField::Username, ValidationReason::Empty) => "Validation error: Username cannot be empty"@,
            RegistrationError::ValidationError(InputField::Username, ValidationReason::TooLong) => "Validation error: Username is too long"@,
            RegistrationError::DuplicateError => "Account with this ID or username already exists"@,
            RegistrationError::InsertionFailed => "Insertion failed"@,
            RegistrationError::DatabaseError(f) => "Database error: "@ + f.spec_detail(),
        }
    }

    /// A human-readable description of the failure.
    pub fn message(&self) -> (r: String)
        ensures
            r@ == self.spec_message(),
    {
        match self {
            RegistrationError::ValidationError(InputField::Id, ValidationReason::Empty) => String::from_str("Validation error: ID cannot be empty"),
            RegistrationError::ValidationError(InputField::Id, ValidationReason::TooLong) => String::from_str("Validation error: ID is too long"),
            RegistrationError::ValidationError(InputField::Username, ValidationReason::Empty) => String::from_str("Validation error: Username cannot be empty"),
            RegistrationError::ValidationError(InputField::Username, ValidationReason::TooLong) => String::from_str("Validation error: Username is too long"),
            RegistrationError::DuplicateError => String::from_str("Account with this ID or username already exists"),
            RegistrationError::InsertionFailed => String::from_str("Insertion failed"),
            RegistrationError::DatabaseError(f) => {
                let detail = f.detail();
                String::from_str("Database error: ").concat(detail.as_str())
            },
        }
    }
}

impl DeletionError {
    pub open spec fn spec_message(self) -> Seq<char> {
        match self {
            DeletionError::IdNotSpecified => "Account ID not specified"@,
            DeletionError::NotFoundRecord => "No record found for the given ID"@,
            DeletionError::DeletionFailed => "Deletion failed"@,
            DeletionError::DatabaseError(f) => "Database error: "@ + f.spec_detail(),
        }
    }

    /// A human-readable description of the failure.
    pub fn message(&self) -> (r: String)
        ensures
            r@ == self.spec_message(),
    {
        match self {
            DeletionError::IdNotSpecified => String::from_str("Account ID not specified"),
            DeletionError::NotFoundRecord => String::from_str("No record found for the given ID"),
            DeletionError::DeletionFailed => String::from_str("Deletion failed"),
            DeletionError::DatabaseError(f) => {
                let detail = f.detail();
                String::from_str("Database error: ").concat(detail.as_str())
            },
        }
    }
}

} // verus!
