use vstd::prelude::*;

verus! {

/// Why a store operation was refused.
#[derive(Debug, Clone, Copy, PartialEq, Eq, Structural)]
pub enum StoreError {
    /// No registered service, or no user, has that name.
    NotFound,
    /// A user with that name exists already.
    AlreadyExists,
    /// The operation would remove the only remaining administrator.
    LastAdminProtected,
    /// Malformed input: a bad username or an empty password.
    ValidationFailed,
    /// Persisted state that cannot be taken in (for instance two records with one username).
    PersistenceFailed,
    /// The password hasher refused to produce a hash.
    HashingFailed,
}

impl StoreError {
    /// A short operator-facing description.
    pub fn message(&self) -> (r: &'static str) {
        match self {
            StoreError::NotFound => "not found",
            StoreError::AlreadyExists => "already exists",
            StoreError::LastAdminProtected => "cannot remove the last admin user",
            StoreError::ValidationFailed => "validation failed",
            StoreError::PersistenceFailed => "persisted state is invalid",
            StoreError::HashingFailed => "password hashing failed",
        }
    }
}

} // verus!
