use vstd::prelude::*;

verus! {

/// Errors returned by the commitment ledger.
#[derive(Clone, Copy, Debug, PartialEq, Eq, Structural)]
pub enum Error {
    /// No admin or certificate issuer has been configured yet.
    NotInitialized,
    /// `initialize` was called a second time.
    AlreadyInitialized,
    /// The caller lacks the role the operation asks for.
    Unauthorized,
    /// Kept for callers that match on the access-control family as a whole.
    AccessControlError,
    /// The amount to lock is not strictly positive.
    InvalidAmount,
    /// `duration_days` is zero.
    InvalidDuration,
    /// `max_loss_percent` is above 100.
    InvalidMaxLoss,
    /// The commitment type is none of "safe", "balanced", "aggressive".
    InvalidCommitmentType,
    /// The asset is not in the configured whitelist.
    AssetNotSupported,
    /// No commitment is stored under the given id.
    CommitmentNotFound,
    /// A commitment already exists under a freshly generated id.
    InvalidState,
    /// The commitment is no longer `Active`.
    NotActive,
    /// The commitment has already been settled.
    AlreadySettled,
    /// The commitment has not reached `expires_at` yet.
    NotExpired,
    /// A mutating operation is already in flight.
    ReentrancyDetected,
    /// The system is in emergency mode.
    EmergencyMode,
    /// The caller is rate-limited for this operation.
    RateLimited,
    /// A timestamp or a value counter would leave its integer range.
    ArithmeticOverflow,
    /// The operation that was to be completed is not the one in flight.
    NoOperationInFlight,
}

/// Errors of the access-control component.
#[derive(Clone, Copy, Debug, PartialEq, Eq, Structural)]
pub enum AccessControlError {
    NotInitialized,
    Unauthorized,
    AlreadyAuthorized,
    NotAuthorized,
    InvalidAddress,
}

/// The ledger error that an access-control failure becomes.
pub open spec fn error_of_access(e: AccessControlError) -> Error {
    match e {
        AccessControlError::NotInitialized => Error::NotInitialized,
        _ => Error::Unauthorized,
    }
}

impl From<AccessControlError> for Error {
    fn from(err: AccessControlError) -> (r: Error)
        ensures
            r == error_of_access(err),
    {
        match err {
            AccessControlError::NotInitialized => Error::NotInitialized,
            AccessControlError::Unauthorized => Error::Unauthorized,
            AccessControlError::AlreadyAuthorized => Error::Unauthorized,
            AccessControlError::NotAuthorized => Error::Unauthorized,
            AccessControlError::InvalidAddress => Error::Unauthorized,
        }
    }
}

impl vstd::std_specs::convert::FromSpecImpl<AccessControlError> for Error {
    open spec fn obeys_from_spec() -> bool {
        true
    }

    open spec fn from_spec(v: AccessControlError) -> Error {
        error_of_access(v)
    }
}

} // verus!
