//! The two failure channels of admission. `UserInputError` is recoverable
//! and safe to report back to the submitting client. `InvariantViolation`
//! means the ledger broke its own contract with the checks; callers must
//! escalate it loudly instead of answering the client, so it is a distinct
//! type, never a variant of the user error enum.

use vstd::prelude::*;
use crate::objects::{ObjectDigest, ObjectId, ObjectRef, SuiAddress};

verus! {

/// A malformed, stale, unauthorized, or resource-exceeding transaction.
#[derive(Clone, PartialEq, Eq, Debug)]
pub enum UserInputError {
    /// A count exceeded a configured limit; `limit` is the configured
    /// maximum and `value` the offending count.
    SizeLimitExceeded { limit: u64, value: u64 },
    /// The same id was taken mutably more than once.
    MutableObjectUsedMoreThanOnce { object_id: ObjectId },
    /// A non-genesis transaction declared no inputs at all.
    ObjectInputArityViolation,
    /// A referenced object does not exist (at the given version, when one
    /// was declared).
    ObjectNotFound { object_id: ObjectId, version: Option<u64> },
    /// A declared version does not lie below the reserved sentinel.
    InvalidSequenceNumber,
    /// A receiving reference names a version that is not the object's
    /// current one.
    ObjectVersionUnavailableForConsumption { provided_obj_ref: ObjectRef, current_version: u64 },
    /// An object claimed as a plain object is a package.
    MovePackageAsObject { object_id: ObjectId },
    /// An object claimed as a package is not one.
    MoveObjectAsPackage { object_id: ObjectId },
    /// The declared digest does not match the object's digest: the client
    /// referenced a stale or forged reference.
    InvalidObjectDigest { object_id: ObjectId, expected_digest: ObjectDigest },
    /// The object is owned by `actual_owner`, not by the signer the
    /// transaction presented for it.
    IncorrectUserSignature { object_id: ObjectId, actual_owner: SuiAddress, given_owner: SuiAddress },
    /// A child object was passed as a top-level input; it must be reached
    /// through its parent.
    InvalidChildObjectArgument { child_id: ObjectId, parent_id: ObjectId },
    /// A shared declaration was used on an object that is not shared.
    NotSharedObjectError,
    /// A shared input's declared initial shared version differs from the
    /// object's actual one.
    SharedObjectStartingVersionMismatch,
    /// The clock singleton may be taken mutably only by a system
    /// transaction.
    ImmutableParameterExpectedError { object_id: ObjectId },
    /// The authenticator-state singleton is off limits outside system
    /// transactions.
    InaccessibleSystemObject { object_id: ObjectId },
    /// A receiving reference named an immutable object.
    MutableParameterExpected { object_id: ObjectId },
    /// A receiving id coincides with another id already used by the
    /// transaction.
    DuplicateObjectRefInput,
    /// A non-system transaction declared no gas coins.
    MissingGasPayment,
    /// The declared budget exceeds the protocol's maximum.
    GasBudgetTooHigh { gas_budget: u64, max_budget: u64 },
    /// The declared budget lies below the protocol's minimum.
    GasBudgetTooLow { gas_budget: u64, min_budget: u64 },
    /// The declared gas price lies below the reference gas price.
    GasPriceUnderReferenceGasPrice { gas_price: u64, reference_gas_price: u64 },
    /// The declared gas price exceeds the protocol's maximum.
    GasPriceTooHigh { gas_price: u64, max_gas_price: u64 },
    /// The combined balance of the declared gas coins does not cover the
    /// budget.
    GasBalanceTooLow { gas_balance: u128, needed_gas_amount: u128 },
    /// Metered verification of the published modules exhausted the shared
    /// budget for the whole transaction.
    PackageVerificationTimedout { meter_budget: u64 },
    /// System transaction kinds are not accepted in dev-inspect.
    UnsupportedTransactionKind,
    /// The deny policy gate refused the transaction.
    TransactionDenied { reason: String },
    /// The transaction's message version is not supported here.
    UnsupportedMessageVersion { declared: u64, max_supported: u64 },
}

/// The ledger or an upstream component broke a contract the checks rely on.
/// Never shown to the client; the caller aborts or alerts.
#[derive(Clone, PartialEq, Eq, Debug)]
pub enum InvariantViolation {
    /// An object fetched by (id, version) came back at a different version.
    ObjectVersionMismatch { object_id: ObjectId, expected_version: u64, fetched_version: u64 },
    /// A certificate was formed over a message version that was never
    /// admissible, so signing can never have succeeded.
    CertificateWithUnsupportedVersion { declared: u64, max_supported: u64 },
}

/// Transport for the two channels through one `Result`. The channels stay
/// distinct types; matching on this forces a caller to treat them apart.
#[derive(Clone, PartialEq, Eq, Debug)]
pub enum CheckError {
    User(UserInputError),
    Invariant(InvariantViolation),
}

} // verus!
