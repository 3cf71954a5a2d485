//! The ownership/consistency checker and the mutability-uniqueness guard:
//! every resolved input must match its declared kind, version, digest and
//! owner, and no mutable id may appear twice.

use vstd::prelude::*;
use crate::config::ProtocolConfig;
use crate::errors::{CheckError, InvariantViolation, UserInputError};
use crate::objects::{
    InputObjectKind, InputObjects, Object, ObjectId, ObjectReadResult, ObjectReadResultKind,
    Owner, SuiAddress, AUTHENTICATOR_STATE_OBJECT_ID, CLOCK_OBJECT_ID,
    CLOCK_OBJECT_SHARED_VERSION, MAX_SEQUENCE_NUMBER,
};
use crate::transaction::TransactionData;

verus! {

/// Whether a vector of ids holds the given id.
pub fn contains_id(ids: &Vec<ObjectId>, id: ObjectId) -> (r: bool)
    ensures
        r == ids@.contains(id),
{
    let mut k: usize = 0;
    while k < ids.len()
        invariant
            0 <= k <= ids@.len(),
            forall|m: int| 0 <= m < k ==> ids@[m] != id,
        decreases ids@.len() - k,
    {
        if ids[k] == id {
            assert(ids@.contains(id));
            return true;
        }
        k += 1;
    }
    false
}

/// The input count must respect the configured limit.
pub open spec fn spec_check_input_objects(
    objects: Seq<ObjectReadResult>,
    config: ProtocolConfig,
) -> Result<(), UserInputError> {
    if objects.len() > config.max_input_objects {
        Err(UserInputError::SizeLimitExceeded {
            limit: config.max_input_objects,
            value: objects.len() as u64,
        })
    } else {
        Ok(())
    }
}

/// Reject input sets larger than the configured limit, whatever they hold.
pub fn check_input_objects(objects: &InputObjects, protocol_config: &ProtocolConfig) -> (r:
    Result<(), UserInputError>)
    ensures
        r == spec_check_input_objects(objects@, *protocol_config),
{
    if objects.len() as u64 > protocol_config.max_input_objects {
        Err(UserInputError::SizeLimitExceeded {
            limit: protocol_config.max_input_objects,
            value: objects.len() as u64,
        })
    } else {
        Ok(())
    }
}

/// The owner a present object is expected to have: the gas owner for
/// declared gas coins, the sender for everything else.
pub open spec fn spec_expected_owner(tx: TransactionData, id: ObjectId) -> SuiAddress {
    if tx.spec_gas_references_id(id) {
        tx.gas_owner
    } else {
        tx.sender
    }
}

/// The per-kind dispatch over one present input object. Exactly one check
/// can only be violated by the ledger itself, not by the client: an object
/// fetched by (id, version) coming back at another version, reported on the
/// invariant channel.
pub open spec fn spec_check_one_object(
    owner: SuiAddress,
    object_kind: InputObjectKind,
    object: Object,
    system_transaction: bool,
) -> Result<(), CheckError> {
    match object_kind {
        InputObjectKind::MovePackage(package_id) => {
            if !object.is_package {
                Err(CheckError::User(UserInputError::MoveObjectAsPackage { object_id: package_id }))
            } else {
                Ok(())
            }
        },
        InputObjectKind::ImmOrOwnedMoveObject(object_ref) => {
            if object.is_package {
                Err(CheckError::User(UserInputError::MovePackageAsObject {
                    object_id: object_ref.id,
                }))
            } else if object_ref.version >= MAX_SEQUENCE_NUMBER {
                Err(CheckError::User(UserInputError::InvalidSequenceNumber))
            } else if object.version != object_ref.version {
                Err(CheckError::Invariant(InvariantViolation::ObjectVersionMismatch {
                    object_id: object.id,
                    expected_version: object_ref.version,
                    fetched_version: object.version,
                }))
            } else if object.digest != object_ref.digest {
                Err(CheckError::User(UserInputError::InvalidObjectDigest {
                    object_id: object_ref.id,
                    expected_digest: object.digest,
                }))
            } else {
                match object.owner {
                    Owner::Immutable => Ok(()),
                    Owner::AddressOwner(actual_owner) => {
                        if owner == actual_owner {
                            Ok(())
                        } else {
                            Err(CheckError::User(UserInputError::IncorrectUserSignature {
                                object_id: object_ref.id,
                                actual_owner,
                                given_owner: owner,
                            }))
                        }
                    },
                    Owner::ObjectOwner(parent) => {
                        Err(CheckError::User(UserInputError::InvalidChildObjectArgument {
                            child_id: object.id,
                            parent_id: parent,
                        }))
                    },
                    Owner::Shared { .. } => {
                        Err(CheckError::User(UserInputError::NotSharedObjectError))
                    },
                }
            }
        },
        InputObjectKind::SharedMoveObject { id, initial_shared_version, mutable } => {
            if id.0 == CLOCK_OBJECT_ID && initial_shared_version == CLOCK_OBJECT_SHARED_VERSION
                && mutable {
                if system_transaction {
                    Ok(())
                } else {
                    Err(CheckError::User(UserInputError::ImmutableParameterExpectedError {
                        object_id: id,
                    }))
                }
            } else if id.0 == AUTHENTICATOR_STATE_OBJECT_ID {
                if system_transaction {
                    Ok(())
                } else {
                    Err(CheckError::User(UserInputError::InaccessibleSystemObject {
                        object_id: id,
                    }))
                }
            } else if object.version >= MAX_SEQUENCE_NUMBER {
                Err(CheckError::User(UserInputError::InvalidSequenceNumber))
            } else {
                match object.owner {
                    Owner::AddressOwner(_) | Owner::ObjectOwner(_) | Owner::Immutable => {
                        Err(CheckError::User(UserInputError::NotSharedObjectError))
                    },
                    Owner::Shared { initial_shared_version: actual_initial_shared_version } => {
                        if initial_shared_version != actual_initial_shared_version {
                            Err(CheckError::User(
                                UserInputError::SharedObjectStartingVersionMismatch,
                            ))
                        } else {
                            Ok(())
                        }
                    },
                }
            }
        },
    }
}

/// Check one present object against its declared kind.
pub fn check_one_object(
    owner: &SuiAddress,
    object_kind: InputObjectKind,
    object: &Object,
    system_transaction: bool,
) -> (r: Result<(), CheckError>)
    ensures
        r == spec_check_one_object(*owner, object_kind, *object, system_transaction),
{
    match object_kind {
        InputObjectKind::MovePackage(package_id) => {
            if !object.is_package {
                Err(CheckError::User(UserInputError::MoveObjectAsPackage { object_id: package_id }))
            } else {
                Ok(())
            }
        },
        InputObjectKind::ImmOrOwnedMoveObject(object_ref) => {
            if object.is_package {
                Err(CheckError::User(UserInputError::MovePackageAsObject {
                    object_id: object_ref.id,
                }))
            } else if object_ref.version >= MAX_SEQUENCE_NUMBER {
                Err(CheckError::User(UserInputError::InvalidSequenceNumber))
            } else if object.version != object_ref.version {
                Err(CheckError::Invariant(InvariantViolation::ObjectVersionMismatch {
                    object_id: object.id,
                    expected_version: object_ref.version,
                    fetched_version: object.version,
                }))
            } else if object.digest != object_ref.digest {
                Err(CheckError::User(UserInputError::InvalidObjectDigest {
                    object_id: object_ref.id,
                    expected_digest: object.digest,
                }))
            } else {
                match object.owner {
                    Owner::Immutable => Ok(()),
                    Owner::AddressOwner(actual_owner) => {
                        if *owner == actual_owner {
                            Ok(())
                        } else {
                            Err(CheckError::User(UserInputError::IncorrectUserSignature {
                                object_id: object_ref.id,
                                actual_owner,
                                given_owner: *owner,
                            }))
                        }
                    },
                    Owner::ObjectOwner(parent) => {
                        Err(CheckError::User(UserInputError::InvalidChildObjectArgument {
                            child_id: object.id,
                            parent_id: parent,
                        }))
                    },
                    Owner::Shared { .. } => {
                        Err(CheckError::User(UserInputError::NotSharedObjectError))
                    },
                }
            }
        },
        InputObjectKind::SharedMoveObject { id, initial_shared_version, mutable } => {
            if id.0 == CLOCK_OBJECT_ID && initial_shared_version == CLOCK_OBJECT_SHARED_VERSION
                && mutable {
                if system_transaction {
                    Ok(())
                } else {
                    Err(CheckError::User(UserInputError::ImmutableParameterExpectedError {
                        object_id: id,
                    }))
                }
            } else if id.0 == AUTHENTICATOR_STATE_OBJECT_ID {
                if system_transaction {
                    Ok(())
                } else {
                    Err(CheckError::User(UserInputError::InaccessibleSystemObject {
                        object_id: id,
                    }))
                }
            } else if object.version >= MAX_SEQUENCE_NUMBER {
                Err(CheckError::User(UserInputError::InvalidSequenceNumber))
            } else {
                match object.owner {
                    Owner::AddressOwner(_) | Owner::ObjectOwner(_) | Owner::Immutable => {
                        Err(CheckError::User(UserInputError::NotSharedObjectError))
                    },
                    Owner::Shared { initial_shared_version: actual_initial_shared_version } => {
                        if initial_shared_version != actual_initial_shared_version {
                            Err(CheckError::User(
                                UserInputError::SharedObjectStartingVersionMismatch,
                            ))
                        } else {
                            Ok(())
                        }
                    },
                }
            }
        },
    }
}

/// First id, scanning from position `i` with the mutable ids in `seen`
/// already taken, that is taken mutably a second time.
pub open spec fn spec_first_dup_mutable_from(
    objects: Seq<ObjectReadResult>,
    i: int,
    seen: Seq<ObjectId>,
) -> Option<ObjectId>
    decreases objects.len() - i,
{
    if i < 0 || i >= objects.len() {
        None
    } else if objects[i].spec_is_mutable() && seen.contains(objects[i].spec_id()) {
        Some(objects[i].spec_id())
    } else if objects[i].spec_is_mutable() {
        spec_first_dup_mutable_from(objects, i + 1, seen.push(objects[i].spec_id()))
    } else {
        spec_first_dup_mutable_from(objects, i + 1, seen)
    }
}

/// The check applied to the input at position `i`: present objects go
/// through the per-kind dispatch; tombstones of deleted shared objects no
/// longer exist and are merely recorded, so nothing is checked on them.
pub open spec fn spec_object_at_check(
    tx: TransactionData,
    objects: Seq<ObjectReadResult>,
    i: int,
) -> Result<(), CheckError> {
    match objects[i].object {
        ObjectReadResultKind::Object(object) => spec_check_one_object(
            spec_expected_owner(tx, object.id),
            objects[i].input_object_kind,
            object,
            tx.spec_is_system_tx(),
        ),
        ObjectReadResultKind::DeletedSharedObject(..) => Ok(()),
    }
}

/// First failure of the per-object pass from position `i` on.
pub open spec fn spec_check_objects_from(
    tx: TransactionData,
    objects: Seq<ObjectReadResult>,
    i: int,
) -> Result<(), CheckError>
    decreases objects.len() - i,
{
    if i < 0 || i >= objects.len() {
        Ok(())
    } else {
        match spec_object_at_check(tx, objects, i) {
            Err(e) => Err(e),
            Ok(_) => spec_check_objects_from(tx, objects, i + 1),
        }
    }
}

/// The whole ownership/consistency pass: the uniqueness guard first, then
/// the non-empty-input rule (genesis excepted), then the per-object checks
/// in order, failing on the first violation.
pub open spec fn spec_check_objects(tx: TransactionData, objects: Seq<ObjectReadResult>) -> Result<
    (),
    CheckError,
> {
    match spec_first_dup_mutable_from(objects, 0, Seq::empty()) {
        Some(id) => Err(CheckError::User(UserInputError::MutableObjectUsedMoreThanOnce {
            object_id: id,
        })),
        None => {
            if !tx.spec_is_genesis_tx() && objects.len() == 0 {
                Err(CheckError::User(UserInputError::ObjectInputArityViolation))
            } else {
                spec_check_objects_from(tx, objects, 0)
            }
        },
    }
}

/// Check every input of the transaction against the ledger snapshot it was
/// resolved from: mutable ids are unique, the input set is non-empty unless
/// the transaction is genesis, and each present object matches its declared
/// kind, version, digest and owner.
pub fn check_objects(transaction: &TransactionData, objects: &InputObjects) -> (r: Result<
    (),
    CheckError,
>)
    ensures
        r == spec_check_objects(*transaction, objects@),
{
    let ghost all = objects@;
    let mut seen: Vec<ObjectId> = Vec::new();
    let mut i: usize = 0;
    while i < objects.objects.len()
        invariant
            0 <= i <= all.len(),
            all == objects@,
            spec_first_dup_mutable_from(all, i as int, seen@) == spec_first_dup_mutable_from(
                all,
                0,
                Seq::<ObjectId>::empty(),
            ),
        decreases all.len() - i,
    {
        let object = &objects.objects[i];
        if object.is_mutable() {
            let id = object.id();
            if contains_id(&seen, id) {
                return Err(CheckError::User(UserInputError::MutableObjectUsedMoreThanOnce {
                    object_id: id,
                }));
            }
            seen.push(id);
        }
        i += 1;
    }

    if !transaction.is_genesis_tx() && objects.is_empty() {
        return Err(CheckError::User(UserInputError::ObjectInputArityViolation));
    }

    let mut j: usize = 0;
    while j < objects.objects.len()
        invariant
            0 <= j <= all.len(),
            all == objects@,
            spec_first_dup_mutable_from(all, 0, Seq::<ObjectId>::empty()) is None,
            !(!transaction.spec_is_genesis_tx() && all.len() == 0),
            spec_check_objects_from(*transaction, all, j as int) == spec_check_objects_from(
                *transaction,
                all,
                0,
            ),
        decreases all.len() - j,
    {
        let input = &objects.objects[j];
        match &input.object {
            ObjectReadResultKind::Object(object) => {
                let owner_address = if transaction.gas_references_id(object.id) {
                    transaction.gas_owner
                } else {
                    transaction.sender
                };
                let system_transaction = transaction.is_system_tx();
                match check_one_object(
                    &owner_address,
                    input.input_object_kind,
                    object,
                    system_transaction,
                ) {
                    Err(e) => {
                        return Err(e);
                    },
                    Ok(_) => {},
                }
            },
            ObjectReadResultKind::DeletedSharedObject(..) => {},
        }
        j += 1;
    }
    Ok(())
}

/// A pass that reported no violation really did clear every single input:
/// from any position the pass covers, each later input's check is `Ok`.
pub proof fn lemma_check_objects_from_ok(
    tx: TransactionData,
    objects: Seq<ObjectReadResult>,
    i: int,
    j: int,
)
    requires
        0 <= i <= j < objects.len(),
        spec_check_objects_from(tx, objects, i) is Ok,
    ensures
        spec_object_at_check(tx, objects, j) is Ok,
    decreases j - i,
{
    if i < j {
        lemma_check_objects_from_ok(tx, objects, i + 1, j);
    }
}

} // verus!
