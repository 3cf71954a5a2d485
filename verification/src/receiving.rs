//! The receiving-object freshness checker, run on the signing path only.
//! Every receiving reference must either match the live object exactly or
//! be recorded as already received this epoch, and its id must not coincide
//! with any other id the transaction uses.

use vstd::prelude::*;
use crate::config::ProtocolConfig;
use crate::errors::UserInputError;
use crate::objects::{
    InputObjects, Object, ObjectId, ObjectReadResult, ObjectRef, Owner, MAX_SEQUENCE_NUMBER,
};
use crate::store::LedgerSnapshot;
use crate::checks::contains_id;

verus! {

/// The ids of the declared input kinds, in order.
pub open spec fn spec_input_kind_ids(objects: Seq<ObjectReadResult>) -> Seq<ObjectId> {
    objects.map_values(|o: ObjectReadResult| o.spec_id())
}

/// Whether the live object satisfies the fast acceptance path: it exists,
/// is address-owned, and stands at exactly the declared version and digest.
pub open spec fn spec_live_match(live: Option<Object>, r: ObjectRef) -> bool {
    live matches Some(object) && object.spec_is_address_owned() && object.version == r.version
        && object.digest == r.digest
}

/// Freshness of one receiving reference against the snapshot, before any
/// duplicate bookkeeping. Acceptance is owed exactly when the reference
/// matches the live object or the replay table records the receive; the
/// rejections classify what went wrong, mirroring the owner dispatch of the
/// ownership checker. An address-owned object that still reaches the
/// classification can only mean the two acceptance checks disagreed, which
/// cannot happen; that arm fails closed as "not found".
pub open spec fn spec_receiving_ref_check(
    store: LedgerSnapshot,
    epoch_id: u64,
    r: ObjectRef,
) -> Result<(), UserInputError> {
    if r.version >= MAX_SEQUENCE_NUMBER {
        Err(UserInputError::InvalidSequenceNumber)
    } else {
        let live = store.spec_get_object(r.id);
        if spec_live_match(live, r) || store.spec_has_received(r.id, r.version, epoch_id) {
            Ok(())
        } else {
            match live {
                None => Err(UserInputError::ObjectNotFound {
                    object_id: r.id,
                    version: Some(r.version),
                }),
                Some(object) => {
                    if object.version != r.version {
                        Err(UserInputError::ObjectVersionUnavailableForConsumption {
                            provided_obj_ref: r,
                            current_version: object.version,
                        })
                    } else if object.is_package {
                        Err(UserInputError::MovePackageAsObject { object_id: r.id })
                    } else if object.digest != r.digest {
                        Err(UserInputError::InvalidObjectDigest {
                            object_id: r.id,
                            expected_digest: object.digest,
                        })
                    } else {
                        match object.owner {
                            Owner::AddressOwner(_) => Err(UserInputError::ObjectNotFound {
                                object_id: r.id,
                                version: Some(r.version),
                            }),
                            Owner::ObjectOwner(parent) => Err(
                                UserInputError::InvalidChildObjectArgument {
                                    child_id: object.id,
                                    parent_id: parent,
                                },
                            ),
                            Owner::Shared { .. } => Err(UserInputError::NotSharedObjectError),
                            Owner::Immutable => Err(UserInputError::MutableParameterExpected {
                                object_id: r.id,
                            }),
                        }
                    }
                },
            }
        }
    }
}

/// Freshness of one receiving reference, classified as above.
pub fn receiving_ref_check(store: &LedgerSnapshot, epoch_id: u64, r: &ObjectRef) -> (res: Result<
    (),
    UserInputError,
>)
    ensures
        res == spec_receiving_ref_check(*store, epoch_id, *r),
{
    if r.version >= MAX_SEQUENCE_NUMBER {
        return Err(UserInputError::InvalidSequenceNumber);
    }
    let live = store.get_object(r.id);
    let fast = match &live {
        Some(object) => object.is_address_owned() && object.version == r.version && object.digest
            == r.digest,
        None => false,
    };
    if fast || store.have_received_object_at_version(r.id, r.version, epoch_id) {
        return Ok(());
    }
    match live {
        None => Err(UserInputError::ObjectNotFound { object_id: r.id, version: Some(r.version) }),
        Some(object) => {
            if object.version != r.version {
                Err(UserInputError::ObjectVersionUnavailableForConsumption {
                    provided_obj_ref: *r,
                    current_version: object.version,
                })
            } else if object.is_package {
                Err(UserInputError::MovePackageAsObject { object_id: r.id })
            } else if object.digest != r.digest {
                Err(UserInputError::InvalidObjectDigest {
                    object_id: r.id,
                    expected_digest: object.digest,
                })
            } else {
                match object.owner {
                    Owner::AddressOwner(_) => Err(UserInputError::ObjectNotFound {
                        object_id: r.id,
                        version: Some(r.version),
                    }),
                    Owner::ObjectOwner(parent) => Err(UserInputError::InvalidChildObjectArgument {
                        child_id: object.id,
                        parent_id: parent,
                    }),
                    Owner::Shared { .. } => Err(UserInputError::NotSharedObjectError),
                    Owner::Immutable => Err(UserInputError::MutableParameterExpected {
                        object_id: r.id,
                    }),
                }
            }
        },
    }
}

/// The receiving references from position `i` on, with `seen` the ids the
/// transaction already uses: each must be fresh or replayed, and its id new.
pub open spec fn spec_check_receiving_from(
    store: LedgerSnapshot,
    epoch_id: u64,
    receiving: Seq<ObjectRef>,
    i: int,
    seen: Seq<ObjectId>,
) -> Result<(), UserInputError>
    decreases receiving.len() - i,
{
    if i < 0 || i >= receiving.len() {
        Ok(())
    } else {
        match spec_receiving_ref_check(store, epoch_id, receiving[i]) {
            Err(e) => Err(e),
            Ok(_) => {
                if seen.contains(receiving[i].id) {
                    Err(UserInputError::DuplicateObjectRefInput)
                } else {
                    spec_check_receiving_from(
                        store,
                        epoch_id,
                        receiving,
                        i + 1,
                        seen.push(receiving[i].id),
                    )
                }
            },
        }
    }
}

/// A count clamped into `u64` for reporting.
pub open spec fn spec_saturating_u64(x: int) -> u64 {
    if x > u64::MAX {
        u64::MAX
    } else if x < 0 {
        0
    } else {
        x as u64
    }
}

/// The whole receiving pass: receiving references count toward the input
/// limit, and each must be fresh or replayed under an id the transaction
/// uses nowhere else.
pub open spec fn spec_check_receiving_objects(
    store: LedgerSnapshot,
    receiving: Seq<ObjectRef>,
    input_objects: Seq<ObjectReadResult>,
    config: ProtocolConfig,
    epoch_id: u64,
) -> Result<(), UserInputError> {
    if receiving.len() + input_objects.len() > config.max_input_objects {
        Err(UserInputError::SizeLimitExceeded {
            limit: config.max_input_objects,
            value: spec_saturating_u64((receiving.len() + input_objects.len()) as int),
        })
    } else {
        spec_check_receiving_from(store, epoch_id, receiving, 0, spec_input_kind_ids(input_objects))
    }
}

/// Check every receiving reference against the snapshot and the replay
/// table, and that no receiving id collides with an input id or another
/// receiving id.
pub fn check_receiving_objects(
    store: &LedgerSnapshot,
    receiving_objects: &Vec<ObjectRef>,
    input_objects: &InputObjects,
    protocol_config: &ProtocolConfig,
    epoch_id: u64,
) -> (r: Result<(), UserInputError>)
    ensures
        r == spec_check_receiving_objects(
            *store,
            receiving_objects@,
            input_objects@,
            *protocol_config,
            epoch_id,
        ),
{
    if receiving_objects.len() as u128 + input_objects.len() as u128
        > protocol_config.max_input_objects as u128 {
        let count: u64 = if receiving_objects.len() as u128 + input_objects.len() as u128
            > u64::MAX as u128 {
            u64::MAX
        } else {
            receiving_objects.len() as u64 + input_objects.len() as u64
        };
        return Err(UserInputError::SizeLimitExceeded {
            limit: protocol_config.max_input_objects,
            value: count,
        });
    }

    let mut objects_in_txn: Vec<ObjectId> = Vec::new();
    let mut i: usize = 0;
    while i < input_objects.objects.len()
        invariant
            0 <= i <= input_objects@.len(),
            objects_in_txn@ == spec_input_kind_ids(input_objects@.take(i as int)),
        decreases input_objects@.len() - i,
    {
        objects_in_txn.push(input_objects.objects[i].id());
        proof {
            assert(objects_in_txn@ =~= spec_input_kind_ids(input_objects@.take(i as int + 1)));
        }
        i += 1;
    }
    proof {
        assert(input_objects@.take(input_objects@.len() as int) =~= input_objects@);
    }

    let mut j: usize = 0;
    while j < receiving_objects.len()
        invariant
            0 <= j <= receiving_objects@.len(),
            receiving_objects@.len() + input_objects@.len() <= protocol_config.max_input_objects,
            spec_check_receiving_from(
                *store,
                epoch_id,
                receiving_objects@,
                j as int,
                objects_in_txn@,
            ) == spec_check_receiving_from(
                *store,
                epoch_id,
                receiving_objects@,
                0,
                spec_input_kind_ids(input_objects@),
            ),
        decreases receiving_objects@.len() - j,
    {
        let r = &receiving_objects[j];
        match receiving_ref_check(store, epoch_id, r) {
            Err(e) => {
                return Err(e);
            },
            Ok(_) => {},
        }
        if contains_id(&objects_in_txn, r.id) {
            return Err(UserInputError::DuplicateObjectRefInput);
        }
        objects_in_txn.push(r.id);
        j += 1;
    }
    Ok(())
}

} // verus!
