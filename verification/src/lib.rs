//! Transaction-admission validation for an object-model ledger: the checkpoint every
//! transaction must pass, at signing time and again in reduced form at
//! certificate-execution time, before it may touch the execution engine.
//!
//! The four entry points compose the component checks in a fixed order and,
//! on success, wrap the inputs in the [`objects::CheckedInputObjects`]
//! witness that downstream execution trusts without re-checking.

pub mod checks;
pub mod config;
pub mod errors;
pub mod gas;
pub mod laws;
pub mod metering;
pub mod objects;
pub mod receiving;
pub mod store;
pub mod transaction;

use vstd::prelude::*;
use crate::checks::{check_input_objects, check_objects, spec_check_input_objects, spec_check_objects};
use crate::config::ProtocolConfig;
use crate::errors::{CheckError, InvariantViolation, UserInputError};
use crate::gas::{check_gas, spec_check_gas, SuiGasStatus};
use crate::metering::{
    check_non_system_packages_to_be_published, spec_check_non_system_packages,
    spec_metrics_after, BytecodeVerifierMetrics,
};
use crate::objects::{
    CheckedInputObjects, InputObjectKind, InputObjects, Object, ObjectId, ObjectReadResult,
    ObjectReadResultKind, ObjectRef,
};
use crate::receiving::{check_receiving_objects, spec_check_receiving_objects};
use crate::store::LedgerSnapshot;
use crate::transaction::{
    DenyVerdict, TransactionData, TransactionKind, MAX_SUPPORTED_MESSAGE_VERSION,
};

verus! {

/// The gas admission decision for a whole transaction; see
/// [`gas::spec_check_gas`]. Run on both signing and execution. On success
/// the gas data and coins of the transaction are verified and good to go.
pub open spec fn spec_get_gas_status(
    objects: Seq<ObjectReadResult>,
    gas: Seq<ObjectRef>,
    config: ProtocolConfig,
    reference_gas_price: u64,
    tx: TransactionData,
) -> Result<SuiGasStatus, UserInputError> {
    spec_check_gas(objects, config, reference_gas_price, gas, tx.gas_budget, tx.gas_price, &tx.kind)
}

/// Entry point for all checks related to gas: resolve the declared gas
/// coins among the loaded inputs and admit the budget, or short-circuit to
/// the unmetered status for a system transaction.
pub fn get_gas_status(
    objects: &InputObjects,
    gas: &Vec<ObjectRef>,
    protocol_config: &ProtocolConfig,
    reference_gas_price: u64,
    transaction: &TransactionData,
) -> (r: Result<SuiGasStatus, UserInputError>)
    ensures
        r == spec_get_gas_status(objects@, gas@, *protocol_config, reference_gas_price, *transaction),
{
    check_gas(
        objects,
        protocol_config,
        reference_gas_price,
        gas,
        transaction.gas_budget,
        transaction.gas_price,
        &transaction.kind,
    )
}

/// The full signing pipeline: version, validity, the deny gate's verdict,
/// metering of published code, the size limit, gas admission, the
/// ownership/consistency and uniqueness pass, and receiving freshness, in
/// that order, stopping at the first violation.
pub open spec fn spec_check_transaction_input(
    store: LedgerSnapshot,
    config: ProtocolConfig,
    reference_gas_price: u64,
    epoch_id: u64,
    tx: TransactionData,
    input_objects: Seq<ObjectReadResult>,
    deny_verdict: DenyVerdict,
) -> Result<(SuiGasStatus, Seq<ObjectReadResult>), CheckError> {
    match tx.spec_check_version_supported() {
        Err(e) => Err(CheckError::User(e)),
        Ok(_) => match tx.spec_validity_check(config) {
            Err(e) => Err(CheckError::User(e)),
            Ok(_) => match deny_verdict {
                DenyVerdict::Deny { reason } => Err(CheckError::User(
                    UserInputError::TransactionDenied { reason },
                )),
                DenyVerdict::Allow => match spec_check_non_system_packages(tx, config) {
                    Err(e) => Err(CheckError::User(e)),
                    Ok(_) => match spec_check_input_objects(input_objects, config) {
                        Err(e) => Err(CheckError::User(e)),
                        Ok(_) => match spec_get_gas_status(
                            input_objects,
                            tx.gas@,
                            config,
                            reference_gas_price,
                            tx,
                        ) {
                            Err(e) => Err(CheckError::User(e)),
                            Ok(gas_status) => match spec_check_objects(tx, input_objects) {
                                Err(e) => Err(e),
                                Ok(_) => match spec_check_receiving_objects(
                                    store,
                                    tx.receiving_objects@,
                                    input_objects,
                                    config,
                                    epoch_id,
                                ) {
                                    Err(e) => Err(CheckError::User(e)),
                                    Ok(_) => Ok((gas_status, input_objects)),
                                },
                            },
                        },
                    },
                },
            },
        },
    }
}

/// Recorder state after the full signing pipeline: the metering gate runs,
/// and observes its timer, only once version, validity and the deny verdict
/// have all passed.
pub open spec fn spec_signing_metrics_after(
    metrics: BytecodeVerifierMetrics,
    tx: TransactionData,
    config: ProtocolConfig,
    deny_verdict: DenyVerdict,
) -> BytecodeVerifierMetrics {
    if tx.spec_check_version_supported() is Ok && tx.spec_validity_check(config) is Ok
        && deny_verdict is Allow {
        spec_metrics_after(metrics, tx, config)
    } else {
        metrics
    }
}

/// Admit a transaction at signing time. The caller supplies the ledger
/// snapshot, the protocol limits, the deny policy gate's verdict on this
/// transaction, and the resolved inputs; on success the inputs come back
/// wrapped as checked.
pub fn check_transaction_input(
    store: &LedgerSnapshot,
    protocol_config: &ProtocolConfig,
    reference_gas_price: u64,
    epoch_id: u64,
    transaction: &TransactionData,
    input_objects: InputObjects,
    deny_verdict: DenyVerdict,
    metrics: &mut BytecodeVerifierMetrics,
) -> (r: Result<(SuiGasStatus, CheckedInputObjects), CheckError>)
    requires
        old(metrics).success_observations < u64::MAX,
        old(metrics).timeout_observations < u64::MAX,
    ensures
        *final(metrics) == spec_signing_metrics_after(
            *old(metrics),
            *transaction,
            *protocol_config,
            deny_verdict,
        ),
        ({
            let s = spec_check_transaction_input(
                *store,
                *protocol_config,
                reference_gas_price,
                epoch_id,
                *transaction,
                input_objects@,
                deny_verdict,
            );
            match r {
                Ok((gas_status, checked)) => s matches Ok(p) && p.0 == gas_status && p.1
                    == checked@,
                Err(e) => s matches Err(e2) && e == e2,
            }
        }),
{
    match transaction.check_version_supported() {
        Err(e) => {
            return Err(CheckError::User(e));
        },
        Ok(_) => {},
    }
    match transaction.validity_check(protocol_config) {
        Err(e) => {
            return Err(CheckError::User(e));
        },
        Ok(_) => {},
    }
    match deny_verdict {
        DenyVerdict::Deny { reason } => {
            return Err(CheckError::User(UserInputError::TransactionDenied { reason }));
        },
        DenyVerdict::Allow => {},
    }
    // Runs the bytecode verifier under its meter, which could be expensive.
    match check_non_system_packages_to_be_published(transaction, protocol_config, metrics) {
        Err(e) => {
            return Err(CheckError::User(e));
        },
        Ok(_) => {},
    }
    match check_input_objects(&input_objects, protocol_config) {
        Err(e) => {
            return Err(CheckError::User(e));
        },
        Ok(_) => {},
    }
    let gas_status = match get_gas_status(
        &input_objects,
        &transaction.gas,
        protocol_config,
        reference_gas_price,
        transaction,
    ) {
        Err(e) => {
            return Err(CheckError::User(e));
        },
        Ok(g) => g,
    };
    match check_objects(transaction, &input_objects) {
        Err(e) => {
            return Err(e);
        },
        Ok(_) => {},
    }
    match check_receiving_objects(
        store,
        &transaction.receiving_objects,
        &input_objects,
        protocol_config,
        epoch_id,
    ) {
        Err(e) => {
            return Err(CheckError::User(e));
        },
        Ok(_) => {},
    }
    Ok((gas_status, CheckedInputObjects::new_with_checked_transaction_inputs(input_objects)))
}

/// The signing pipeline for externally supplied gas: validity without the
/// gas fields, then the supplied coin is appended as an extra owned input
/// and stands alone as the payment.
pub open spec fn spec_check_transaction_input_with_given_gas(
    store: LedgerSnapshot,
    config: ProtocolConfig,
    reference_gas_price: u64,
    epoch_id: u64,
    tx: TransactionData,
    input_objects: Seq<ObjectReadResult>,
    gas_object: Object,
) -> Result<(SuiGasStatus, Seq<ObjectReadResult>), CheckError> {
    match tx.spec_check_version_supported() {
        Err(e) => Err(CheckError::User(e)),
        Ok(_) => match tx.spec_validity_check_no_gas_check(config) {
            Err(e) => Err(CheckError::User(e)),
            Ok(_) => match spec_check_non_system_packages(tx, config) {
                Err(e) => Err(CheckError::User(e)),
                Ok(_) => match spec_check_input_objects(input_objects, config) {
                    Err(e) => Err(CheckError::User(e)),
                    Ok(_) => {
                        let gas_object_ref = gas_object.spec_object_reference();
                        let objects = input_objects.push(ObjectReadResult {
                            input_object_kind: InputObjectKind::ImmOrOwnedMoveObject(
                                gas_object_ref,
                            ),
                            object: ObjectReadResultKind::Object(gas_object),
                        });
                        match spec_check_gas(
                            objects,
                            config,
                            reference_gas_price,
                            seq![gas_object_ref],
                            tx.gas_budget,
                            tx.gas_price,
                            &tx.kind,
                        ) {
                            Err(e) => Err(CheckError::User(e)),
                            Ok(gas_status) => match spec_check_objects(tx, objects) {
                                Err(e) => Err(e),
                                Ok(_) => match spec_check_receiving_objects(
                                    store,
                                    tx.receiving_objects@,
                                    objects,
                                    config,
                                    epoch_id,
                                ) {
                                    Err(e) => Err(CheckError::User(e)),
                                    Ok(_) => Ok((gas_status, objects)),
                                },
                            },
                        }
                    },
                },
            },
        },
    }
}

/// Recorder state after the externally-supplied-gas pipeline.
pub open spec fn spec_given_gas_metrics_after(
    metrics: BytecodeVerifierMetrics,
    tx: TransactionData,
    config: ProtocolConfig,
) -> BytecodeVerifierMetrics {
    if tx.spec_check_version_supported() is Ok && tx.spec_validity_check_no_gas_check(config)
        is Ok {
        spec_metrics_after(metrics, tx, config)
    } else {
        metrics
    }
}

/// Admit a transaction at signing time with a sponsor-supplied gas coin:
/// the coin joins the inputs as an extra owned object and pays alone.
pub fn check_transaction_input_with_given_gas(
    store: &LedgerSnapshot,
    protocol_config: &ProtocolConfig,
    reference_gas_price: u64,
    epoch_id: u64,
    transaction: &TransactionData,
    input_objects: InputObjects,
    gas_object: Object,
    metrics: &mut BytecodeVerifierMetrics,
) -> (r: Result<(SuiGasStatus, CheckedInputObjects), CheckError>)
    requires
        old(metrics).success_observations < u64::MAX,
        old(metrics).timeout_observations < u64::MAX,
    ensures
        *final(metrics) == spec_given_gas_metrics_after(
            *old(metrics),
            *transaction,
            *protocol_config,
        ),
        ({
            let s = spec_check_transaction_input_with_given_gas(
                *store,
                *protocol_config,
                reference_gas_price,
                epoch_id,
                *transaction,
                input_objects@,
                gas_object,
            );
            match r {
                Ok((gas_status, checked)) => s matches Ok(p) && p.0 == gas_status && p.1
                    == checked@,
                Err(e) => s matches Err(e2) && e == e2,
            }
        }),
{
    let mut input_objects = input_objects;
    match transaction.check_version_supported() {
        Err(e) => {
            return Err(CheckError::User(e));
        },
        Ok(_) => {},
    }
    match transaction.validity_check_no_gas_check(protocol_config) {
        Err(e) => {
            return Err(CheckError::User(e));
        },
        Ok(_) => {},
    }
    match check_non_system_packages_to_be_published(transaction, protocol_config, metrics) {
        Err(e) => {
            return Err(CheckError::User(e));
        },
        Ok(_) => {},
    }
    match check_input_objects(&input_objects, protocol_config) {
        Err(e) => {
            return Err(CheckError::User(e));
        },
        Ok(_) => {},
    }

    let gas_object_ref = gas_object.compute_object_reference();
    input_objects.push(ObjectReadResult::new_from_gas_object(&gas_object));

    let mut gas_refs: Vec<ObjectRef> = Vec::new();
    gas_refs.push(gas_object_ref);
    proof {
        assert(gas_refs@ =~= seq![gas_object_ref]);
    }
    let gas_status = match get_gas_status(
        &input_objects,
        &gas_refs,
        protocol_config,
        reference_gas_price,
        transaction,
    ) {
        Err(e) => {
            return Err(CheckError::User(e));
        },
        Ok(g) => g,
    };
    match check_objects(transaction, &input_objects) {
        Err(e) => {
            return Err(e);
        },
        Ok(_) => {},
    }
    match check_receiving_objects(
        store,
        &transaction.receiving_objects,
        &input_objects,
        protocol_config,
        epoch_id,
    ) {
        Err(e) => {
            return Err(CheckError::User(e));
        },
        Ok(_) => {},
    }
    Ok((gas_status, CheckedInputObjects::new_with_checked_transaction_inputs(input_objects)))
}

/// The certificate pipeline, run after consensus: a version failure here is
/// an invariant violation, since signing can never have admitted such a
/// transaction; then only the size limit, gas admission and the
/// ownership/consistency pass. Receiving freshness was settled at signing
/// and execution handles receive semantics itself, so it is not re-checked.
pub open spec fn spec_check_certificate_input(
    tx: TransactionData,
    input_objects: Seq<ObjectReadResult>,
    config: ProtocolConfig,
    reference_gas_price: u64,
) -> Result<(SuiGasStatus, Seq<ObjectReadResult>), CheckError> {
    if tx.spec_check_version_supported() is Err {
        Err(CheckError::Invariant(InvariantViolation::CertificateWithUnsupportedVersion {
            declared: tx.message_version,
            max_supported: MAX_SUPPORTED_MESSAGE_VERSION,
        }))
    } else {
        match spec_check_input_objects(input_objects, config) {
            Err(e) => Err(CheckError::User(e)),
            Ok(_) => match spec_get_gas_status(
                input_objects,
                tx.gas@,
                config,
                reference_gas_price,
                tx,
            ) {
                Err(e) => Err(CheckError::User(e)),
                Ok(gas_status) => match spec_check_objects(tx, input_objects) {
                    Err(e) => Err(e),
                    Ok(_) => Ok((gas_status, input_objects)),
                },
            },
        }
    }
}

/// Admit a certified transaction for execution.
pub fn check_certificate_input(
    certificate: &TransactionData,
    input_objects: InputObjects,
    protocol_config: &ProtocolConfig,
    reference_gas_price: u64,
) -> (r: Result<(SuiGasStatus, CheckedInputObjects), CheckError>)
    ensures
        ({
            let s = spec_check_certificate_input(
                *certificate,
                input_objects@,
                *protocol_config,
                reference_gas_price,
            );
            match r {
                Ok((gas_status, checked)) => s matches Ok(p) && p.0 == gas_status && p.1
                    == checked@,
                Err(e) => s matches Err(e2) && e == e2,
            }
        }),
{
    // A validator would never have signed a transaction whose version it
    // does not support, so a certificate carrying one is corruption, not
    // client error.
    match certificate.check_version_supported() {
        Err(_) => {
            return Err(CheckError::Invariant(
                InvariantViolation::CertificateWithUnsupportedVersion {
                    declared: certificate.message_version,
                    max_supported: MAX_SUPPORTED_MESSAGE_VERSION,
                },
            ));
        },
        Ok(_) => {},
    }
    match check_input_objects(&input_objects, protocol_config) {
        Err(e) => {
            return Err(CheckError::User(e));
        },
        Ok(_) => {},
    }
    let gas_status = match get_gas_status(
        &input_objects,
        &certificate.gas,
        protocol_config,
        reference_gas_price,
        certificate,
    ) {
        Err(e) => {
            return Err(CheckError::User(e));
        },
        Ok(g) => g,
    };
    match check_objects(certificate, &input_objects) {
        Err(e) => {
            return Err(e);
        },
        Ok(_) => {},
    }
    // Receiving objects are not checked when executing; only at signing.
    Ok((gas_status, CheckedInputObjects::new_with_checked_transaction_inputs(input_objects)))
}

/// First id, scanning from position `i`, that dev-inspect sees taken
/// mutably twice: here every present, non-immutable object counts as
/// mutable, under its own id; tombstones are skipped.
pub open spec fn spec_dev_inspect_dup_from(
    objects: Seq<ObjectReadResult>,
    i: int,
    seen: Seq<ObjectId>,
) -> Option<ObjectId>
    decreases objects.len() - i,
{
    if i < 0 || i >= objects.len() {
        None
    } else {
        match objects[i].spec_as_object() {
            None => spec_dev_inspect_dup_from(objects, i + 1, seen),
            Some(object) => {
                if object.spec_is_immutable() {
                    spec_dev_inspect_dup_from(objects, i + 1, seen)
                } else if seen.contains(object.id) {
                    Some(object.id)
                } else {
                    spec_dev_inspect_dup_from(objects, i + 1, seen.push(object.id))
                }
            },
        }
    }
}

/// The dev-inspect pipeline: kind validity, no system kinds, the size
/// limit, the uniqueness guard over mutable objects only, and only then the
/// supplied gas object is appended. No signature, deny or ownership checks:
/// simulation bypasses authentication.
pub open spec fn spec_check_dev_inspect_input(
    config: ProtocolConfig,
    kind: TransactionKind,
    input_objects: Seq<ObjectReadResult>,
    gas_object: Object,
) -> Result<(ObjectRef, Seq<ObjectReadResult>), UserInputError> {
    let gas_object_ref = gas_object.spec_object_reference();
    match kind.spec_validity_check(config) {
        Err(e) => Err(e),
        Ok(_) => {
            if kind.spec_is_system_tx() {
                Err(UserInputError::UnsupportedTransactionKind)
            } else {
                match spec_check_input_objects(input_objects, config) {
                    Err(e) => Err(e),
                    Ok(_) => match spec_dev_inspect_dup_from(input_objects, 0, Seq::empty()) {
                        Some(id) => Err(UserInputError::MutableObjectUsedMoreThanOnce {
                            object_id: id,
                        }),
                        None => Ok(
                            (
                                gas_object_ref,
                                input_objects.push(ObjectReadResult {
                                    input_object_kind: InputObjectKind::ImmOrOwnedMoveObject(
                                        gas_object_ref,
                                    ),
                                    object: ObjectReadResultKind::Object(gas_object),
                                }),
                            ),
                        ),
                    },
                }
            }
        },
    }
}

/// Admit inputs for a dev-inspect simulation. This bypasses many of the
/// normal object checks and must be used for nothing else.
pub fn check_dev_inspect_input(
    config: &ProtocolConfig,
    kind: &TransactionKind,
    input_objects: InputObjects,
    gas_object: Object,
) -> (r: Result<(ObjectRef, CheckedInputObjects), UserInputError>)
    ensures
        ({
            let s = spec_check_dev_inspect_input(*config, *kind, input_objects@, gas_object);
            match r {
                Ok((gas_ref, checked)) => s matches Ok(p) && p.0 == gas_ref && p.1 == checked@,
                Err(e) => s matches Err(e2) && e == e2,
            }
        }),
{
    let mut objects = input_objects;
    let gas_object_ref = gas_object.compute_object_reference();
    match kind.validity_check(config) {
        Err(e) => {
            return Err(e);
        },
        Ok(_) => {},
    }
    if kind.is_system_tx() {
        return Err(UserInputError::UnsupportedTransactionKind);
    }
    match check_input_objects(&objects, config) {
        Err(e) => {
            return Err(e);
        },
        Ok(_) => {},
    }

    let ghost all = objects@;
    let mut used_objects: Vec<ObjectId> = Vec::new();
    let mut i: usize = 0;
    while i < objects.objects.len()
        invariant
            0 <= i <= all.len(),
            all == objects@,
            all == input_objects@,
            kind.spec_validity_check(*config) is Ok,
            !kind.spec_is_system_tx(),
            spec_check_input_objects(all, *config) is Ok,
            spec_dev_inspect_dup_from(all, i as int, used_objects@) == spec_dev_inspect_dup_from(
                all,
                0,
                Seq::<ObjectId>::empty(),
            ),
        decreases all.len() - i,
    {
        match objects.objects[i].as_object() {
            None => {
                // The object was deleted; nothing to guard.
            },
            Some(object) => {
                if !object.is_immutable() {
                    if crate::checks::contains_id(&used_objects, object.id) {
                        return Err(UserInputError::MutableObjectUsedMoreThanOnce {
                            object_id: object.id,
                        });
                    }
                    used_objects.push(object.id);
                }
            },
        }
        i += 1;
    }

    objects.push(ObjectReadResult::new(
        InputObjectKind::ImmOrOwnedMoveObject(gas_object_ref),
        ObjectReadResultKind::Object(gas_object),
    ));

    Ok((gas_object_ref, CheckedInputObjects::new_with_checked_transaction_inputs(objects)))
}

} // verus!
