//! The metering gate and the four entry-point pipelines end to end.

use transaction_checks::config::ProtocolConfig;
use transaction_checks::errors::{CheckError, InvariantViolation, UserInputError};
use transaction_checks::gas::SuiGasStatus;
use transaction_checks::metering::{
    check_non_system_packages_to_be_published, BytecodeVerifierMetrics,
};
use transaction_checks::objects::{
    InputObjectKind, InputObjects, Object, ObjectDigest, ObjectId, ObjectReadResult,
    ObjectReadResultKind, ObjectRef, Owner, SuiAddress,
};
use transaction_checks::store::LedgerSnapshot;
use transaction_checks::transaction::{
    DenyVerdict, ProgrammableTransaction, PublishedModule, SystemTransactionKind,
    TransactionData, TransactionKind,
};
use transaction_checks::{
    check_certificate_input, check_dev_inspect_input, check_transaction_input,
    check_transaction_input_with_given_gas,
};

fn test_config() -> ProtocolConfig {
    ProtocolConfig {
        version: 1,
        max_input_objects: 10,
        max_gas_payment_objects: 4,
        max_modules_in_publish: 3,
        max_tx_gas: 1_000_000,
        min_tx_gas: 10,
        max_gas_price: 100_000,
        max_verifier_meter_units: 100,
    }
}

fn fresh_metrics() -> BytecodeVerifierMetrics {
    BytecodeVerifierMetrics { success_observations: 0, timeout_observations: 0 }
}

fn module(units: u64, system_package: bool) -> PublishedModule {
    PublishedModule { bytes: vec![0, 1, 2], system_package, verification_units: units }
}

fn coin(id: u64, version: u64, digest: u64, owner: u64, balance: u64) -> Object {
    Object {
        id: ObjectId(id),
        version,
        digest: ObjectDigest(digest),
        owner: Owner::AddressOwner(SuiAddress(owner)),
        is_package: false,
        coin_balance: balance,
    }
}

fn owned_entry(object: Object) -> ObjectReadResult {
    ObjectReadResult {
        input_object_kind: InputObjectKind::ImmOrOwnedMoveObject(ObjectRef {
            id: object.id,
            version: object.version,
            digest: object.digest,
        }),
        object: ObjectReadResultKind::Object(object),
    }
}

fn publishing_tx(sender: u64, modules: Vec<PublishedModule>) -> TransactionData {
    TransactionData {
        message_version: 1,
        sender: SuiAddress(sender),
        gas_owner: SuiAddress(sender),
        gas: vec![],
        gas_budget: 100,
        gas_price: 1000,
        kind: TransactionKind::ProgrammableTransaction(ProgrammableTransaction {
            published_modules: modules,
        }),
        receiving_objects: vec![],
    }
}

fn simple_signing_tx(sender: u64, gas_coin: &Object, budget: u64) -> TransactionData {
    TransactionData {
        message_version: 1,
        sender: SuiAddress(sender),
        gas_owner: SuiAddress(sender),
        gas: vec![ObjectRef { id: gas_coin.id, version: gas_coin.version, digest: gas_coin.digest }],
        gas_budget: budget,
        gas_price: 1000,
        kind: TransactionKind::ProgrammableTransaction(ProgrammableTransaction {
            published_modules: vec![],
        }),
        receiving_objects: vec![],
    }
}

fn empty_store() -> LedgerSnapshot {
    LedgerSnapshot { objects: vec![], received_markers: vec![] }
}

#[test]
fn metering_within_the_shared_budget_records_one_success() {
    let config = test_config();
    let tx = publishing_tx(42, vec![module(60, false), module(40, false)]);
    let mut metrics = fresh_metrics();
    assert!(check_non_system_packages_to_be_published(&tx, &config, &mut metrics).is_ok());
    assert_eq!(metrics.success_observations, 1);
    assert_eq!(metrics.timeout_observations, 0);
}

#[test]
fn two_modules_exceeding_the_shared_budget_time_out_with_one_failure_observation() {
    // 60 + 41 units against a shared budget of 100: the second module
    // exhausts the meter. Exactly one failure observation, no success
    // observation.
    let config = test_config();
    let tx = publishing_tx(42, vec![module(60, false), module(41, false)]);
    let mut metrics = fresh_metrics();
    let err = check_non_system_packages_to_be_published(&tx, &config, &mut metrics).unwrap_err();
    assert_eq!(err, UserInputError::PackageVerificationTimedout { meter_budget: 100 });
    assert_eq!(metrics.success_observations, 0);
    assert_eq!(metrics.timeout_observations, 1);
}

#[test]
fn system_package_modules_are_exempt_from_metering() {
    let config = test_config();
    let tx = publishing_tx(42, vec![module(60, false), module(1_000, true), module(40, false)]);
    let mut metrics = fresh_metrics();
    assert!(check_non_system_packages_to_be_published(&tx, &config, &mut metrics).is_ok());
    assert_eq!(metrics.success_observations, 1);
    assert_eq!(metrics.timeout_observations, 0);
}

#[test]
fn system_transactions_skip_metering_and_record_nothing() {
    let config = test_config();
    let tx = TransactionData {
        message_version: 1,
        sender: SuiAddress(9),
        gas_owner: SuiAddress(9),
        gas: vec![],
        gas_budget: 0,
        gas_price: 0,
        kind: TransactionKind::SystemTransaction(SystemTransactionKind::ChangeEpoch),
        receiving_objects: vec![],
    };
    let mut metrics = fresh_metrics();
    assert!(check_non_system_packages_to_be_published(&tx, &config, &mut metrics).is_ok());
    assert_eq!(metrics.success_observations, 0);
    assert_eq!(metrics.timeout_observations, 0);
}

#[test]
fn full_signing_pipeline_admits_a_valid_transaction() {
    let config = test_config();
    let gas_coin = coin(1, 5, 77, 42, 5_000);
    let tx = simple_signing_tx(42, &gas_coin, 500);
    let inputs = InputObjects::new(vec![owned_entry(gas_coin)]);
    let mut metrics = fresh_metrics();
    let (status, checked) = check_transaction_input(
        &empty_store(),
        &config,
        1000,
        3,
        &tx,
        inputs,
        DenyVerdict::Allow,
        &mut metrics,
    )
    .unwrap();
    assert_eq!(status, SuiGasStatus { metered: true, gas_budget: 500, gas_price: 1000 });
    assert_eq!(checked.inner().len(), 1);
    assert_eq!(checked.into_inner().objects.len(), 1);
    assert_eq!(metrics.success_observations, 1);
}

#[test]
fn deny_verdict_stops_the_signing_pipeline_before_metering() {
    let config = test_config();
    let gas_coin = coin(1, 5, 77, 42, 5_000);
    let tx = simple_signing_tx(42, &gas_coin, 500);
    let inputs = InputObjects::new(vec![owned_entry(gas_coin)]);
    let mut metrics = fresh_metrics();
    let err = check_transaction_input(
        &empty_store(),
        &config,
        1000,
        3,
        &tx,
        inputs,
        DenyVerdict::Deny { reason: String::from("sender is listed") },
        &mut metrics,
    )
    .unwrap_err();
    assert_eq!(
        err,
        CheckError::User(UserInputError::TransactionDenied {
            reason: String::from("sender is listed"),
        })
    );
    assert_eq!(metrics.success_observations, 0);
    assert_eq!(metrics.timeout_observations, 0);
}

#[test]
fn unsupported_message_version_is_rejected_at_signing() {
    let config = test_config();
    let gas_coin = coin(1, 5, 77, 42, 5_000);
    let mut tx = simple_signing_tx(42, &gas_coin, 500);
    tx.message_version = 2;
    let inputs = InputObjects::new(vec![owned_entry(gas_coin)]);
    let mut metrics = fresh_metrics();
    let err = check_transaction_input(
        &empty_store(),
        &config,
        1000,
        3,
        &tx,
        inputs,
        DenyVerdict::Allow,
        &mut metrics,
    )
    .unwrap_err();
    assert_eq!(
        err,
        CheckError::User(UserInputError::UnsupportedMessageVersion {
            declared: 2,
            max_supported: 1,
        })
    );
}

#[test]
fn missing_gas_payment_fails_validity_at_signing() {
    let config = test_config();
    let o = coin(1, 5, 77, 42, 0);
    let mut tx = simple_signing_tx(42, &o, 500);
    tx.gas = vec![];
    let inputs = InputObjects::new(vec![owned_entry(o)]);
    let mut metrics = fresh_metrics();
    let err = check_transaction_input(
        &empty_store(),
        &config,
        1000,
        3,
        &tx,
        inputs,
        DenyVerdict::Allow,
        &mut metrics,
    )
    .unwrap_err();
    assert_eq!(err, CheckError::User(UserInputError::MissingGasPayment));
}

#[test]
fn too_many_gas_coins_fail_validity_at_signing() {
    let config = test_config();
    let gas_coin = coin(1, 5, 77, 42, 5_000);
    let mut tx = simple_signing_tx(42, &gas_coin, 500);
    let one = tx.gas[0];
    tx.gas = vec![one, one, one, one, one];
    let inputs = InputObjects::new(vec![owned_entry(gas_coin)]);
    let mut metrics = fresh_metrics();
    let err = check_transaction_input(
        &empty_store(),
        &config,
        1000,
        3,
        &tx,
        inputs,
        DenyVerdict::Allow,
        &mut metrics,
    )
    .unwrap_err();
    assert_eq!(err, CheckError::User(UserInputError::SizeLimitExceeded { limit: 4, value: 5 }));
}

#[test]
fn too_many_published_modules_fail_kind_validity() {
    let config = test_config();
    let gas_coin = coin(1, 5, 77, 42, 5_000);
    let mut tx = simple_signing_tx(42, &gas_coin, 500);
    tx.kind = TransactionKind::ProgrammableTransaction(ProgrammableTransaction {
        published_modules: vec![module(1, false), module(1, false), module(1, false), module(1, false)],
    });
    let inputs = InputObjects::new(vec![owned_entry(gas_coin)]);
    let mut metrics = fresh_metrics();
    let err = check_transaction_input(
        &empty_store(),
        &config,
        1000,
        3,
        &tx,
        inputs,
        DenyVerdict::Allow,
        &mut metrics,
    )
    .unwrap_err();
    assert_eq!(err, CheckError::User(UserInputError::SizeLimitExceeded { limit: 3, value: 4 }));
}

#[test]
fn oversized_input_set_fails_with_the_size_limit_error() {
    // Eleven inputs against a limit of ten, every one of them individually
    // valid: only the count decides.
    let config = test_config();
    let gas_coin = coin(1, 5, 77, 42, 5_000);
    let tx = simple_signing_tx(42, &gas_coin, 500);
    let mut entries = vec![owned_entry(gas_coin)];
    for n in 2..=11u64 {
        entries.push(owned_entry(coin(n, 4, 9, 42, 0)));
    }
    let inputs = InputObjects::new(entries);
    let mut metrics = fresh_metrics();
    let err = check_transaction_input(
        &empty_store(),
        &config,
        1000,
        3,
        &tx,
        inputs,
        DenyVerdict::Allow,
        &mut metrics,
    )
    .unwrap_err();
    assert_eq!(err, CheckError::User(UserInputError::SizeLimitExceeded { limit: 10, value: 11 }));
}

#[test]
fn given_gas_pipeline_appends_the_sponsor_coin_and_admits() {
    let config = test_config();
    let user_object = coin(2, 6, 9, 42, 0);
    let gas_coin = coin(1, 5, 77, 42, 5_000);
    let mut tx = simple_signing_tx(42, &gas_coin, 500);
    tx.gas = vec![];
    let inputs = InputObjects::new(vec![owned_entry(user_object)]);
    let mut metrics = fresh_metrics();
    let (status, checked) = check_transaction_input_with_given_gas(
        &empty_store(),
        &config,
        1000,
        3,
        &tx,
        inputs,
        gas_coin,
        &mut metrics,
    )
    .unwrap();
    assert_eq!(status, SuiGasStatus { metered: true, gas_budget: 500, gas_price: 1000 });
    let final_inputs = checked.into_inner().objects;
    assert_eq!(final_inputs.len(), 2);
    assert_eq!(
        final_inputs[1].input_object_kind,
        InputObjectKind::ImmOrOwnedMoveObject(ObjectRef {
            id: ObjectId(1),
            version: 5,
            digest: ObjectDigest(77),
        })
    );
}

#[test]
fn certificate_pipeline_admits_what_signing_admitted() {
    let config = test_config();
    let gas_coin = coin(1, 5, 77, 42, 5_000);
    let tx = simple_signing_tx(42, &gas_coin, 500);
    let inputs = InputObjects::new(vec![owned_entry(gas_coin)]);
    let (status, checked) = check_certificate_input(&tx, inputs, &config, 1000).unwrap();
    assert_eq!(status, SuiGasStatus { metered: true, gas_budget: 500, gas_price: 1000 });
    assert_eq!(checked.into_inner().objects.len(), 1);
}

#[test]
fn certificate_pipeline_enforces_the_input_size_limit() {
    let config = test_config();
    let gas_coin = coin(1, 5, 77, 42, 5_000);
    let tx = simple_signing_tx(42, &gas_coin, 500);
    let mut entries = vec![owned_entry(gas_coin)];
    for n in 2..=11u64 {
        entries.push(owned_entry(coin(n, 4, 9, 42, 0)));
    }
    let inputs = InputObjects::new(entries);
    let err = check_certificate_input(&tx, inputs, &config, 1000).unwrap_err();
    assert_eq!(err, CheckError::User(UserInputError::SizeLimitExceeded { limit: 10, value: 11 }));
}

#[test]
fn certificate_with_unsupported_version_is_an_invariant_violation() {
    let config = test_config();
    let gas_coin = coin(1, 5, 77, 42, 5_000);
    let mut tx = simple_signing_tx(42, &gas_coin, 500);
    tx.message_version = 7;
    let inputs = InputObjects::new(vec![owned_entry(gas_coin)]);
    let err = check_certificate_input(&tx, inputs, &config, 1000).unwrap_err();
    assert_eq!(
        err,
        CheckError::Invariant(InvariantViolation::CertificateWithUnsupportedVersion {
            declared: 7,
            max_supported: 1,
        })
    );
}

#[test]
fn dev_inspect_rejects_system_kinds() {
    let config = test_config();
    let kind = TransactionKind::SystemTransaction(SystemTransactionKind::ChangeEpoch);
    let gas_coin = coin(1, 5, 77, 42, 5_000);
    let err = check_dev_inspect_input(&config, &kind, InputObjects::new(vec![]), gas_coin)
        .unwrap_err();
    assert_eq!(err, UserInputError::UnsupportedTransactionKind);
}

#[test]
fn dev_inspect_duplicate_fails_before_the_gas_object_is_appended() {
    // Two arguments reference the same mutable id; the gas object is
    // itself valid and distinct, and appending it must not mask the
    // earlier failure.
    let config = test_config();
    let kind = TransactionKind::ProgrammableTransaction(ProgrammableTransaction {
        published_modules: vec![],
    });
    let dup = coin(4, 6, 9, 42, 0);
    let inputs = InputObjects::new(vec![owned_entry(dup), owned_entry(dup)]);
    let gas_coin = coin(1, 5, 77, 42, 5_000);
    let err = check_dev_inspect_input(&config, &kind, inputs, gas_coin).unwrap_err();
    assert_eq!(
        err,
        UserInputError::MutableObjectUsedMoreThanOnce { object_id: ObjectId(4) }
    );
}

#[test]
fn dev_inspect_allows_repeated_immutable_objects_and_appends_gas() {
    let config = test_config();
    let kind = TransactionKind::ProgrammableTransaction(ProgrammableTransaction {
        published_modules: vec![],
    });
    let mut frozen = coin(4, 6, 9, 0, 0);
    frozen.owner = Owner::Immutable;
    let inputs = InputObjects::new(vec![owned_entry(frozen), owned_entry(frozen)]);
    let gas_coin = coin(1, 5, 77, 42, 5_000);
    let (gas_ref, checked) = check_dev_inspect_input(&config, &kind, inputs, gas_coin).unwrap();
    assert_eq!(gas_ref, ObjectRef { id: ObjectId(1), version: 5, digest: ObjectDigest(77) });
    let final_inputs = checked.into_inner().objects;
    assert_eq!(final_inputs.len(), 3);
    assert_eq!(
        final_inputs[2].input_object_kind,
        InputObjectKind::ImmOrOwnedMoveObject(gas_ref)
    );
}

#[test]
fn signing_pipeline_accepts_a_replayed_receive() {
    // The receiving reference's live object is gone, but the replay table
    // records the receive for this epoch: the whole admission passes.
    let config = test_config();
    let gas_coin = coin(1, 5, 77, 42, 5_000);
    let mut tx = simple_signing_tx(42, &gas_coin, 500);
    tx.receiving_objects = vec![ObjectRef { id: ObjectId(8), version: 2, digest: ObjectDigest(0) }];
    let store = LedgerSnapshot {
        objects: vec![],
        received_markers: vec![transaction_checks::store::ReceivedMarker {
            object_id: ObjectId(8),
            version: 2,
            epoch: 3,
        }],
    };
    let inputs = InputObjects::new(vec![owned_entry(gas_coin)]);
    let mut metrics = fresh_metrics();
    assert!(check_transaction_input(
        &store,
        &config,
        1000,
        3,
        &tx,
        inputs,
        DenyVerdict::Allow,
        &mut metrics,
    )
    .is_ok());
}

#[test]
fn signing_pipeline_reports_metering_timeout_and_observes_it_once() {
    let config = test_config();
    let gas_coin = coin(1, 5, 77, 42, 5_000);
    let mut tx = simple_signing_tx(42, &gas_coin, 500);
    tx.kind = TransactionKind::ProgrammableTransaction(ProgrammableTransaction {
        published_modules: vec![module(70, false), module(70, false)],
    });
    let inputs = InputObjects::new(vec![owned_entry(gas_coin)]);
    let mut metrics = fresh_metrics();
    let err = check_transaction_input(
        &empty_store(),
        &config,
        1000,
        3,
        &tx,
        inputs,
        DenyVerdict::Allow,
        &mut metrics,
    )
    .unwrap_err();
    assert_eq!(
        err,
        CheckError::User(UserInputError::PackageVerificationTimedout { meter_budget: 100 })
    );
    assert_eq!(metrics.success_observations, 0);
    assert_eq!(metrics.timeout_observations, 1);
}

#[test]
fn signing_pipeline_checks_receiving_references() {
    // A receiving reference colliding with an input id fails the whole
    // signing admission with the duplicate error.
    let config = test_config();
    let gas_coin = coin(1, 5, 77, 42, 5_000);
    let mut tx = simple_signing_tx(42, &gas_coin, 500);
    tx.receiving_objects = vec![ObjectRef { id: ObjectId(1), version: 5, digest: ObjectDigest(77) }];
    let store = LedgerSnapshot { objects: vec![gas_coin], received_markers: vec![] };
    let inputs = InputObjects::new(vec![owned_entry(gas_coin)]);
    let mut metrics = fresh_metrics();
    let err = check_transaction_input(
        &store,
        &config,
        1000,
        3,
        &tx,
        inputs,
        DenyVerdict::Allow,
        &mut metrics,
    )
    .unwrap_err();
    assert_eq!(err, CheckError::User(UserInputError::DuplicateObjectRefInput));
}
