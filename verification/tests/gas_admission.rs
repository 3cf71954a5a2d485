//! Gas admission behaviour: balance sufficiency, protocol bounds on price
//! and budget, resolution of declared coins, and the system-transaction
//! short circuit.

use transaction_checks::config::ProtocolConfig;
use transaction_checks::errors::UserInputError;
use transaction_checks::gas::SuiGasStatus;
use transaction_checks::get_gas_status;
use transaction_checks::objects::{
    InputObjectKind, InputObjects, Object, ObjectDigest, ObjectId, ObjectReadResult,
    ObjectReadResultKind, ObjectRef, Owner, SuiAddress,
};
use transaction_checks::transaction::{
    ProgrammableTransaction, SystemTransactionKind, TransactionData, TransactionKind,
};

fn test_config() -> ProtocolConfig {
    ProtocolConfig {
        version: 1,
        max_input_objects: 1000,
        max_gas_payment_objects: 256,
        max_modules_in_publish: 64,
        max_tx_gas: 1_000_000,
        min_tx_gas: 10,
        max_gas_price: 100_000,
        max_verifier_meter_units: 10_000,
    }
}

fn coin(id: u64, version: u64, digest: u64, owner: u64, balance: u64) -> Object {
    Object {
        id: ObjectId(id),
        version,
        digest: ObjectDigest(digest),
        owner: Owner::AddressOwner(SuiAddress(owner)),
        is_package: false,
        coin_balance: balance,
    }
}

fn owned_input(object: Object) -> ObjectReadResult {
    ObjectReadResult {
        input_object_kind: InputObjectKind::ImmOrOwnedMoveObject(ObjectRef {
            id: object.id,
            version: object.version,
            digest: object.digest,
        }),
        object: ObjectReadResultKind::Object(object),
    }
}

fn coin_ref(object: &Object) -> ObjectRef {
    ObjectRef { id: object.id, version: object.version, digest: object.digest }
}

fn programmable_tx(sender: u64, gas: Vec<ObjectRef>, budget: u64, price: u64) -> TransactionData {
    TransactionData {
        message_version: 1,
        sender: SuiAddress(sender),
        gas_owner: SuiAddress(sender),
        gas,
        gas_budget: budget,
        gas_price: price,
        kind: TransactionKind::ProgrammableTransaction(ProgrammableTransaction {
            published_modules: vec![],
        }),
        receiving_objects: vec![],
    }
}

#[test]
fn single_coin_covering_budget_passes() {
    let config = test_config();
    let gas_coin = coin(1, 5, 77, 42, 500);
    let objects = InputObjects::new(vec![owned_input(gas_coin)]);
    let gas = vec![coin_ref(&gas_coin)];
    let tx = programmable_tx(42, gas.clone(), 500, 1000);
    let status = get_gas_status(&objects, &gas, &config, 1000, &tx).unwrap();
    assert_eq!(status, SuiGasStatus { metered: true, gas_budget: 500, gas_price: 1000 });
}

#[test]
fn single_coin_one_unit_short_fails() {
    // The same transaction with the coin's balance one unit below the
    // budget flips the verdict, all else equal.
    let config = test_config();
    let gas_coin = coin(1, 5, 77, 42, 499);
    let objects = InputObjects::new(vec![owned_input(gas_coin)]);
    let gas = vec![coin_ref(&gas_coin)];
    let tx = programmable_tx(42, gas.clone(), 500, 1000);
    let err = get_gas_status(&objects, &gas, &config, 1000, &tx).unwrap_err();
    assert_eq!(
        err,
        UserInputError::GasBalanceTooLow { gas_balance: 499, needed_gas_amount: 500 }
    );
}

#[test]
fn balances_of_several_coins_are_summed() {
    let config = test_config();
    let coin_a = coin(1, 5, 77, 42, 30);
    let coin_b = coin(2, 9, 78, 42, 70);
    let objects = InputObjects::new(vec![owned_input(coin_a), owned_input(coin_b)]);
    let gas = vec![coin_ref(&coin_a), coin_ref(&coin_b)];
    let tx = programmable_tx(42, gas.clone(), 100, 1000);
    assert!(get_gas_status(&objects, &gas, &config, 1000, &tx).is_ok());

    let tx_over = programmable_tx(42, gas.clone(), 101, 1000);
    let err = get_gas_status(&objects, &gas, &config, 1000, &tx_over).unwrap_err();
    assert_eq!(
        err,
        UserInputError::GasBalanceTooLow { gas_balance: 100, needed_gas_amount: 101 }
    );
}

#[test]
fn system_transaction_is_unmetered_and_budget_is_never_read() {
    // A system transaction with an empty gas-coin list and a nonzero
    // budget still gets the zero-cost status.
    let config = test_config();
    let objects = InputObjects::new(vec![]);
    let gas: Vec<ObjectRef> = vec![];
    let tx = TransactionData {
        message_version: 1,
        sender: SuiAddress(9),
        gas_owner: SuiAddress(9),
        gas: vec![],
        gas_budget: 123_456,
        gas_price: 0,
        kind: TransactionKind::SystemTransaction(SystemTransactionKind::ConsensusCommitPrologue),
        receiving_objects: vec![],
    };
    let status = get_gas_status(&objects, &gas, &config, 1000, &tx).unwrap();
    assert_eq!(status, SuiGasStatus { metered: false, gas_budget: 0, gas_price: 0 });
}

#[test]
fn missing_gas_coin_reference_is_object_not_found() {
    let config = test_config();
    let gas_coin = coin(1, 5, 77, 42, 500);
    let objects = InputObjects::new(vec![owned_input(gas_coin)]);
    let stray = ObjectRef { id: ObjectId(99), version: 3, digest: ObjectDigest(0) };
    let gas = vec![stray];
    let tx = programmable_tx(42, gas.clone(), 500, 1000);
    let err = get_gas_status(&objects, &gas, &config, 1000, &tx).unwrap_err();
    assert_eq!(
        err,
        UserInputError::ObjectNotFound { object_id: ObjectId(99), version: Some(3) }
    );
}

#[test]
fn gas_price_below_reference_price_is_rejected() {
    let config = test_config();
    let objects = InputObjects::new(vec![]);
    let gas: Vec<ObjectRef> = vec![];
    let tx = programmable_tx(42, vec![], 500, 999);
    let err = get_gas_status(&objects, &gas, &config, 1000, &tx).unwrap_err();
    assert_eq!(
        err,
        UserInputError::GasPriceUnderReferenceGasPrice { gas_price: 999, reference_gas_price: 1000 }
    );
}

#[test]
fn gas_price_above_maximum_is_rejected() {
    let config = test_config();
    let objects = InputObjects::new(vec![]);
    let gas: Vec<ObjectRef> = vec![];
    let tx = programmable_tx(42, vec![], 500, 100_001);
    let err = get_gas_status(&objects, &gas, &config, 1000, &tx).unwrap_err();
    assert_eq!(
        err,
        UserInputError::GasPriceTooHigh { gas_price: 100_001, max_gas_price: 100_000 }
    );
}

#[test]
fn gas_budget_above_maximum_is_rejected() {
    let config = test_config();
    let objects = InputObjects::new(vec![]);
    let gas: Vec<ObjectRef> = vec![];
    let tx = programmable_tx(42, vec![], 1_000_001, 1000);
    let err = get_gas_status(&objects, &gas, &config, 1000, &tx).unwrap_err();
    assert_eq!(
        err,
        UserInputError::GasBudgetTooHigh { gas_budget: 1_000_001, max_budget: 1_000_000 }
    );
}

#[test]
fn gas_budget_below_minimum_is_rejected() {
    let config = test_config();
    let objects = InputObjects::new(vec![]);
    let gas: Vec<ObjectRef> = vec![];
    let tx = programmable_tx(42, vec![], 9, 1000);
    let err = get_gas_status(&objects, &gas, &config, 1000, &tx).unwrap_err();
    assert_eq!(err, UserInputError::GasBudgetTooLow { gas_budget: 9, min_budget: 10 });
}

#[test]
fn deleted_shared_tombstone_contributes_no_balance() {
    let config = test_config();
    let tombstone = ObjectReadResult {
        input_object_kind: InputObjectKind::SharedMoveObject {
            id: ObjectId(5),
            initial_shared_version: 1,
            mutable: true,
        },
        object: ObjectReadResultKind::DeletedSharedObject(8, ObjectDigest(3)),
    };
    let objects = InputObjects::new(vec![tombstone]);
    let gas = vec![ObjectRef { id: ObjectId(5), version: 8, digest: ObjectDigest(3) }];
    let tx = programmable_tx(42, gas.clone(), 10, 1000);
    let err = get_gas_status(&objects, &gas, &config, 1000, &tx).unwrap_err();
    assert_eq!(err, UserInputError::GasBalanceTooLow { gas_balance: 0, needed_gas_amount: 10 });
}
