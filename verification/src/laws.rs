//! Laws of the admission gate, stated once over the specification functions
//! and proved for every input, so that no implementation drift can weaken
//! them silently.

use vstd::prelude::*;
use crate::checks::{
    spec_check_input_objects, spec_check_objects, spec_first_dup_mutable_from,
    spec_object_at_check, lemma_check_objects_from_ok,
};
use crate::config::ProtocolConfig;
use crate::errors::{CheckError, UserInputError};
use crate::gas::{
    spec_balance_of, spec_check_gas, spec_find_input, spec_find_input_from, spec_resolve_gas_from,
    spec_total_balance, spec_total_balance_from, SuiGasStatus,
};
use crate::objects::{
    InputObjectKind, Object, ObjectId, ObjectReadResult, ObjectReadResultKind, ObjectRef, Owner,
    AUTHENTICATOR_STATE_OBJECT_ID, CLOCK_OBJECT_ID, MAX_SEQUENCE_NUMBER,
};
use crate::receiving::{
    spec_check_receiving_from, spec_check_receiving_objects, spec_input_kind_ids,
    spec_receiving_ref_check,
};
use crate::store::LedgerSnapshot;
use crate::transaction::{TransactionData, TransactionKind};
use crate::{spec_check_certificate_input, spec_check_dev_inspect_input, spec_dev_inspect_dup_from};

verus! {

/// Membership in a pushed sequence: the new element, or an old member.
proof fn lemma_push_contains(s: Seq<ObjectId>, a: ObjectId, x: ObjectId)
    ensures
        s.push(a).contains(x) <==> (s.contains(x) || x == a),
{
    if s.contains(x) {
        let idx = choose|idx: int| 0 <= idx < s.len() && s[idx] == x;
        assert(s.push(a)[idx] == x);
    }
    assert(s.push(a)[s.len() as int] == a);
    if s.push(a).contains(x) {
        let idx = choose|idx: int| 0 <= idx < s.push(a).len() && s.push(a)[idx] == x;
        if idx < s.len() {
            assert(s[idx] == x);
        }
    }
}

/// When the uniqueness scan reports nothing from position `i`, no mutable
/// id at or after `i` is in `seen`, and no two mutable inputs at or after
/// `i` share an id.
proof fn lemma_no_dup_mutable_from(objects: Seq<ObjectReadResult>, i: int, seen: Seq<ObjectId>)
    requires
        0 <= i,
        spec_first_dup_mutable_from(objects, i, seen) is None,
    ensures
        forall|k: int|
            i <= k < objects.len() && (#[trigger] objects[k]).spec_is_mutable()
                ==> !seen.contains(objects[k].spec_id()),
        forall|k: int, l: int|
            i <= k < l < objects.len() && (#[trigger] objects[k]).spec_is_mutable()
                && (#[trigger] objects[l]).spec_is_mutable() ==> objects[k].spec_id()
                != objects[l].spec_id(),
    decreases objects.len() - i,
{
    if i < objects.len() {
        if objects[i].spec_is_mutable() {
            let id = objects[i].spec_id();
            lemma_no_dup_mutable_from(objects, i + 1, seen.push(id));
            assert forall|k: int|
                i <= k < objects.len() && (#[trigger] objects[k]).spec_is_mutable()
                    implies !seen.contains(objects[k].spec_id()) by {
                if k > i {
                    lemma_push_contains(seen, id, objects[k].spec_id());
                }
            }
            assert forall|k: int, l: int|
                i <= k < l < objects.len() && (#[trigger] objects[k]).spec_is_mutable()
                    && (#[trigger] objects[l]).spec_is_mutable()
                    implies objects[k].spec_id() != objects[l].spec_id() by {
                if k == i {
                    lemma_push_contains(seen, id, objects[l].spec_id());
                }
            }
        } else {
            lemma_no_dup_mutable_from(objects, i + 1, seen);
        }
    }
}

/// Any input set that takes one id mutably in two positions fails the
/// ownership pass with the duplicate-use error, whatever else it holds.
pub proof fn lemma_duplicate_mutable_input_rejected(
    tx: TransactionData,
    objects: Seq<ObjectReadResult>,
    i: int,
    j: int,
)
    requires
        0 <= i < j < objects.len(),
        objects[i].spec_is_mutable(),
        objects[j].spec_is_mutable(),
        objects[i].spec_id() == objects[j].spec_id(),
    ensures
        spec_check_objects(tx, objects) matches Err(CheckError::User(
            UserInputError::MutableObjectUsedMoreThanOnce { .. },
        )),
{
    if spec_first_dup_mutable_from(objects, 0, Seq::empty()) is None {
        lemma_no_dup_mutable_from(objects, 0, Seq::empty());
    }
}

/// A receiving pass that reported no violation saw no receiving id among
/// the ids already taken.
proof fn lemma_receiving_from_ok_no_collision(
    store: LedgerSnapshot,
    epoch_id: u64,
    receiving: Seq<ObjectRef>,
    i: int,
    seen: Seq<ObjectId>,
)
    requires
        0 <= i,
        spec_check_receiving_from(store, epoch_id, receiving, i, seen) is Ok,
    ensures
        forall|k: int|
            i <= k < receiving.len() ==> !seen.contains((#[trigger] receiving[k]).id),
        forall|k: int, l: int|
            i <= k < l < receiving.len() ==> (#[trigger] receiving[k]).id
                != (#[trigger] receiving[l]).id,
    decreases receiving.len() - i,
{
    if i < receiving.len() {
        let id = receiving[i].id;
        lemma_receiving_from_ok_no_collision(store, epoch_id, receiving, i + 1, seen.push(id));
        assert forall|k: int|
            i <= k < receiving.len() implies !seen.contains((#[trigger] receiving[k]).id) by {
            if k > i {
                lemma_push_contains(seen, id, receiving[k].id);
            }
        }
        assert forall|k: int, l: int|
            i <= k < l < receiving.len() implies (#[trigger] receiving[k]).id
                != (#[trigger] receiving[l]).id by {
            if k == i {
                lemma_push_contains(seen, id, receiving[l].id);
            }
        }
    }
}

/// A receiving reference whose id coincides with any declared input id
/// fails the receiving pass, wherever it stands and whatever the rest of
/// the references look like.
pub proof fn lemma_receiving_input_collision_rejected(
    store: LedgerSnapshot,
    receiving: Seq<ObjectRef>,
    input_objects: Seq<ObjectReadResult>,
    config: ProtocolConfig,
    epoch_id: u64,
    k: int,
)
    requires
        0 <= k < receiving.len(),
        spec_input_kind_ids(input_objects).contains(receiving[k].id),
    ensures
        spec_check_receiving_objects(store, receiving, input_objects, config, epoch_id) is Err,
{
    if spec_check_receiving_objects(store, receiving, input_objects, config, epoch_id) is Ok {
        lemma_receiving_from_ok_no_collision(
            store,
            epoch_id,
            receiving,
            0,
            spec_input_kind_ids(input_objects),
        );
    }
}

/// Two receiving references naming the same id fail the receiving pass,
/// wherever they stand and whatever the rest of the references look like.
pub proof fn lemma_duplicate_receiving_rejected(
    store: LedgerSnapshot,
    receiving: Seq<ObjectRef>,
    input_objects: Seq<ObjectReadResult>,
    config: ProtocolConfig,
    epoch_id: u64,
    k: int,
    l: int,
)
    requires
        0 <= k < l < receiving.len(),
        receiving[k].id == receiving[l].id,
    ensures
        spec_check_receiving_objects(store, receiving, input_objects, config, epoch_id) is Err,
{
    if spec_check_receiving_objects(store, receiving, input_objects, config, epoch_id) is Ok {
        lemma_receiving_from_ok_no_collision(
            store,
            epoch_id,
            receiving,
            0,
            spec_input_kind_ids(input_objects),
        );
    }
}

/// An input set over the configured limit is rejected with the size-limit
/// error, regardless of content.
pub proof fn lemma_oversized_input_rejected(objects: Seq<ObjectReadResult>, config: ProtocolConfig)
    requires
        objects.len() > config.max_input_objects,
    ensures
        spec_check_input_objects(objects, config) == Err::<(), UserInputError>(
            UserInputError::SizeLimitExceeded {
                limit: config.max_input_objects,
                value: objects.len() as u64,
            },
        ),
{
}

/// The same, seen from the certificate pipeline: once the version stands,
/// an oversized input set fails with the size-limit error before anything
/// else is looked at.
pub proof fn lemma_oversized_input_rejected_at_certificate(
    tx: TransactionData,
    objects: Seq<ObjectReadResult>,
    config: ProtocolConfig,
    reference_gas_price: u64,
)
    requires
        tx.spec_check_version_supported() is Ok,
        objects.len() > config.max_input_objects,
    ensures
        spec_check_certificate_input(tx, objects, config, reference_gas_price) matches Err(
            CheckError::User(UserInputError::SizeLimitExceeded { .. }),
        ),
{
}

/// Gas admission on a single declared coin turns exactly on its balance:
/// enough balance passes, one unit short of the budget fails with the
/// balance error.
pub proof fn lemma_single_gas_coin_balance_decides(
    entry: ObjectReadResult,
    coin: Object,
    gas_ref: ObjectRef,
    config: ProtocolConfig,
    reference_gas_price: u64,
    gas_budget: u64,
    gas_price: u64,
    kind: TransactionKind,
)
    requires
        !kind.spec_is_system_tx(),
        SuiGasStatus::spec_new(gas_budget, gas_price, reference_gas_price, config) is Ok,
        entry.spec_as_object() == Some(coin),
        entry.spec_id() == gas_ref.id,
    ensures
        (spec_check_gas(
            seq![entry],
            config,
            reference_gas_price,
            seq![gas_ref],
            gas_budget,
            gas_price,
            &kind,
        ) is Ok) <==> coin.coin_balance >= gas_budget,
        coin.coin_balance >= gas_budget ==> spec_check_gas(
            seq![entry],
            config,
            reference_gas_price,
            seq![gas_ref],
            gas_budget,
            gas_price,
            &kind,
        ) == SuiGasStatus::spec_new(gas_budget, gas_price, reference_gas_price, config),
        coin.coin_balance < gas_budget ==> spec_check_gas(
            seq![entry],
            config,
            reference_gas_price,
            seq![gas_ref],
            gas_budget,
            gas_price,
            &kind,
        ) == Err::<SuiGasStatus, UserInputError>(UserInputError::GasBalanceTooLow {
            gas_balance: coin.coin_balance as u128,
            needed_gas_amount: gas_budget as u128,
        }),
{
    let objects = seq![entry];
    let gas = seq![gas_ref];
    assert(objects[0] == entry);
    assert(gas[0] == gas_ref);
    assert(spec_find_input_from(objects, gas_ref.id, 1, Some(entry)) == Some(entry));
    assert(spec_find_input(objects, gas_ref.id) == Some(entry));
    let resolved = Seq::<ObjectReadResult>::empty().push(entry);
    assert(spec_resolve_gas_from(objects, gas, 1, resolved) == Ok::<
        Seq<ObjectReadResult>,
        UserInputError,
    >(resolved));
    assert(spec_resolve_gas_from(objects, gas, 0, Seq::empty()) == Ok::<
        Seq<ObjectReadResult>,
        UserInputError,
    >(resolved));
    assert(resolved[0] == entry);
    assert(spec_balance_of(entry) == coin.coin_balance);
    assert(spec_total_balance_from(resolved, 1, coin.coin_balance as int)
        == coin.coin_balance as int);
    assert(spec_total_balance(resolved) == coin.coin_balance as int);
}

/// A shared input whose declared initial shared version differs from the
/// object's actual one is rejected, wherever it stands among the inputs
/// and whatever else the transaction carries. The privileged singletons
/// are the one exception: a system transaction takes them without reading
/// the object at all.
pub proof fn lemma_shared_version_mismatch_rejected(
    tx: TransactionData,
    objects: Seq<ObjectReadResult>,
    i: int,
)
    requires
        0 <= i < objects.len(),
        ({
            &&& objects[i].input_object_kind matches InputObjectKind::SharedMoveObject {
                id,
                initial_shared_version,
                mutable,
            }
            &&& objects[i].object matches ObjectReadResultKind::Object(object)
            &&& object.owner matches Owner::Shared {
                initial_shared_version: actual_initial_shared_version,
            }
            &&& initial_shared_version != actual_initial_shared_version
            &&& !(tx.spec_is_system_tx() && (id.0 == CLOCK_OBJECT_ID || id.0
                == AUTHENTICATOR_STATE_OBJECT_ID))
        }),
    ensures
        spec_check_objects(tx, objects) is Err,
{
    if spec_check_objects(tx, objects) is Ok {
        lemma_check_objects_from_ok(tx, objects, 0, i);
        assert(spec_object_at_check(tx, objects, i) is Err);
    }
}

/// A receiving reference whose live object is gone but whose id and
/// version are recorded as received this epoch is accepted, and the
/// declared digest plays no part in that acceptance: it is not constrained
/// here at all.
pub proof fn lemma_replayed_receive_accepted(store: LedgerSnapshot, epoch_id: u64, r: ObjectRef)
    requires
        r.version < MAX_SEQUENCE_NUMBER,
        store.spec_get_object(r.id) is None,
        store.spec_has_received(r.id, r.version, epoch_id),
    ensures
        spec_receiving_ref_check(store, epoch_id, r) == Ok::<(), UserInputError>(()),
{
}

/// Gas admission of a system transaction returns the unmetered status for
/// every budget, price and coin list: none of them is read.
pub proof fn lemma_system_tx_gas_unmetered(
    objects: Seq<ObjectReadResult>,
    config: ProtocolConfig,
    reference_gas_price: u64,
    gas: Seq<ObjectRef>,
    gas_budget: u64,
    gas_price: u64,
    kind: TransactionKind,
)
    requires
        kind.spec_is_system_tx(),
    ensures
        spec_check_gas(objects, config, reference_gas_price, gas, gas_budget, gas_price, &kind)
            == Ok::<SuiGasStatus, UserInputError>(SuiGasStatus::spec_unmetered()),
{
}

/// Whether dev-inspect counts the input at `k` as mutable: a present,
/// non-immutable object.
pub open spec fn spec_dev_mutable_at(objects: Seq<ObjectReadResult>, k: int) -> bool {
    objects[k].spec_as_object() matches Some(object) && !object.spec_is_immutable()
}

/// The id dev-inspect guards the input at `k` under: the object's own id.
pub open spec fn spec_dev_id_at(objects: Seq<ObjectReadResult>, k: int) -> ObjectId {
    objects[k].spec_as_object().unwrap().id
}

/// When the dev-inspect uniqueness scan reports nothing from position `i`,
/// no guarded id at or after `i` is in `seen`, and no two guarded inputs
/// at or after `i` share an id.
proof fn lemma_no_dev_dup_from(objects: Seq<ObjectReadResult>, i: int, seen: Seq<ObjectId>)
    requires
        0 <= i,
        spec_dev_inspect_dup_from(objects, i, seen) is None,
    ensures
        forall|k: int|
            i <= k < objects.len() && #[trigger] spec_dev_mutable_at(objects, k)
                ==> !seen.contains(spec_dev_id_at(objects, k)),
        forall|k: int, l: int|
            i <= k < l < objects.len() && #[trigger] spec_dev_mutable_at(objects, k)
                && #[trigger] spec_dev_mutable_at(objects, l) ==> spec_dev_id_at(objects, k)
                != spec_dev_id_at(objects, l),
    decreases objects.len() - i,
{
    if i < objects.len() {
        if spec_dev_mutable_at(objects, i) {
            let id = spec_dev_id_at(objects, i);
            lemma_no_dev_dup_from(objects, i + 1, seen.push(id));
            assert forall|k: int|
                i <= k < objects.len() && #[trigger] spec_dev_mutable_at(objects, k)
                    implies !seen.contains(spec_dev_id_at(objects, k)) by {
                if k > i {
                    lemma_push_contains(seen, id, spec_dev_id_at(objects, k));
                }
            }
            assert forall|k: int, l: int|
                i <= k < l < objects.len() && #[trigger] spec_dev_mutable_at(objects, k)
                    && #[trigger] spec_dev_mutable_at(objects, l)
                    implies spec_dev_id_at(objects, k) != spec_dev_id_at(objects, l) by {
                if k == i {
                    lemma_push_contains(seen, id, spec_dev_id_at(objects, l));
                }
            }
        } else {
            lemma_no_dev_dup_from(objects, i + 1, seen);
        }
    }
}

/// A dev-inspect call whose inputs reference the same mutable id twice
/// fails with the duplicate-use error before the gas object is appended:
/// the supplied gas object is arbitrary here, so appending it can never
/// mask the earlier failure.
pub proof fn lemma_dev_inspect_duplicate_rejected(
    config: ProtocolConfig,
    kind: TransactionKind,
    objects: Seq<ObjectReadResult>,
    gas_object: Object,
    i: int,
    j: int,
)
    requires
        kind.spec_validity_check(config) is Ok,
        !kind.spec_is_system_tx(),
        objects.len() <= config.max_input_objects,
        0 <= i < j < objects.len(),
        spec_dev_mutable_at(objects, i),
        spec_dev_mutable_at(objects, j),
        spec_dev_id_at(objects, i) == spec_dev_id_at(objects, j),
    ensures
        spec_check_dev_inspect_input(config, kind, objects, gas_object) matches Err(
            UserInputError::MutableObjectUsedMoreThanOnce { .. },
        ),
{
    if spec_dev_inspect_dup_from(objects, 0, Seq::empty()) is None {
        lemma_no_dev_dup_from(objects, 0, Seq::empty());
    }
}

} // verus!
