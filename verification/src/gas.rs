//! Gas admission: system transactions ride free; everyone else needs a gas
//! status within protocol bounds and declared coins whose combined balance
//! covers the budget.

use vstd::prelude::*;
use crate::config::ProtocolConfig;
use crate::errors::UserInputError;
use crate::objects::{InputObjects, ObjectId, ObjectReadResult, ObjectReadResultKind, ObjectRef};
use crate::transaction::TransactionKind;

verus! {

/// The gas accounting mode settled for one transaction's lifecycle.
#[derive(Clone, Copy, PartialEq, Eq, Structural, Debug)]
pub struct SuiGasStatus {
    /// False for system transactions, whose execution is never charged.
    pub metered: bool,
    pub gas_budget: u64,
    pub gas_price: u64,
}

impl SuiGasStatus {
    /// The zero-cost status of a system transaction.
    pub open spec fn spec_unmetered() -> SuiGasStatus {
        SuiGasStatus { metered: false, gas_budget: 0, gas_price: 0 }
    }

    pub fn new_unmetered() -> (r: Self)
        ensures
            r == Self::spec_unmetered(),
    {
        SuiGasStatus { metered: false, gas_budget: 0, gas_price: 0 }
    }

    /// A metered status, owed whenever price and budget respect the
    /// protocol bounds: price within [reference price, maximum price],
    /// budget within [minimum, maximum].
    pub open spec fn spec_new(
        gas_budget: u64,
        gas_price: u64,
        reference_gas_price: u64,
        config: ProtocolConfig,
    ) -> Result<SuiGasStatus, UserInputError> {
        if gas_price < reference_gas_price {
            Err(UserInputError::GasPriceUnderReferenceGasPrice {
                gas_price,
                reference_gas_price,
            })
        } else if gas_price > config.max_gas_price {
            Err(UserInputError::GasPriceTooHigh { gas_price, max_gas_price: config.max_gas_price })
        } else if gas_budget > config.max_tx_gas {
            Err(UserInputError::GasBudgetTooHigh { gas_budget, max_budget: config.max_tx_gas })
        } else if gas_budget < config.min_tx_gas {
            Err(UserInputError::GasBudgetTooLow { gas_budget, min_budget: config.min_tx_gas })
        } else {
            Ok(SuiGasStatus { metered: true, gas_budget, gas_price })
        }
    }

    pub fn new(
        gas_budget: u64,
        gas_price: u64,
        reference_gas_price: u64,
        config: &ProtocolConfig,
    ) -> (r: Result<Self, UserInputError>)
        ensures
            r == Self::spec_new(gas_budget, gas_price, reference_gas_price, *config),
    {
        if gas_price < reference_gas_price {
            Err(UserInputError::GasPriceUnderReferenceGasPrice {
                gas_price,
                reference_gas_price,
            })
        } else if gas_price > config.max_gas_price {
            Err(UserInputError::GasPriceTooHigh { gas_price, max_gas_price: config.max_gas_price })
        } else if gas_budget > config.max_tx_gas {
            Err(UserInputError::GasBudgetTooHigh { gas_budget, max_budget: config.max_tx_gas })
        } else if gas_budget < config.min_tx_gas {
            Err(UserInputError::GasBudgetTooLow { gas_budget, min_budget: config.min_tx_gas })
        } else {
            Ok(SuiGasStatus { metered: true, gas_budget, gas_price })
        }
    }
}

/// The entry holding `id`, scanning from `i` with `cur` the best match so
/// far; a later entry with the same id shadows an earlier one.
pub open spec fn spec_find_input_from(
    objects: Seq<ObjectReadResult>,
    id: ObjectId,
    i: int,
    cur: Option<ObjectReadResult>,
) -> Option<ObjectReadResult>
    decreases objects.len() - i,
{
    if i < 0 || i >= objects.len() {
        cur
    } else if objects[i].spec_id() == id {
        spec_find_input_from(objects, id, i + 1, Some(objects[i]))
    } else {
        spec_find_input_from(objects, id, i + 1, cur)
    }
}

/// The loaded input a declared id resolves to, if any.
pub open spec fn spec_find_input(objects: Seq<ObjectReadResult>, id: ObjectId) -> Option<
    ObjectReadResult,
> {
    spec_find_input_from(objects, id, 0, None)
}

/// The coin balance an input contributes: tombstones contribute nothing.
pub open spec fn spec_balance_of(entry: ObjectReadResult) -> u64 {
    match entry.object {
        ObjectReadResultKind::Object(object) => object.coin_balance,
        ObjectReadResultKind::DeletedSharedObject(..) => 0,
    }
}

/// Resolve the declared gas references from position `i` on against the
/// loaded inputs, accumulating the resolved entries; the first reference
/// that resolves to nothing fails the whole resolution.
pub open spec fn spec_resolve_gas_from(
    objects: Seq<ObjectReadResult>,
    gas: Seq<ObjectRef>,
    i: int,
    acc: Seq<ObjectReadResult>,
) -> Result<Seq<ObjectReadResult>, UserInputError>
    decreases gas.len() - i,
{
    if i < 0 || i >= gas.len() {
        Ok(acc)
    } else {
        match spec_find_input(objects, gas[i].id) {
            None => Err(UserInputError::ObjectNotFound {
                object_id: gas[i].id,
                version: Some(gas[i].version),
            }),
            Some(entry) => spec_resolve_gas_from(objects, gas, i + 1, acc.push(entry)),
        }
    }
}

/// Combined balance of the entries from position `i` on, over the
/// mathematical integers.
pub open spec fn spec_total_balance_from(entries: Seq<ObjectReadResult>, i: int, acc: int) -> int
    decreases entries.len() - i,
{
    if i < 0 || i >= entries.len() {
        acc
    } else {
        spec_total_balance_from(entries, i + 1, acc + spec_balance_of(entries[i]))
    }
}

pub open spec fn spec_total_balance(entries: Seq<ObjectReadResult>) -> int {
    spec_total_balance_from(entries, 0, 0)
}

/// The whole gas admission decision. A system transaction is unmetered and
/// its budget is never read. Anything else needs a status within protocol
/// bounds, every declared gas reference resolved among the loaded inputs,
/// and a combined balance that covers the budget.
pub open spec fn spec_check_gas(
    objects: Seq<ObjectReadResult>,
    config: ProtocolConfig,
    reference_gas_price: u64,
    gas: Seq<ObjectRef>,
    gas_budget: u64,
    gas_price: u64,
    tx_kind: &TransactionKind,
) -> Result<SuiGasStatus, UserInputError> {
    if tx_kind.spec_is_system_tx() {
        Ok(SuiGasStatus::spec_unmetered())
    } else {
        match SuiGasStatus::spec_new(gas_budget, gas_price, reference_gas_price, config) {
            Err(e) => Err(e),
            Ok(gas_status) => match spec_resolve_gas_from(objects, gas, 0, Seq::empty()) {
                Err(e) => Err(e),
                Ok(gas_objects) => {
                    if spec_total_balance(gas_objects) < gas_budget {
                        Err(UserInputError::GasBalanceTooLow {
                            gas_balance: spec_total_balance(gas_objects) as u128,
                            needed_gas_amount: gas_budget as u128,
                        })
                    } else {
                        Ok(gas_status)
                    }
                },
            },
        }
    }
}

/// Find the loaded input a declared id resolves to.
fn find_input(objects: &InputObjects, id: ObjectId) -> (r: Option<ObjectReadResult>)
    ensures
        r == spec_find_input(objects@, id),
{
    let mut cur: Option<ObjectReadResult> = None;
    let mut i: usize = 0;
    while i < objects.objects.len()
        invariant
            0 <= i <= objects@.len(),
            spec_find_input_from(objects@, id, i as int, cur) == spec_find_input(objects@, id),
        decreases objects@.len() - i,
    {
        if objects.objects[i].id() == id {
            cur = Some(objects.objects[i]);
        }
        i += 1;
    }
    cur
}

/// Check the transaction's gas data and coins; on success, return the gas
/// status to be used for the transaction's lifecycle.
pub(crate) fn check_gas(
    objects: &InputObjects,
    protocol_config: &ProtocolConfig,
    reference_gas_price: u64,
    gas: &Vec<ObjectRef>,
    gas_budget: u64,
    gas_price: u64,
    tx_kind: &TransactionKind,
) -> (r: Result<SuiGasStatus, UserInputError>)
    ensures
        r == spec_check_gas(
            objects@,
            *protocol_config,
            reference_gas_price,
            gas@,
            gas_budget,
            gas_price,
            tx_kind,
        ),
{
    if tx_kind.is_system_tx() {
        return Ok(SuiGasStatus::new_unmetered());
    }
    let gas_status = match SuiGasStatus::new(
        gas_budget,
        gas_price,
        reference_gas_price,
        protocol_config,
    ) {
        Err(e) => {
            return Err(e);
        },
        Ok(s) => s,
    };

    let mut gas_objects: Vec<ObjectReadResult> = Vec::new();
    let mut i: usize = 0;
    while i < gas.len()
        invariant
            0 <= i <= gas@.len(),
            !tx_kind.spec_is_system_tx(),
            SuiGasStatus::spec_new(gas_budget, gas_price, reference_gas_price, *protocol_config)
                == Ok::<SuiGasStatus, UserInputError>(gas_status),
            spec_resolve_gas_from(objects@, gas@, i as int, gas_objects@)
                == spec_resolve_gas_from(objects@, gas@, 0, Seq::<ObjectReadResult>::empty()),
        decreases gas@.len() - i,
    {
        match find_input(objects, gas[i].id) {
            None => {
                return Err(UserInputError::ObjectNotFound {
                    object_id: gas[i].id,
                    version: Some(gas[i].version),
                });
            },
            Some(entry) => {
                gas_objects.push(entry);
            },
        }
        i += 1;
    }

    let ghost resolved = gas_objects@;
    let mut total: u128 = 0;
    let mut k: usize = 0;
    while k < gas_objects.len()
        invariant
            0 <= k <= resolved.len(),
            resolved == gas_objects@,
            total + spec_total_balance_from(resolved, k as int, 0) == spec_total_balance(resolved),
            total <= k * (u64::MAX as int),
        decreases resolved.len() - k,
    {
        let balance: u64 = match &gas_objects[k].object {
            ObjectReadResultKind::Object(object) => object.coin_balance,
            ObjectReadResultKind::DeletedSharedObject(..) => 0,
        };
        proof {
            lemma_total_shift(resolved, k as int, balance as int);
            assert((k + 1) * (u64::MAX as int) == k * (u64::MAX as int) + u64::MAX as int)
                by (nonlinear_arith);
            assert((k + 1) * (u64::MAX as int) <= (u64::MAX as int) * (u64::MAX as int))
                by (nonlinear_arith)
                requires 0 <= k + 1 <= u64::MAX as int;
            assert((u64::MAX as int) * (u64::MAX as int) < u128::MAX as int);
        }
        total = total + balance as u128;
        k += 1;
    }

    if total < gas_budget as u128 {
        Err(UserInputError::GasBalanceTooLow {
            gas_balance: total,
            needed_gas_amount: gas_budget as u128,
        })
    } else {
        Ok(gas_status)
    }
}

/// Splitting the running sum at one entry.
proof fn lemma_total_shift(entries: Seq<ObjectReadResult>, k: int, b: int)
    requires
        0 <= k < entries.len(),
        b == spec_balance_of(entries[k]),
    ensures
        spec_total_balance_from(entries, k as int, 0) == b + spec_total_balance_from(
            entries,
            k + 1,
            0,
        ),
{
    lemma_total_from_acc(entries, k + 1, b);
}

/// The accumulator passes straight through the recursion.
proof fn lemma_total_from_acc(entries: Seq<ObjectReadResult>, i: int, acc: int)
    ensures
        spec_total_balance_from(entries, i, acc) == acc + spec_total_balance_from(entries, i, 0),
    decreases entries.len() - i,
{
    if 0 <= i < entries.len() {
        lemma_total_from_acc(entries, i + 1, acc + spec_balance_of(entries[i]));
        lemma_total_from_acc(entries, i + 1, spec_balance_of(entries[i]) as int);
    }
}

} // verus!
