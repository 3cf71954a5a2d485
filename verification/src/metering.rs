//! The package-publication metering gate: every module a programmable
//! transaction publishes outside the system packages is verified under one
//! shared deterministic unit budget, so a single transaction cannot buy
//! unbounded signing-time work.

use vstd::prelude::*;
use crate::config::ProtocolConfig;
use crate::errors::UserInputError;
use crate::transaction::{PublishedModule, TransactionData, TransactionKind};

verus! {

/// The latency recorder injected into the metering gate. One pass records
/// exactly one observation: under the success series when the whole
/// publication verified within budget, under the timeout series when the
/// shared budget ran out. The counts stand for the observations an outside
/// metrics sink would aggregate.
#[derive(Clone, Copy, PartialEq, Eq, Structural, Debug)]
pub struct BytecodeVerifierMetrics {
    /// Observations of metering passes that finished within budget.
    pub success_observations: u64,
    /// Observations of metering passes that exhausted the shared budget.
    pub timeout_observations: u64,
}

/// Meter the modules from position `i` on against the units still left of
/// the shared budget. A module of a system package is exempt. The first
/// module whose cost exceeds what is left aborts the whole pass.
pub open spec fn spec_meter_from(
    modules: Seq<PublishedModule>,
    i: int,
    remaining: u64,
    meter_budget: u64,
) -> Result<(), UserInputError>
    decreases modules.len() - i,
{
    if i < 0 || i >= modules.len() {
        Ok(())
    } else if modules[i].system_package {
        spec_meter_from(modules, i + 1, remaining, meter_budget)
    } else if modules[i].verification_units > remaining {
        Err(UserInputError::PackageVerificationTimedout { meter_budget })
    } else {
        spec_meter_from(modules, i + 1, (remaining - modules[i].verification_units) as u64, meter_budget)
    }
}

/// The metering verdict for a whole transaction: system transactions are
/// exempt; a programmable transaction's published modules share one budget.
pub open spec fn spec_check_non_system_packages(
    tx: TransactionData,
    config: ProtocolConfig,
) -> Result<(), UserInputError> {
    match tx.kind {
        TransactionKind::SystemTransaction(_) => Ok(()),
        TransactionKind::ProgrammableTransaction(pt) => spec_meter_from(
            pt.published_modules@,
            0,
            config.max_verifier_meter_units,
            config.max_verifier_meter_units,
        ),
    }
}

/// The recorder state after one metering call: untouched when metering
/// was skipped, otherwise exactly one observation, on the series the
/// verdict selects.
pub open spec fn spec_metrics_after(
    metrics: BytecodeVerifierMetrics,
    tx: TransactionData,
    config: ProtocolConfig,
) -> BytecodeVerifierMetrics {
    match tx.kind {
        TransactionKind::SystemTransaction(_) => metrics,
        TransactionKind::ProgrammableTransaction(_) => {
            if spec_check_non_system_packages(tx, config) is Ok {
                BytecodeVerifierMetrics {
                    success_observations: (metrics.success_observations + 1) as u64,
                    timeout_observations: metrics.timeout_observations,
                }
            } else {
                BytecodeVerifierMetrics {
                    success_observations: metrics.success_observations,
                    timeout_observations: (metrics.timeout_observations + 1) as u64,
                }
            }
        },
    }
}

/// Run the metered verification pass over every published module that is
/// not part of a system package, all under one shared unit budget, and
/// record the outcome to exactly one of the two latency series.
pub fn check_non_system_packages_to_be_published(
    transaction: &TransactionData,
    protocol_config: &ProtocolConfig,
    metrics: &mut BytecodeVerifierMetrics,
) -> (r: Result<(), UserInputError>)
    requires
        old(metrics).success_observations < u64::MAX,
        old(metrics).timeout_observations < u64::MAX,
    ensures
        r == spec_check_non_system_packages(*transaction, *protocol_config),
        *final(metrics) == spec_metrics_after(*old(metrics), *transaction, *protocol_config),
{
    let pt = match &transaction.kind {
        TransactionKind::SystemTransaction(_) => {
            return Ok(());
        },
        TransactionKind::ProgrammableTransaction(pt) => pt,
    };

    let meter_budget = protocol_config.max_verifier_meter_units;
    let mut remaining: u64 = meter_budget;
    let mut i: usize = 0;
    while i < pt.published_modules.len()
        invariant
            0 <= i <= pt.published_modules@.len(),
            transaction.kind matches TransactionKind::ProgrammableTransaction(p) && p == *pt,
            meter_budget == protocol_config.max_verifier_meter_units,
            old(metrics).success_observations < u64::MAX,
            old(metrics).timeout_observations < u64::MAX,
            *metrics == *old(metrics),
            spec_meter_from(pt.published_modules@, i as int, remaining, meter_budget)
                == spec_meter_from(pt.published_modules@, 0, meter_budget, meter_budget),
        decreases pt.published_modules@.len() - i,
    {
        let module = &pt.published_modules[i];
        if !module.system_package {
            if module.verification_units > remaining {
                metrics.timeout_observations = metrics.timeout_observations + 1;
                return Err(UserInputError::PackageVerificationTimedout { meter_budget });
            }
            remaining = remaining - module.verification_units;
        }
        i += 1;
    }
    metrics.success_observations = metrics.success_observations + 1;
    Ok(())
}

} // verus!
