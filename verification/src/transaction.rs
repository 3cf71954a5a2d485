//! Transactions as the admission gate sees them: the kind (system versus
//! programmable), gas fields, declared receiving references, and the cheap
//! version and validity checks that open every pipeline.

use vstd::prelude::*;
use crate::config::ProtocolConfig;
use crate::errors::UserInputError;
use crate::objects::{ObjectId, ObjectRef, SuiAddress};

verus! {

/// Lowest transaction message version this build understands.
pub const MIN_SUPPORTED_MESSAGE_VERSION: u64 = 1;

/// Highest transaction message version this build understands.
pub const MAX_SUPPORTED_MESSAGE_VERSION: u64 = 1;

/// The privileged transaction kinds the system itself injects. They bypass
/// gas metering and may touch protected singleton objects.
#[derive(Clone, Copy, PartialEq, Eq, Structural, Debug)]
pub enum SystemTransactionKind {
    Genesis,
    ChangeEpoch,
    ConsensusCommitPrologue,
    AuthenticatorStateUpdate,
}

/// One module of a package the transaction publishes. The verification cost
/// is the deterministic unit count the bytecode verifier's meter reports for
/// these bytes; the caller obtains it from the verifier so that the verdict
/// stays identical on every validator.
#[derive(Clone, PartialEq, Eq, Debug)]
pub struct PublishedModule {
    pub bytes: Vec<u8>,
    /// Modules of system packages are exempt from metered verification.
    pub system_package: bool,
    /// Meter units the bytecode verifier consumes on `bytes`.
    pub verification_units: u64,
}

/// The payload of a programmable transaction that admission reads: the
/// modules it publishes. Everything else in the payload is the execution
/// engine's business.
#[derive(Clone, PartialEq, Eq, Debug)]
pub struct ProgrammableTransaction {
    pub published_modules: Vec<PublishedModule>,
}

/// System versus programmable, with what each carries for admission.
#[derive(Clone, PartialEq, Eq, Debug)]
pub enum TransactionKind {
    SystemTransaction(SystemTransactionKind),
    ProgrammableTransaction(ProgrammableTransaction),
}

impl TransactionKind {
    pub open spec fn spec_is_system_tx(&self) -> bool {
        self is SystemTransaction
    }

    pub fn is_system_tx(&self) -> (r: bool)
        ensures
            r == self.spec_is_system_tx(),
    {
        matches!(self, TransactionKind::SystemTransaction(_))
    }

    pub open spec fn spec_is_genesis_tx(&self) -> bool {
        self matches TransactionKind::SystemTransaction(SystemTransactionKind::Genesis)
    }

    pub fn is_genesis_tx(&self) -> (r: bool)
        ensures
            r == self.spec_is_genesis_tx(),
    {
        matches!(
            self,
            TransactionKind::SystemTransaction(SystemTransactionKind::Genesis)
        )
    }

    /// Arity limits on the kind itself: a publication may not carry more
    /// modules than the protocol allows.
    pub open spec fn spec_validity_check(&self, config: ProtocolConfig) -> Result<
        (),
        UserInputError,
    > {
        match self {
            TransactionKind::SystemTransaction(_) => Ok(()),
            TransactionKind::ProgrammableTransaction(pt) => {
                if pt.published_modules@.len() > config.max_modules_in_publish {
                    Err(UserInputError::SizeLimitExceeded {
                        limit: config.max_modules_in_publish,
                        value: pt.published_modules@.len() as u64,
                    })
                } else {
                    Ok(())
                }
            },
        }
    }

    pub fn validity_check(&self, config: &ProtocolConfig) -> (r: Result<(), UserInputError>)
        ensures
            r == self.spec_validity_check(*config),
    {
        match self {
            TransactionKind::SystemTransaction(_) => Ok(()),
            TransactionKind::ProgrammableTransaction(pt) => {
                if pt.published_modules.len() as u64 > config.max_modules_in_publish {
                    Err(UserInputError::SizeLimitExceeded {
                        limit: config.max_modules_in_publish,
                        value: pt.published_modules.len() as u64,
                    })
                } else {
                    Ok(())
                }
            },
        }
    }
}

/// The verdict of the deny policy gate, an external collaborator consulted
/// once on the full signing path. The caller runs that policy over the
/// transaction, its signatures and the policy configuration, and hands the
/// outcome in; admission only folds it into the pipeline.
#[derive(Clone, PartialEq, Eq, Debug)]
pub enum DenyVerdict {
    Allow,
    Deny { reason: String },
}

/// Everything of a transaction that the admission gate reads.
#[derive(Clone, PartialEq, Eq, Debug)]
pub struct TransactionData {
    /// Declared message version, checked against what this build supports.
    pub message_version: u64,
    pub sender: SuiAddress,
    /// Who pays: differs from the sender under sponsorship.
    pub gas_owner: SuiAddress,
    /// The declared gas coins.
    pub gas: Vec<ObjectRef>,
    pub gas_budget: u64,
    pub gas_price: u64,
    pub kind: TransactionKind,
    /// Objects the transaction expects to receive by transfer-to-object.
    pub receiving_objects: Vec<ObjectRef>,
}

impl TransactionData {
    pub open spec fn spec_is_system_tx(&self) -> bool {
        self.kind.spec_is_system_tx()
    }

    pub fn is_system_tx(&self) -> (r: bool)
        ensures
            r == self.spec_is_system_tx(),
    {
        self.kind.is_system_tx()
    }

    pub open spec fn spec_is_genesis_tx(&self) -> bool {
        self.kind.spec_is_genesis_tx()
    }

    pub fn is_genesis_tx(&self) -> (r: bool)
        ensures
            r == self.spec_is_genesis_tx(),
    {
        self.kind.is_genesis_tx()
    }

    /// Whether `id` is one of the declared gas coins, and so is expected to
    /// be owned by the gas owner rather than the sender.
    pub open spec fn spec_gas_references_id(&self, id: ObjectId) -> bool {
        exists|j: int| 0 <= j < self.gas@.len() && self.gas@[j].id == id
    }

    pub fn gas_references_id(&self, id: ObjectId) -> (r: bool)
        ensures
            r == self.spec_gas_references_id(id),
    {
        let ghost gas_refs = self.gas@;
        let mut j: usize = 0;
        while j < self.gas.len()
            invariant
                0 <= j <= gas_refs.len(),
                gas_refs == self.gas@,
                forall|k: int| 0 <= k < j ==> gas_refs[k].id != id,
            decreases gas_refs.len() - j,
        {
            if self.gas[j].id == id {
                assert(self.spec_gas_references_id(id));
                return true;
            }
            j += 1;
        }
        false
    }

    /// The message version must be one this build supports.
    pub open spec fn spec_check_version_supported(&self) -> Result<(), UserInputError> {
        if self.message_version < MIN_SUPPORTED_MESSAGE_VERSION
            || self.message_version > MAX_SUPPORTED_MESSAGE_VERSION {
            Err(UserInputError::UnsupportedMessageVersion {
                declared: self.message_version,
                max_supported: MAX_SUPPORTED_MESSAGE_VERSION,
            })
        } else {
            Ok(())
        }
    }

    pub fn check_version_supported(&self) -> (r: Result<(), UserInputError>)
        ensures
            r == self.spec_check_version_supported(),
    {
        if self.message_version < MIN_SUPPORTED_MESSAGE_VERSION
            || self.message_version > MAX_SUPPORTED_MESSAGE_VERSION {
            Err(UserInputError::UnsupportedMessageVersion {
                declared: self.message_version,
                max_supported: MAX_SUPPORTED_MESSAGE_VERSION,
            })
        } else {
            Ok(())
        }
    }

    /// Kind validity plus gas-field sanity: a non-system transaction must
    /// declare at least one gas coin and at most the configured maximum.
    pub open spec fn spec_validity_check(&self, config: ProtocolConfig) -> Result<
        (),
        UserInputError,
    > {
        match self.kind.spec_validity_check(config) {
            Err(e) => Err(e),
            Ok(_) => {
                if self.kind.spec_is_system_tx() {
                    Ok(())
                } else if self.gas@.len() == 0 {
                    Err(UserInputError::MissingGasPayment)
                } else if self.gas@.len() > config.max_gas_payment_objects {
                    Err(UserInputError::SizeLimitExceeded {
                        limit: config.max_gas_payment_objects,
                        value: self.gas@.len() as u64,
                    })
                } else {
                    Ok(())
                }
            },
        }
    }

    pub fn validity_check(&self, config: &ProtocolConfig) -> (r: Result<(), UserInputError>)
        ensures
            r == self.spec_validity_check(*config),
    {
        match self.kind.validity_check(config) {
            Err(e) => Err(e),
            Ok(_) => {
                if self.kind.is_system_tx() {
                    Ok(())
                } else if self.gas.len() == 0 {
                    Err(UserInputError::MissingGasPayment)
                } else if self.gas.len() as u64 > config.max_gas_payment_objects {
                    Err(UserInputError::SizeLimitExceeded {
                        limit: config.max_gas_payment_objects,
                        value: self.gas.len() as u64,
                    })
                } else {
                    Ok(())
                }
            },
        }
    }

    /// Validity of everything but the gas fields, for the path where the
    /// gas coin is supplied from outside the transaction.
    pub open spec fn spec_validity_check_no_gas_check(&self, config: ProtocolConfig) -> Result<
        (),
        UserInputError,
    > {
        self.kind.spec_validity_check(config)
    }

    pub fn validity_check_no_gas_check(&self, config: &ProtocolConfig) -> (r: Result<
        (),
        UserInputError,
    >)
        ensures
            r == self.spec_validity_check_no_gas_check(*config),
    {
        self.kind.validity_check(config)
    }
}

} // verus!
