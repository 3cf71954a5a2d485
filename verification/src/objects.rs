//! The object model that transaction admission reasons about: identities,
//! versions, digests, owners, declared input kinds, and the resolved input
//! collection handed to the checks.

use vstd::prelude::*;

verus! {

/// Identity of a ledger object.
#[derive(Clone, Copy, PartialEq, Eq, Structural, Debug)]
pub struct ObjectId(pub u64);

/// An account address. Object ids and account addresses share one address
/// space, so one converts into the other losslessly.
#[derive(Clone, Copy, PartialEq, Eq, Structural, Debug)]
pub struct SuiAddress(pub u64);

/// Content digest of one version of an object.
#[derive(Clone, Copy, PartialEq, Eq, Structural, Debug)]
pub struct ObjectDigest(pub u64);

/// Id of the shared clock singleton object.
pub const CLOCK_OBJECT_ID: u64 = 6;

/// Initial shared version the clock singleton was created at.
pub const CLOCK_OBJECT_SHARED_VERSION: u64 = 1;

/// Id of the shared authenticator-state singleton object.
pub const AUTHENTICATOR_STATE_OBJECT_ID: u64 = 7;

/// Reserved sentinel: no real object ever carries this version, so every
/// declared version must lie strictly below it.
pub const MAX_SEQUENCE_NUMBER: u64 = 0x7fff_ffff_ffff_ffff;

impl ObjectId {
    /// The address that occupies the same slot of the shared address space.
    pub fn as_address(self) -> (r: SuiAddress)
        ensures
            r == (SuiAddress(self.0)),
    {
        SuiAddress(self.0)
    }
}

/// Who controls an object, and under which discipline it may be used.
#[derive(Clone, Copy, PartialEq, Eq, Structural, Debug)]
pub enum Owner {
    /// Owned exclusively by one account.
    AddressOwner(SuiAddress),
    /// A child object, reachable only through its parent object.
    ObjectOwner(ObjectId),
    /// Co-owned; versioned by the version at which it first became shared.
    Shared { initial_shared_version: u64 },
    /// Read-only forever; nobody owns it.
    Immutable,
}

/// The coarse ownership category of an [`Owner`].
#[derive(Clone, Copy, PartialEq, Eq, Structural, Debug)]
pub enum OwnerType {
    Immutable,
    Address,
    Object,
    Shared,
}

/// The category of an owner, with the controlling address when there is one.
pub open spec fn spec_owner_info(owner: Owner) -> (OwnerType, Option<SuiAddress>) {
    match owner {
        Owner::AddressOwner(address) => (OwnerType::Address, Some(address)),
        Owner::ObjectOwner(id) => (OwnerType::Object, Some(SuiAddress(id.0))),
        Owner::Shared { .. } => (OwnerType::Shared, None),
        Owner::Immutable => (OwnerType::Immutable, None),
    }
}

/// Classify an owner into its category and controlling address.
pub fn owner_to_owner_info(owner: &Owner) -> (r: (OwnerType, Option<SuiAddress>))
    ensures
        r == spec_owner_info(*owner),
{
    match owner {
        Owner::AddressOwner(address) => (OwnerType::Address, Some(*address)),
        Owner::ObjectOwner(id) => (OwnerType::Object, Some(id.as_address())),
        Owner::Shared { .. } => (OwnerType::Shared, None),
        Owner::Immutable => (OwnerType::Immutable, None),
    }
}

/// A snapshot of one ledger object: a versioned, digest-addressed unit of
/// state with an owner. `coin_balance` is the coin value for coin objects and
/// zero for everything else, packages included.
#[derive(Clone, Copy, PartialEq, Eq, Structural, Debug)]
pub struct Object {
    pub id: ObjectId,
    pub version: u64,
    pub digest: ObjectDigest,
    pub owner: Owner,
    pub is_package: bool,
    pub coin_balance: u64,
}

/// A reference to one object version as a transaction author declares it:
/// the claim to be checked against the real object.
#[derive(Clone, Copy, PartialEq, Eq, Structural, Debug)]
pub struct ObjectRef {
    pub id: ObjectId,
    pub version: u64,
    pub digest: ObjectDigest,
}

impl Object {
    pub open spec fn spec_object_reference(self) -> ObjectRef {
        ObjectRef { id: self.id, version: self.version, digest: self.digest }
    }

    /// The full (id, version, digest) reference of this object as it stands.
    pub fn compute_object_reference(&self) -> (r: ObjectRef)
        ensures
            r == self.spec_object_reference(),
    {
        ObjectRef { id: self.id, version: self.version, digest: self.digest }
    }

    pub open spec fn spec_is_immutable(self) -> bool {
        self.owner is Immutable
    }

    pub fn is_immutable(&self) -> (r: bool)
        ensures
            r == self.spec_is_immutable(),
    {
        matches!(self.owner, Owner::Immutable)
    }

    pub open spec fn spec_is_address_owned(self) -> bool {
        self.owner is AddressOwner
    }

    pub fn is_address_owned(&self) -> (r: bool)
        ensures
            r == self.spec_is_address_owned(),
    {
        matches!(self.owner, Owner::AddressOwner(_))
    }
}

/// How a transaction declares it intends to use one input object,
/// independent of the object's true current state.
#[derive(Clone, Copy, PartialEq, Eq, Structural, Debug)]
pub enum InputObjectKind {
    /// The input is claimed to be a package.
    MovePackage(ObjectId),
    /// The input is claimed to be an exclusively owned or immutable object at
    /// exactly this reference.
    ImmOrOwnedMoveObject(ObjectRef),
    /// The input is claimed to be a shared object, to be used read-only or
    /// mutably.
    SharedMoveObject { id: ObjectId, initial_shared_version: u64, mutable: bool },
}

impl InputObjectKind {
    pub open spec fn spec_object_id(self) -> ObjectId {
        match self {
            InputObjectKind::MovePackage(id) => id,
            InputObjectKind::ImmOrOwnedMoveObject(object_ref) => object_ref.id,
            InputObjectKind::SharedMoveObject { id, .. } => id,
        }
    }

    pub fn object_id(&self) -> (r: ObjectId)
        ensures
            r == self.spec_object_id(),
    {
        match self {
            InputObjectKind::MovePackage(id) => *id,
            InputObjectKind::ImmOrOwnedMoveObject(object_ref) => object_ref.id,
            InputObjectKind::SharedMoveObject { id, .. } => *id,
        }
    }
}

/// What the ledger had for one declared input: the live object, or the
/// tombstone of a shared object a prior transaction consumed and removed.
#[derive(Clone, Copy, PartialEq, Eq, Structural, Debug)]
pub enum ObjectReadResultKind {
    Object(Object),
    /// Version and digest of a deleted shared object; no live content.
    DeletedSharedObject(u64, ObjectDigest),
}

/// One resolved input: the declared kind paired with what the ledger had.
#[derive(Clone, Copy, PartialEq, Eq, Structural, Debug)]
pub struct ObjectReadResult {
    pub input_object_kind: InputObjectKind,
    pub object: ObjectReadResultKind,
}

impl ObjectReadResult {
    pub fn new(input_object_kind: InputObjectKind, object: ObjectReadResultKind) -> (r: Self)
        ensures
            r == (ObjectReadResult { input_object_kind, object }),
    {
        ObjectReadResult { input_object_kind, object }
    }

    /// Wrap a gas coin as an extra exclusively-owned input.
    pub fn new_from_gas_object(gas: &Object) -> (r: Self)
        ensures
            r == (ObjectReadResult {
                input_object_kind: InputObjectKind::ImmOrOwnedMoveObject(
                    gas.spec_object_reference(),
                ),
                object: ObjectReadResultKind::Object(*gas),
            }),
    {
        let gas_ref = gas.compute_object_reference();
        ObjectReadResult {
            input_object_kind: InputObjectKind::ImmOrOwnedMoveObject(gas_ref),
            object: ObjectReadResultKind::Object(*gas),
        }
    }

    /// The id this input stands for, as declared.
    pub open spec fn spec_id(self) -> ObjectId {
        self.input_object_kind.spec_object_id()
    }

    pub fn id(&self) -> (r: ObjectId)
        ensures
            r == self.spec_id(),
    {
        self.input_object_kind.object_id()
    }

    pub open spec fn spec_as_object(self) -> Option<Object> {
        match self.object {
            ObjectReadResultKind::Object(object) => Some(object),
            ObjectReadResultKind::DeletedSharedObject(..) => None,
        }
    }

    pub fn as_object(&self) -> (r: Option<Object>)
        ensures
            r == self.spec_as_object(),
    {
        match &self.object {
            ObjectReadResultKind::Object(object) => Some(*object),
            ObjectReadResultKind::DeletedSharedObject(..) => None,
        }
    }

    /// Whether this input takes the object mutably: packages never, owned
    /// inputs unless the object is immutable, shared inputs as declared.
    pub open spec fn spec_is_mutable(self) -> bool {
        match (self.input_object_kind, self.object) {
            (InputObjectKind::MovePackage(_), _) => false,
            (
                InputObjectKind::ImmOrOwnedMoveObject(_),
                ObjectReadResultKind::Object(object),
            ) => !object.spec_is_immutable(),
            (
                InputObjectKind::ImmOrOwnedMoveObject(_),
                ObjectReadResultKind::DeletedSharedObject(..),
            ) => false,
            (InputObjectKind::SharedMoveObject { mutable, .. }, _) => mutable,
        }
    }

    pub fn is_mutable(&self) -> (r: bool)
        ensures
            r == self.spec_is_mutable(),
    {
        match (&self.input_object_kind, &self.object) {
            (InputObjectKind::MovePackage(_), _) => false,
            (
                InputObjectKind::ImmOrOwnedMoveObject(_),
                ObjectReadResultKind::Object(object),
            ) => !object.is_immutable(),
            (
                InputObjectKind::ImmOrOwnedMoveObject(_),
                ObjectReadResultKind::DeletedSharedObject(..),
            ) => false,
            (InputObjectKind::SharedMoveObject { mutable, .. }, _) => *mutable,
        }
    }
}

/// The ordered collection of resolved inputs for one transaction.
#[derive(Clone, PartialEq, Eq, Debug)]
pub struct InputObjects {
    pub objects: Vec<ObjectReadResult>,
}

impl View for InputObjects {
    type V = Seq<ObjectReadResult>;

    open spec fn view(&self) -> Seq<ObjectReadResult> {
        self.objects@
    }
}

impl InputObjects {
    pub fn new(objects: Vec<ObjectReadResult>) -> (r: Self)
        ensures
            r@ == objects@,
    {
        InputObjects { objects }
    }

    pub fn len(&self) -> (r: usize)
        ensures
            r == self@.len(),
    {
        self.objects.len()
    }

    pub fn is_empty(&self) -> (r: bool)
        ensures
            r == (self@.len() == 0),
    {
        self.objects.len() == 0
    }

    pub fn push(&mut self, object: ObjectReadResult)
        ensures
            final(self)@ == old(self)@.push(object),
    {
        self.objects.push(object);
    }
}

/// Witness that one input collection passed the full admission pipeline.
/// Only the checking functions of this crate construct it, so holding one is
/// proof of admission: downstream execution trusts it without re-checking.
#[derive(Debug)]
pub struct CheckedInputObjects {
    inner: InputObjects,
}

impl View for CheckedInputObjects {
    type V = Seq<ObjectReadResult>;

    closed spec fn view(&self) -> Seq<ObjectReadResult> {
        self.inner@
    }
}

impl CheckedInputObjects {
    /// Wrap inputs that the pipeline has fully checked. Deliberately not
    /// callable from outside the crate.
    pub(crate) fn new_with_checked_transaction_inputs(inputs: InputObjects) -> (r: Self)
        ensures
            r@ == inputs@,
    {
        CheckedInputObjects { inner: inputs }
    }

    pub fn inner(&self) -> (r: &InputObjects)
        ensures
            r@ == self@,
    {
        &self.inner
    }

    pub fn into_inner(self) -> (r: InputObjects)
        ensures
            r@ == self@,
    {
        self.inner
    }
}

/// Whether some entry of `s` carries `id`.
pub open spec fn spec_has_id(s: Seq<Object>, id: ObjectId) -> bool {
    exists|n: int| 0 <= n < s.len() && (#[trigger] s[n]).id == id
}

/// Collapse a list of object snapshots to one entry per id, each carrying
/// the newest version seen for that id. Ids keep the order of their first
/// appearance.
pub fn filter_latest_objects(objects: Vec<Object>) -> (r: Vec<Object>)
    ensures
        forall|n: int| 0 <= n < r@.len() ==> objects@.contains(#[trigger] r@[n]),
        forall|n: int, m: int|
            0 <= n < r@.len() && 0 <= m < objects@.len() && (#[trigger] objects@[m]).id
                == (#[trigger] r@[n]).id ==> objects@[m].version <= r@[n].version,
        forall|n: int, m: int|
            0 <= n < m < r@.len() ==> (#[trigger] r@[n]).id != (#[trigger] r@[m]).id,
        forall|m: int| 0 <= m < objects@.len() ==> spec_has_id(r@, (#[trigger] objects@[m]).id),
{
    let ghost all = objects@;
    let mut latest: Vec<Object> = Vec::new();
    let mut i: usize = 0;
    while i < objects.len()
        invariant
            0 <= i <= all.len(),
            all == objects@,
            forall|n: int| 0 <= n < latest@.len() ==> all.contains(#[trigger] latest@[n]),
            forall|n: int, m: int|
                0 <= n < latest@.len() && 0 <= m < i && (#[trigger] all[m]).id
                    == (#[trigger] latest@[n]).id ==> all[m].version <= latest@[n].version,
            forall|n: int, m: int|
                0 <= n < m < latest@.len() ==> (#[trigger] latest@[n]).id
                    != (#[trigger] latest@[m]).id,
            forall|m: int| 0 <= m < i ==> spec_has_id(latest@, (#[trigger] all[m]).id),
        decreases all.len() - i,
    {
        let object = objects[i];
        let ghost before = latest@;
        proof {
            assert(all.contains(all[i as int]));
        }
        match find_index_by_id(&latest, object.id) {
            Some(k) => {
                if object.version > latest[k].version {
                    latest.set(k, object);
                }
                proof {
                    assert(latest@[k as int].id == object.id);
                    assert forall|m: int| 0 <= m < i + 1 implies spec_has_id(
                        latest@,
                        (#[trigger] all[m]).id,
                    ) by {
                        if m < i {
                            let n = choose|n: int|
                                0 <= n < before.len() && (#[trigger] before[n]).id == all[m].id;
                            assert(latest@[n].id == all[m].id);
                        } else {
                            assert(latest@[k as int].id == all[m].id);
                        }
                    }
                }
            },
            None => {
                latest.push(object);
                proof {
                    // An earlier input with this id would already stand in
                    // the collapsed list, so there is none.
                    assert forall|n: int, m: int|
                        0 <= n < latest@.len() && 0 <= m < i + 1 && (#[trigger] all[m]).id
                            == (#[trigger] latest@[n]).id implies all[m].version
                            <= latest@[n].version by {
                        if n < before.len() {
                            if m == i {
                                assert(before[n].id != object.id);
                            }
                        } else {
                            if m < i {
                                let w = choose|w: int|
                                    0 <= w < before.len() && (#[trigger] before[w]).id
                                        == all[m].id;
                                assert(before[w].id == object.id);
                            }
                        }
                    }
                    assert forall|m: int| 0 <= m < i + 1 implies spec_has_id(
                        latest@,
                        (#[trigger] all[m]).id,
                    ) by {
                        if m < i {
                            let n = choose|n: int|
                                0 <= n < before.len() && (#[trigger] before[n]).id == all[m].id;
                            assert(latest@[n].id == all[m].id);
                        } else {
                            assert(latest@[before.len() as int].id == all[m].id);
                        }
                    }
                }
            },
        }
        i += 1;
    }
    latest
}

/// Position of the entry carrying `id`, when the list has one.
fn find_index_by_id(objects: &Vec<Object>, id: ObjectId) -> (r: Option<usize>)
    ensures
        match r {
            Some(k) => 0 <= k < objects@.len() && objects@[k as int].id == id,
            None => forall|n: int| 0 <= n < objects@.len() ==> (#[trigger] objects@[n]).id != id,
        },
{
    let mut k: usize = 0;
    while k < objects.len()
        invariant
            0 <= k <= objects@.len(),
            forall|n: int| 0 <= n < k ==> (#[trigger] objects@[n]).id != id,
        decreases objects@.len() - k,
    {
        if objects[k].id == id {
            return Some(k);
        }
        k += 1;
    }
    None
}

} // verus!
