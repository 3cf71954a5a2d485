//! The caller-supplied view of the ledger: a fixed, epoch-scoped snapshot of
//! live objects plus the replay markers of objects already consumed through
//! the receive pattern. Admission only reads it; the caller is responsible
//! for its consistency over one call.

use vstd::prelude::*;
use crate::objects::{Object, ObjectId};

verus! {

/// The record that an object was received at a version during an epoch.
#[derive(Clone, Copy, PartialEq, Eq, Structural, Debug)]
pub struct ReceivedMarker {
    pub object_id: ObjectId,
    pub version: u64,
    pub epoch: u64,
}

/// A fixed snapshot of ledger state for one admission call.
#[derive(Clone, PartialEq, Eq, Debug)]
pub struct LedgerSnapshot {
    /// The live objects, addressable by id.
    pub objects: Vec<Object>,
    /// The replay table of already-received object versions, keyed by epoch.
    pub received_markers: Vec<ReceivedMarker>,
}

/// First object with the given id at or after position `i`.
pub open spec fn spec_lookup_from(objects: Seq<Object>, id: ObjectId, i: int) -> Option<Object>
    decreases objects.len() - i,
{
    if i < 0 || i >= objects.len() {
        None
    } else if objects[i].id == id {
        Some(objects[i])
    } else {
        spec_lookup_from(objects, id, i + 1)
    }
}

impl LedgerSnapshot {
    /// The live object with this id, if the snapshot holds one.
    pub open spec fn spec_get_object(&self, id: ObjectId) -> Option<Object> {
        spec_lookup_from(self.objects@, id, 0)
    }

    pub fn get_object(&self, id: ObjectId) -> (r: Option<Object>)
        ensures
            r == self.spec_get_object(id),
    {
        let mut i: usize = 0;
        while i < self.objects.len()
            invariant
                0 <= i <= self.objects@.len(),
                spec_lookup_from(self.objects@, id, i as int) == self.spec_get_object(id),
            decreases self.objects@.len() - i,
        {
            if self.objects[i].id == id {
                return Some(self.objects[i]);
            }
            i += 1;
        }
        None
    }

    /// Whether the replay table records a receive of exactly this id and
    /// version during this epoch.
    pub open spec fn spec_has_received(&self, id: ObjectId, version: u64, epoch: u64) -> bool {
        exists|k: int|
            0 <= k < self.received_markers@.len() && self.received_markers@[k]
                == (ReceivedMarker { object_id: id, version, epoch })
    }

    pub fn have_received_object_at_version(&self, id: ObjectId, version: u64, epoch: u64) -> (r:
        bool)
        ensures
            r == self.spec_has_received(id, version, epoch),
    {
        let target = ReceivedMarker { object_id: id, version, epoch };
        let mut k: usize = 0;
        while k < self.received_markers.len()
            invariant
                0 <= k <= self.received_markers@.len(),
                target == (ReceivedMarker { object_id: id, version, epoch }),
                forall|m: int| 0 <= m < k ==> self.received_markers@[m] != target,
            decreases self.received_markers@.len() - k,
        {
            if self.received_markers[k] == target {
                assert(self.spec_has_received(id, version, epoch));
                return true;
            }
            k += 1;
        }
        false
    }
}

} // verus!
