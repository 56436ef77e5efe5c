//! The mathematical model of the store: what its contracts speak of.

use crate::pattern::PatternModel;
use crate::value::ValueModel;
use vstd::prelude::*;

verus! {

/// The state of a store: the reserved threshold, the handle counter, the
/// value held by each occupied handle, the handles pinned as permanent, and
/// the two named mappings kept for extensions.
pub struct StateModel {
    pub reserved: u64,
    pub counter: u64,
    pub values: Map<u64, ValueModel>,
    pub permanents: Set<u64>,
    pub field_set: Map<Seq<char>, ValueModel>,
    pub flags: Map<Seq<char>, ValueModel>,
}

impl StateModel {
    /// The counter never falls below the reserved threshold, the store
    /// holds finitely many values, and none of them is the missing value.
    pub open spec fn wf(self) -> bool {
        &&& self.reserved <= self.counter
        &&& self.values.dom().finite()
        &&& forall|handle: u64| #[trigger]
            self.values.contains_key(handle) ==> self.values[handle] != ValueModel::Absent
    }

    /// The store as created: counter at the threshold, nothing stored,
    /// nothing pinned, both named mappings empty.
    pub open spec fn fresh(reserved: u64) -> StateModel {
        StateModel {
            reserved,
            counter: reserved,
            values: Map::empty(),
            permanents: Set::empty(),
            field_set: Map::empty(),
            flags: Map::empty(),
        }
    }

    /// The value a handle resolves to: the stored one, or `Absent`.
    pub open spec fn lookup(self, handle: u64) -> ValueModel {
        if self.values.contains_key(handle) {
            self.values[handle]
        } else {
            ValueModel::Absent
        }
    }

    /// The handle a constructor called with `idx` stores at and returns:
    /// the counter for `idx == 0`, else `idx` itself.
    pub open spec fn target(self, idx: u64) -> u64 {
        if idx == 0 {
            self.counter
        } else {
            idx
        }
    }

    /// Whether a constructor called with `idx` has a handle to give: only an
    /// exhausted counter stands in the way of a fresh one.
    pub open spec fn can_construct(self, idx: u64) -> bool {
        idx == 0 ==> self.counter < u64::MAX
    }

    /// The store after a constructor called with `idx` has stored `value`.
    /// A fresh handle moves the counter on by one; an explicit one leaves
    /// it alone and overwrites whatever the handle held.
    pub open spec fn construct(self, idx: u64, value: ValueModel) -> StateModel {
        StateModel {
            counter: if idx == 0 {
                (self.counter + 1) as u64
            } else {
                self.counter
            },
            values: self.values.insert(self.target(idx), value),
            ..self
        }
    }

    /// Whether the outcome of a pattern compilation can be stored: a failed
    /// one always can, as it stores nothing.
    pub open spec fn can_store_pattern(self, idx: u64, compiled: Option<PatternModel>) -> bool {
        compiled is Some ==> self.can_construct(idx)
    }

    /// The handle reported for the outcome of a pattern compilation: `0`
    /// for a failed one.
    pub open spec fn pattern_target(self, idx: u64, compiled: Option<PatternModel>) -> u64 {
        match compiled {
            Some(_) => self.target(idx),
            None => 0,
        }
    }

    /// The store after the outcome of a pattern compilation has been
    /// stored: unchanged by a failed one.
    pub open spec fn store_pattern(self, idx: u64, compiled: Option<PatternModel>) -> StateModel {
        match compiled {
            Some(pattern) => self.construct(idx, ValueModel::Matcher(pattern)),
            None => self,
        }
    }

    /// The store after `handle` has been pinned.
    pub open spec fn pin(self, handle: u64) -> StateModel {
        StateModel { permanents: self.permanents.insert(handle), ..self }
    }

    /// The store after the pin on `handle`, if any, has been lifted.
    pub open spec fn unpin(self, handle: u64) -> StateModel {
        StateModel { permanents: self.permanents.remove(handle), ..self }
    }

    /// Whether a sweep spares `handle` for good: it lies in the reserved
    /// range or is pinned.
    pub open spec fn is_permanent(self, handle: u64) -> bool {
        handle < self.reserved || self.permanents.contains(handle)
    }

    /// Whether a sweep visits `handle` and finds it unpinned.
    pub open spec fn is_transient(self, handle: u64) -> bool {
        self.reserved <= handle < self.counter && !self.permanents.contains(handle)
    }

    /// The occupied handles that a sweep removes.
    pub open spec fn doomed(self) -> Set<u64> {
        self.values.dom().filter(|handle: u64| self.is_transient(handle))
    }

    /// The store after a sweep: the doomed handles are vacant, everything
    /// else is as before, the counter included.
    pub open spec fn sweep(self) -> StateModel {
        StateModel { values: self.values.remove_keys(self.doomed()), ..self }
    }
}

} // verus!
