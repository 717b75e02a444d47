//! The registry's mathematical model: its state, its invariant, and what each
//! operation does to it, as pure functions from state and call to next state and result.
use vstd::prelude::*;
use crate::types::{Address, Hash32, PayrollBatch, RegistryError, RegistryEvent, StaffRecord};

verus! {

/// A registry as a value: the owner (absent until initialized) and both ledgers
/// as sequences of records in the order they were created.
pub struct RegistryState {
    pub owner: Option<Address>,
    pub staff: Seq<StaffRecord>,
    pub batches: Seq<PayrollBatch>,
}

impl RegistryState {
    /// The state of a registry that nobody has initialized yet.
    pub open spec fn empty() -> RegistryState {
        RegistryState { owner: None, staff: Seq::empty(), batches: Seq::empty() }
    }

    /// The staff enumeration list: every registered staff hash, in registration order.
    pub open spec fn staff_hashes(self) -> Seq<Hash32> {
        self.staff.map_values(|r: StaffRecord| r.staff_hash)
    }

    /// The batch enumeration list: every recorded batch hash, in recording order.
    pub open spec fn batch_hashes(self) -> Seq<Hash32> {
        self.batches.map_values(|b: PayrollBatch| b.batch_hash)
    }

    pub open spec fn staff_registered(self, h: Hash32) -> bool {
        self.staff_hashes().contains(h)
    }

    pub open spec fn batch_recorded(self, h: Hash32) -> bool {
        self.batch_hashes().contains(h)
    }

    /// Where the record of a registered staff hash stands.
    pub open spec fn staff_index(self, h: Hash32) -> int {
        self.staff_hashes().index_of(h)
    }

    /// Where the record of a recorded batch hash stands.
    pub open spec fn batch_index(self, h: Hash32) -> int {
        self.batch_hashes().index_of(h)
    }

    /// The record of a registered staff hash.
    pub open spec fn staff_record(self, h: Hash32) -> StaffRecord {
        self.staff[self.staff_index(h)]
    }

    /// The record of a recorded batch hash.
    pub open spec fn batch_record(self, h: Hash32) -> PayrollBatch {
        self.batches[self.batch_index(h)]
    }

    /// False for a hash never registered, else the record's `is_active`.
    pub open spec fn staff_active(self, h: Hash32) -> bool {
        self.staff_registered(h) && self.staff_record(h).is_active
    }

    /// The set of registered staff hashes.
    pub open spec fn registered_staff(self) -> Set<Hash32> {
        self.staff_hashes().to_set()
    }

    /// The set of recorded batch hashes.
    pub open spec fn recorded_batches(self) -> Set<Hash32> {
        self.batch_hashes().to_set()
    }

    /// The invariant that every reachable state keeps: each hash at most once per
    /// ledger, no zero hash, no empty batch, nothing recorded before an owner
    /// exists, and counts that fit in a `u32`.
    pub open spec fn wf(self) -> bool {
        &&& self.staff_hashes().no_duplicates()
        &&& self.batch_hashes().no_duplicates()
        &&& forall|i: int| 0 <= i < self.staff.len() ==> !(#[trigger] self.staff[i]).staff_hash.spec_is_zero()
        &&& forall|i: int| 0 <= i < self.batches.len() ==> {
            &&& !(#[trigger] self.batches[i]).batch_hash.spec_is_zero()
            &&& self.batches[i].staff_count > 0
        }
        &&& self.owner is None ==> self.staff.len() == 0 && self.batches.len() == 0
        &&& self.staff.len() <= u32::MAX
        &&& self.batches.len() <= u32::MAX
    }

    /// The first check shared by every owner-gated operation: an owner exists and
    /// is among the identities that authorized the call.
    pub open spec fn owner_gate(self, signers: Seq<Address>) -> Option<RegistryError> {
        match self.owner {
            None => Some(RegistryError::NotInitialized),
            Some(o) => if signers.contains(o) {
                None
            } else {
                Some(RegistryError::Unauthorized)
            },
        }
    }

    pub open spec fn initialize(self, signers: Seq<Address>, owner: Address) -> (RegistryState, Result<(), RegistryError>) {
        if self.owner is Some {
            (self, Err(RegistryError::AlreadyInitialized))
        } else if !signers.contains(owner) {
            (self, Err(RegistryError::Unauthorized))
        } else {
            (RegistryState { owner: Some(owner), staff: Seq::empty(), batches: Seq::empty() }, Ok(()))
        }
    }

    pub open spec fn register_staff(self, signers: Seq<Address>, h: Hash32, now: u64) -> (RegistryState, Result<RegistryEvent, RegistryError>) {
        if let Some(e) = self.owner_gate(signers) {
            (self, Err(e))
        } else if self.staff_registered(h) {
            (self, Err(RegistryError::AlreadyRegistered))
        } else if h.spec_is_zero() {
            (self, Err(RegistryError::InvalidHash))
        } else {
            let o = self.owner->0;
            let rec = StaffRecord { staff_hash: h, registered_by: o, registered_at: now, is_active: true };
            (
                RegistryState { owner: self.owner, staff: self.staff.push(rec), batches: self.batches },
                Ok(RegistryEvent::StaffRegistered { staff_hash: h, owner: o, timestamp: now }),
            )
        }
    }

    pub open spec fn revoke_staff(self, signers: Seq<Address>, h: Hash32, now: u64) -> (RegistryState, Result<RegistryEvent, RegistryError>) {
        if let Some(e) = self.owner_gate(signers) {
            (self, Err(e))
        } else if !self.staff_registered(h) {
            (self, Err(RegistryError::NotFound))
        } else {
            let o = self.owner->0;
            let old_rec = self.staff_record(h);
            let rec = StaffRecord { is_active: false, ..old_rec };
            (
                RegistryState { owner: self.owner, staff: self.staff.update(self.staff_index(h), rec), batches: self.batches },
                Ok(RegistryEvent::StaffRevoked { staff_hash: h, owner: o, timestamp: now }),
            )
        }
    }

    pub open spec fn record_payroll_batch(self, signers: Seq<Address>, h: Hash32, staff_count: u32, now: u64) -> (RegistryState, Result<RegistryEvent, RegistryError>) {
        if let Some(e) = self.owner_gate(signers) {
            (self, Err(e))
        } else if self.batch_recorded(h) {
            (self, Err(RegistryError::AlreadyRecorded))
        } else if h.spec_is_zero() {
            (self, Err(RegistryError::InvalidHash))
        } else if staff_count == 0 {
            (self, Err(RegistryError::InvalidStaffCount))
        } else {
            let o = self.owner->0;
            let b = PayrollBatch { batch_hash: h, uploaded_by: o, timestamp: now, staff_count };
            (
                RegistryState { owner: self.owner, staff: self.staff, batches: self.batches.push(b) },
                Ok(RegistryEvent::BatchRecorded { batch_hash: h, owner: o, timestamp: now, staff_count }),
            )
        }
    }

    /// Both the current owner and the new one must authorize the transfer.
    pub open spec fn transfer_ownership(self, signers: Seq<Address>, new_owner: Address) -> (RegistryState, Result<(), RegistryError>) {
        if let Some(e) = self.owner_gate(signers) {
            (self, Err(e))
        } else if !signers.contains(new_owner) {
            (self, Err(RegistryError::Unauthorized))
        } else {
            (RegistryState { owner: Some(new_owner), staff: self.staff, batches: self.batches }, Ok(()))
        }
    }
}

} // verus!
