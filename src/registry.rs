//! The registry itself: one state object, mutated only through owner-gated operations.
use vstd::prelude::*;
use crate::state::RegistryState;
use crate::types::{Address, Hash32, PayrollBatch, RegistryError, RegistryEvent, StaffRecord};

verus! {

broadcast use vstd::array::group_array_axioms;

/// Whether `who` is among the identities that authorized the current call.
pub fn is_signed_by(signers: &Vec<Address>, who: &Address) -> (r: bool)
    ensures
        r == signers@.contains(*who),
{
    let mut i: usize = 0;
    while i < signers.len()
        invariant
            i <= signers@.len(),
            forall|j: int| 0 <= j < i ==> signers@[j] != *who,
        decreases signers@.len() - i,
    {
        if signers[i] == *who {
            return true;
        }
        i = i + 1;
    }
    false
}

/// Whether no staff record carries the zero hash.
fn staff_well_formed(staff: &Vec<StaffRecord>) -> (r: bool)
    ensures
        r == forall|j: int| 0 <= j < staff@.len() ==> !(#[trigger] staff@[j]).staff_hash.spec_is_zero(),
{
    let mut i: usize = 0;
    while i < staff.len()
        invariant
            i <= staff@.len(),
            forall|j: int| 0 <= j < i ==> !(#[trigger] staff@[j]).staff_hash.spec_is_zero(),
        decreases staff@.len() - i,
    {
        if staff[i].staff_hash.is_zero() {
            return false;
        }
        i = i + 1;
    }
    true
}

/// Whether no batch carries the zero hash or a zero staff count.
fn batches_well_formed(batches: &Vec<PayrollBatch>) -> (r: bool)
    ensures
        r == forall|j: int| 0 <= j < batches@.len() ==> {
            &&& !(#[trigger] batches@[j]).batch_hash.spec_is_zero()
            &&& batches@[j].staff_count > 0
        },
{
    let mut i: usize = 0;
    while i < batches.len()
        invariant
            i <= batches@.len(),
            forall|j: int| 0 <= j < i ==> {
                &&& !(#[trigger] batches@[j]).batch_hash.spec_is_zero()
                &&& batches@[j].staff_count > 0
            },
        decreases batches@.len() - i,
    {
        if batches[i].batch_hash.is_zero() || batches[i].staff_count == 0 {
            return false;
        }
        i = i + 1;
    }
    true
}

/// Whether no hash occurs twice in `hs`.
fn no_duplicate_hashes(hs: &Vec<Hash32>) -> (r: bool)
    ensures
        r == hs@.no_duplicates(),
{
    let mut i: usize = 0;
    while i < hs.len()
        invariant
            i <= hs@.len(),
            forall|a: int, b: int| 0 <= a < i && 0 <= b < hs@.len() && a != b ==> hs@[a] != hs@[b],
        decreases hs@.len() - i,
    {
        let mut j: usize = 0;
        while j < hs.len()
            invariant
                i < hs@.len(),
                j <= hs@.len(),
                forall|a: int, b: int| 0 <= a < i && 0 <= b < hs@.len() && a != b ==> hs@[a] != hs@[b],
                forall|b: int| 0 <= b < j && b != i ==> hs@[i as int] != hs@[b],
            decreases hs@.len() - j,
        {
            if j != i && hs[i] == hs[j] {
                return false;
            }
            j = j + 1;
        }
        i = i + 1;
    }
    true
}

/// The registry state. Staff and batch records are kept in creation order, so the
/// record lists double as the enumeration lists.
pub struct StaffRegistry {
    owner: Option<Address>,
    staff: Vec<StaffRecord>,
    batches: Vec<PayrollBatch>,
}

impl View for StaffRegistry {
    type V = RegistryState;

    closed spec fn view(&self) -> RegistryState {
        RegistryState { owner: self.owner, staff: self.staff@, batches: self.batches@ }
    }
}

impl StaffRegistry {
    /// A registry that has not been initialized: no owner, empty ledgers.
    pub fn new() -> (r: StaffRegistry)
        ensures
            r@ == RegistryState::empty(),
            r@.wf(),
    {
        StaffRegistry { owner: None, staff: Vec::new(), batches: Vec::new() }
    }

    /// Position of `h` in the staff ledger, if it was ever registered.
    fn find_staff(&self, h: &Hash32) -> (r: Option<usize>)
        requires
            self@.wf(),
        ensures
            match r {
                Some(i) => self@.staff_registered(*h) && i as int == self@.staff_index(*h)
                    && i < self@.staff.len(),
                None => !self@.staff_registered(*h),
            },
    {
        let ghost hs = self@.staff_hashes();
        let mut i: usize = 0;
        while i < self.staff.len()
            invariant
                i <= self.staff@.len(),
                hs == self@.staff_hashes(),
                hs.no_duplicates(),
                forall|j: int| 0 <= j < i ==> hs[j] != *h,
            decreases self.staff@.len() - i,
        {
            if self.staff[i].staff_hash == *h {
                proof {
                    assert(hs[i as int] == *h);
                    assert(hs.contains(*h));
                    let k = hs.index_of(*h);
                    assert(hs[k] == *h);
                    assert(k == i);
                }
                return Some(i);
            }
            i = i + 1;
        }
        None
    }

    /// Position of `h` in the batch ledger, if it was ever recorded.
    fn find_batch(&self, h: &Hash32) -> (r: Option<usize>)
        requires
            self@.wf(),
        ensures
            match r {
                Some(i) => self@.batch_recorded(*h) && i as int == self@.batch_index(*h)
                    && i < self@.batches.len(),
                None => !self@.batch_recorded(*h),
            },
    {
        let ghost hs = self@.batch_hashes();
        let mut i: usize = 0;
        while i < self.batches.len()
            invariant
                i <= self.batches@.len(),
                hs == self@.batch_hashes(),
                hs.no_duplicates(),
                forall|j: int| 0 <= j < i ==> hs[j] != *h,
            decreases self.batches@.len() - i,
        {
            if self.batches[i].batch_hash == *h {
                proof {
                    assert(hs[i as int] == *h);
                    assert(hs.contains(*h));
                    let k = hs.index_of(*h);
                    assert(hs[k] == *h);
                    assert(k == i);
                }
                return Some(i);
            }
            i = i + 1;
        }
        None
    }

    /// The owner, provided one exists and it authorized the call.
    fn authorized_owner(&self, signers: &Vec<Address>) -> (r: Result<Address, RegistryError>)
        ensures
            match self@.owner_gate(signers@) {
                Some(e) => r == Err::<Address, RegistryError>(e),
                None => r == Ok::<Address, RegistryError>(self@.owner->0),
            },
    {
        match &self.owner {
            None => Err(RegistryError::NotInitialized),
            Some(o) => if is_signed_by(signers, o) {
                Ok(*o)
            } else {
                Err(RegistryError::Unauthorized)
            },
        }
    }

    /// Records a new payroll batch created by the owner at time `now`.
    /// Refused, in this order of checks, with `NotInitialized`, `Unauthorized`,
    /// `AlreadyRecorded`, `InvalidHash` (the zero hash) or `InvalidStaffCount` (zero).
    pub fn record_payroll_batch(&mut self, signers: &Vec<Address>, batch_hash: Hash32, staff_count: u32, now: u64) -> (r: Result<RegistryEvent, RegistryError>)
        requires
            old(self)@.wf(),
            old(self)@.batches.len() < u32::MAX,
        ensures
            final(self)@.wf(),
            (final(self)@, r) == old(self)@.record_payroll_batch(signers@, batch_hash, staff_count, now),
    {
        let o = match self.authorized_owner(signers) {
            Ok(o) => o,
            Err(e) => return Err(e),
        };
        if self.find_batch(&batch_hash).is_some() {
            return Err(RegistryError::AlreadyRecorded);
        }
        if batch_hash.is_zero() {
            return Err(RegistryError::InvalidHash);
        }
        if staff_count == 0 {
            return Err(RegistryError::InvalidStaffCount);
        }
        let ghost before = self@;
        let batch = PayrollBatch { batch_hash, uploaded_by: o, timestamp: now, staff_count };
        self.batches.push(batch);
        proof {
            assert(self@.batch_hashes() =~= before.batch_hashes().push(batch_hash));
            assert(self@.staff_hashes() =~= before.staff_hashes());
        }
        Ok(RegistryEvent::BatchRecorded { batch_hash, owner: o, timestamp: now, staff_count })
    }

    /// Registers a new, active staff member on behalf of the owner at time `now`.
    /// Refused, in this order of checks, with `NotInitialized`, `Unauthorized`,
    /// `AlreadyRegistered` (also after a revocation) or `InvalidHash` (the zero hash).
    pub fn register_staff(&mut self, signers: &Vec<Address>, staff_hash: Hash32, now: u64) -> (r: Result<RegistryEvent, RegistryError>)
        requires
            old(self)@.wf(),
            old(self)@.staff.len() < u32::MAX,
        ensures
            final(self)@.wf(),
            (final(self)@, r) == old(self)@.register_staff(signers@, staff_hash, now),
    {
        let o = match self.authorized_owner(signers) {
            Ok(o) => o,
            Err(e) => return Err(e),
        };
        if self.find_staff(&staff_hash).is_some() {
            return Err(RegistryError::AlreadyRegistered);
        }
        if staff_hash.is_zero() {
            return Err(RegistryError::InvalidHash);
        }
        let ghost before = self@;
        let rec = StaffRecord { staff_hash, registered_by: o, registered_at: now, is_active: true };
        self.staff.push(rec);
        proof {
            assert(self@.staff_hashes() =~= before.staff_hashes().push(staff_hash));
            assert(self@.batch_hashes() =~= before.batch_hashes());
        }
        Ok(RegistryEvent::StaffRegistered { staff_hash, owner: o, timestamp: now })
    }

    /// Marks a registered staff member inactive. The record, its registration and
    /// the counts stay. Refused with `NotInitialized`, `Unauthorized` or `NotFound`.
    pub fn revoke_staff(&mut self, signers: &Vec<Address>, staff_hash: Hash32, now: u64) -> (r: Result<RegistryEvent, RegistryError>)
        requires
            old(self)@.wf(),
        ensures
            final(self)@.wf(),
            (final(self)@, r) == old(self)@.revoke_staff(signers@, staff_hash, now),
    {
        let o = match self.authorized_owner(signers) {
            Ok(o) => o,
            Err(e) => return Err(e),
        };
        match self.find_staff(&staff_hash) {
            None => Err(RegistryError::NotFound),
            Some(i) => {
                let ghost before = self@;
                let mut rec = self.staff[i];
                rec.is_active = false;
                self.staff.set(i, rec);
                proof {
                    assert(self@.staff_hashes() =~= before.staff_hashes());
                }
                Ok(RegistryEvent::StaffRevoked { staff_hash, owner: o, timestamp: now })
            },
        }
    }

    /// Sets the first owner. Refused with `AlreadyInitialized` once an owner exists
    /// (the stored owner stays), and with `Unauthorized` unless `owner` authorized the call.
    pub fn initialize(&mut self, signers: &Vec<Address>, owner: Address) -> (r: Result<(), RegistryError>)
        requires
            old(self)@.wf(),
        ensures
            final(self)@.wf(),
            (final(self)@, r) == old(self)@.initialize(signers@, owner),
    {
        if self.owner.is_some() {
            return Err(RegistryError::AlreadyInitialized);
        }
        if !is_signed_by(signers, &owner) {
            return Err(RegistryError::Unauthorized);
        }
        self.owner = Some(owner);
        self.staff = Vec::new();
        self.batches = Vec::new();
        proof {
            assert(self@.staff_hashes() =~= Seq::<Hash32>::empty());
            assert(self@.batch_hashes() =~= Seq::<Hash32>::empty());
        }
        Ok(())
    }

    /// The stored owner, or `NotInitialized`.
    pub fn owner(&self) -> (r: Result<Address, RegistryError>)
        ensures
            match self@.owner {
                Some(o) => r == Ok::<Address, RegistryError>(o),
                None => r == Err::<Address, RegistryError>(RegistryError::NotInitialized),
            },
    {
        match &self.owner {
            Some(o) => Ok(*o),
            None => Err(RegistryError::NotInitialized),
        }
    }

    /// Hands ownership to `new_owner`. Both the current owner and `new_owner` must
    /// have authorized the call; refused with `NotInitialized` or `Unauthorized`.
    pub fn transfer_ownership(&mut self, signers: &Vec<Address>, new_owner: Address) -> (r: Result<(), RegistryError>)
        requires
            old(self)@.wf(),
        ensures
            final(self)@.wf(),
            (final(self)@, r) == old(self)@.transfer_ownership(signers@, new_owner),
    {
        match self.authorized_owner(signers) {
            Ok(_) => {},
            Err(e) => return Err(e),
        }
        if !is_signed_by(signers, &new_owner) {
            return Err(RegistryError::Unauthorized);
        }
        self.owner = Some(new_owner);
        Ok(())
    }

    /// False for a hash never registered; otherwise whether its record is still active.
    pub fn is_staff_active(&self, staff_hash: &Hash32) -> (r: bool)
        requires
            self@.wf(),
        ensures
            r == self@.staff_active(*staff_hash),
    {
        match self.find_staff(staff_hash) {
            None => false,
            Some(i) => self.staff[i].is_active,
        }
    }

    /// The record of a registered staff hash, revoked or not; `NotFound` otherwise.
    pub fn get_staff_record(&self, staff_hash: &Hash32) -> (r: Result<StaffRecord, RegistryError>)
        requires
            self@.wf(),
        ensures
            self@.staff_registered(*staff_hash) ==> r == Ok::<StaffRecord, RegistryError>(self@.staff_record(*staff_hash)),
            !self@.staff_registered(*staff_hash) ==> r == Err::<StaffRecord, RegistryError>(RegistryError::NotFound),
    {
        match self.find_staff(staff_hash) {
            None => Err(RegistryError::NotFound),
            Some(i) => Ok(self.staff[i]),
        }
    }

    /// The record of a recorded batch hash; `NotFound` otherwise.
    pub fn get_payroll_batch(&self, batch_hash: &Hash32) -> (r: Result<PayrollBatch, RegistryError>)
        requires
            self@.wf(),
        ensures
            self@.batch_recorded(*batch_hash) ==> r == Ok::<PayrollBatch, RegistryError>(self@.batch_record(*batch_hash)),
            !self@.batch_recorded(*batch_hash) ==> r == Err::<PayrollBatch, RegistryError>(RegistryError::NotFound),
    {
        match self.find_batch(batch_hash) {
            None => Err(RegistryError::NotFound),
            Some(i) => Ok(self.batches[i]),
        }
    }

    pub fn is_staff_registered(&self, staff_hash: &Hash32) -> (r: bool)
        requires
            self@.wf(),
        ensures
            r == self@.staff_registered(*staff_hash),
    {
        self.find_staff(staff_hash).is_some()
    }

    pub fn is_batch_recorded(&self, batch_hash: &Hash32) -> (r: bool)
        requires
            self@.wf(),
        ensures
            r == self@.batch_recorded(*batch_hash),
    {
        self.find_batch(batch_hash).is_some()
    }

    /// How many staff hashes were ever registered (revoked ones included).
    pub fn get_total_staff(&self) -> (r: u32)
        requires
            self@.wf(),
        ensures
            r as int == self@.staff.len(),
    {
        self.staff.len() as u32
    }

    /// How many batches were ever recorded.
    pub fn get_total_batches(&self) -> (r: u32)
        requires
            self@.wf(),
        ensures
            r as int == self@.batches.len(),
    {
        self.batches.len() as u32
    }

    /// Every registered staff hash, in registration order.
    pub fn all_staff_hashes(&self) -> (r: Vec<Hash32>)
        ensures
            r@ == self@.staff_hashes(),
    {
        let mut r: Vec<Hash32> = Vec::new();
        let mut i: usize = 0;
        while i < self.staff.len()
            invariant
                i <= self.staff@.len(),
                r@ == self@.staff_hashes().take(i as int),
            decreases self.staff@.len() - i,
        {
            r.push(self.staff[i].staff_hash);
            i = i + 1;
            assert(r@ =~= self@.staff_hashes().take(i as int));
        }
        assert(r@ =~= self@.staff_hashes());
        r
    }

    /// Every recorded batch hash, in recording order.
    pub fn all_batch_hashes(&self) -> (r: Vec<Hash32>)
        ensures
            r@ == self@.batch_hashes(),
    {
        let mut r: Vec<Hash32> = Vec::new();
        let mut i: usize = 0;
        while i < self.batches.len()
            invariant
                i <= self.batches@.len(),
                r@ == self@.batch_hashes().take(i as int),
            decreases self.batches@.len() - i,
        {
            r.push(self.batches[i].batch_hash);
            i = i + 1;
            assert(r@ =~= self@.batch_hashes().take(i as int));
        }
        assert(r@ =~= self@.batch_hashes());
        r
    }

    /// Rebuilds a registry from stored parts: `Some` exactly when the parts form a
    /// well-formed state (each hash once per ledger, no zero hash, no empty batch,
    /// no record without an owner, counts that fit in a `u32`).
    pub fn from_parts(owner: Option<Address>, staff: Vec<StaffRecord>, batches: Vec<PayrollBatch>) -> (r: Option<StaffRegistry>)
        ensures
            ({
                let s = RegistryState { owner, staff: staff@, batches: batches@ };
                &&& r is Some <==> s.wf()
                &&& r matches Some(reg) ==> reg@ == s
            }),
    {
        let reg = StaffRegistry { owner, staff, batches };
        if reg.staff.len() > 4294967295usize || reg.batches.len() > 4294967295usize {
            return None;
        }
        if reg.owner.is_none() && (reg.staff.len() > 0 || reg.batches.len() > 0) {
            return None;
        }
        if !staff_well_formed(&reg.staff) || !batches_well_formed(&reg.batches) {
            return None;
        }
        let staff_hashes = reg.all_staff_hashes();
        if !no_duplicate_hashes(&staff_hashes) {
            return None;
        }
        let batch_hashes = reg.all_batch_hashes();
        if !no_duplicate_hashes(&batch_hashes) {
            return None;
        }
        Some(reg)
    }

    /// The staff records, in registration order.
    pub fn staff_records(&self) -> (r: Vec<StaffRecord>)
        ensures
            r@ == self@.staff,
    {
        self.staff.clone()
    }

    /// The payroll batches, in recording order.
    pub fn payroll_batches(&self) -> (r: Vec<PayrollBatch>)
        ensures
            r@ == self@.batches,
    {
        self.batches.clone()
    }
}

} // verus!
