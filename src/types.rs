//! Plain values that the registry stores: hashes, identities, records, events and errors.
use vstd::prelude::*;

verus! {

broadcast use vstd::array::group_array_axioms;

/// A 32-byte opaque content hash supplied by the caller.
#[derive(Clone, Copy, Debug, Eq)]
pub struct Hash32 {
    pub bytes: [u8; 32],
}

impl Hash32 {
    /// The reserved sentinel meaning "no hash": every byte is zero.
    pub open spec fn spec_is_zero(&self) -> bool {
        forall|i: int| 0 <= i < 32 ==> #[trigger] self.bytes@[i] == 0u8
    }

    pub fn zero() -> (r: Hash32)
        ensures
            r.spec_is_zero(),
    {
        Hash32 { bytes: [0u8; 32] }
    }

    pub fn is_zero(&self) -> (r: bool)
        ensures
            r == self.spec_is_zero(),
    {
        let mut i: usize = 0;
        while i < 32
            invariant
                i <= 32,
                forall|j: int| 0 <= j < i ==> #[trigger] self.bytes@[j] == 0u8,
            decreases 32 - i,
        {
            if self.bytes[i] != 0 {
                return false;
            }
            i = i + 1;
        }
        true
    }
}

impl PartialEq for Hash32 {
    fn eq(&self, o: &Hash32) -> (r: bool) {
        let mut i: usize = 0;
        while i < 32
            invariant
                i <= 32,
                forall|j: int| 0 <= j < i ==> #[trigger] self.bytes@[j] == o.bytes@[j],
            decreases 32 - i,
        {
            if self.bytes[i] != o.bytes[i] {
                return false;
            }
            i = i + 1;
        }
        assert(self.bytes =~= o.bytes);
        true
    }
}

impl vstd::std_specs::cmp::PartialEqSpecImpl for Hash32 {
    open spec fn obeys_eq_spec() -> bool {
        true
    }

    open spec fn eq_spec(&self, o: &Hash32) -> bool {
        *self == *o
    }
}

/// An identity that the host can prove a caller controls, held as the
/// 56 ASCII characters of its Stellar strkey (`G...` or `C...`).
#[derive(Clone, Copy, Debug, Eq)]
pub struct Address {
    pub strkey: [u8; 56],
}

impl PartialEq for Address {
    fn eq(&self, o: &Address) -> (r: bool) {
        let mut i: usize = 0;
        while i < 56
            invariant
                i <= 56,
                forall|j: int| 0 <= j < i ==> #[trigger] self.strkey@[j] == o.strkey@[j],
            decreases 56 - i,
        {
            if self.strkey[i] != o.strkey[i] {
                return false;
            }
            i = i + 1;
        }
        assert(self.strkey =~= o.strkey);
        true
    }
}

impl vstd::std_specs::cmp::PartialEqSpecImpl for Address {
    open spec fn obeys_eq_spec() -> bool {
        true
    }

    open spec fn eq_spec(&self, o: &Address) -> bool {
        *self == *o
    }
}

/// A registered staff member. Never deleted; `is_active` only goes from true to false.
#[derive(Clone, Copy, Debug, PartialEq, Eq)]
pub struct StaffRecord {
    pub staff_hash: Hash32,
    pub registered_by: Address,
    pub registered_at: u64,
    pub is_active: bool,
}

/// An attested payroll batch. Immutable once recorded.
#[derive(Clone, Copy, Debug, PartialEq, Eq)]
pub struct PayrollBatch {
    pub batch_hash: Hash32,
    pub uploaded_by: Address,
    pub timestamp: u64,
    pub staff_count: u32,
}

/// Why a registry operation was refused. A refused operation changes nothing.
#[derive(Clone, Copy, Debug, PartialEq, Eq, Structural)]
pub enum RegistryError {
    NotInitialized,
    AlreadyInitialized,
    Unauthorized,
    InvalidHash,
    InvalidStaffCount,
    AlreadyRegistered,
    AlreadyRecorded,
    NotFound,
}

/// What a successful mutation announces to outside observers.
#[derive(Clone, Copy, Debug, PartialEq, Eq)]
pub enum RegistryEvent {
    StaffRegistered { staff_hash: Hash32, owner: Address, timestamp: u64 },
    StaffRevoked { staff_hash: Hash32, owner: Address, timestamp: u64 },
    BatchRecorded { batch_hash: Hash32, owner: Address, timestamp: u64, staff_count: u32 },
}

} // verus!
