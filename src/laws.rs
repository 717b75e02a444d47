//! Properties of the registry that relate several operations, proved over the
//! state model whose transitions the operations' contracts state exactly.
use vstd::prelude::*;
use crate::state::RegistryState;
use crate::types::{Address, Hash32, RegistryError, StaffRecord};

verus! {

/// Once an owner is set, a second initialization is refused with
/// `AlreadyInitialized` and leaves the registry, and so the first owner, as it was.
pub proof fn law_initialize_once(
    s: RegistryState,
    signers: Seq<Address>,
    first: Address,
    later_signers: Seq<Address>,
    second: Address,
)
    requires
        s.wf(),
        s.initialize(signers, first).1 is Ok,
    ensures
        ({
            let s1 = s.initialize(signers, first).0;
            &&& s1.owner == Some(first)
            &&& s1.initialize(later_signers, second) == (s1, Err::<(), RegistryError>(RegistryError::AlreadyInitialized))
        }),
{
}

/// A staff hash that registered once is refused with `AlreadyRegistered` when the
/// owner registers it again.
pub proof fn law_register_twice_fails(s: RegistryState, signers: Seq<Address>, h: Hash32, t1: u64, t2: u64)
    requires
        s.wf(),
        s.register_staff(signers, h, t1).1 is Ok,
    ensures
        ({
            let s1 = s.register_staff(signers, h, t1).0;
            &&& s1.staff_registered(h)
            &&& s1.register_staff(signers, h, t2).1 == Err::<crate::types::RegistryEvent, RegistryError>(RegistryError::AlreadyRegistered)
        }),
{
    let s1 = s.register_staff(signers, h, t1).0;
    assert(s1.staff_hashes() =~= s.staff_hashes().push(h));
    assert(s1.staff_hashes()[s.staff.len() as int] == h);
}

/// Revoking never changes which staff hashes are registered, so registration
/// stays exactly-once across any number of revocations.
pub proof fn law_revoke_keeps_registrations(s: RegistryState, signers: Seq<Address>, revoked: Hash32, t: u64, h: Hash32)
    requires
        s.wf(),
    ensures
        s.revoke_staff(signers, revoked, t).0.staff_hashes() == s.staff_hashes(),
        s.revoke_staff(signers, revoked, t).0.staff_registered(h) == s.staff_registered(h),
{
    let s1 = s.revoke_staff(signers, revoked, t).0;
    assert(s1.staff_hashes() =~= s.staff_hashes());
}

/// Whenever a staff hash is registered, the owner's attempt to register it again
/// is refused with `AlreadyRegistered` and changes nothing.
pub proof fn law_registered_hash_refused(s: RegistryState, signers: Seq<Address>, h: Hash32, t: u64)
    requires
        s.wf(),
        s.owner_gate(signers) is None,
        s.staff_registered(h),
    ensures
        s.register_staff(signers, h, t) == (s, Err::<crate::types::RegistryEvent, RegistryError>(RegistryError::AlreadyRegistered)),
{
}

/// After a registration and its revocation the hash is still registered, no longer
/// active, and its record keeps the hash, the owner and the time of registration.
pub proof fn law_revocation_keeps_record(s: RegistryState, signers: Seq<Address>, h: Hash32, t1: u64, t2: u64)
    requires
        s.wf(),
        s.register_staff(signers, h, t1).1 is Ok,
    ensures
        ({
            let s1 = s.register_staff(signers, h, t1).0;
            let s2 = s1.revoke_staff(signers, h, t2).0;
            &&& s1.revoke_staff(signers, h, t2).1 is Ok
            &&& s2.staff_registered(h)
            &&& !s2.staff_active(h)
            &&& s2.staff_record(h) == StaffRecord {
                staff_hash: h,
                registered_by: s.owner->0,
                registered_at: t1,
                is_active: false,
            }
        }),
{
    let s1 = s.register_staff(signers, h, t1).0;
    let n = s.staff.len() as int;
    assert(s1.staff_hashes() =~= s.staff_hashes().push(h));
    assert(s1.staff_hashes()[n] == h);
    assert(s1.staff_hashes().contains(h));
    let k = s1.staff_index(h);
    assert(s1.staff_hashes()[k] == h);
    assert(s1.staff_hashes().no_duplicates()) by {
        assert forall|i: int, j: int|
            0 <= i < s1.staff_hashes().len() && 0 <= j < s1.staff_hashes().len() && i != j
            implies s1.staff_hashes()[i] != s1.staff_hashes()[j] by {
            if i < n && j < n {
                assert(s.staff_hashes()[i] != s.staff_hashes()[j]);
            } else if i < n {
                assert(s.staff_hashes()[i] != h);
            } else if j < n {
                assert(s.staff_hashes()[j] != h);
            }
        }
    }
    assert(k == n);
    let s2 = s1.revoke_staff(signers, h, t2).0;
    assert(s2.staff_hashes() =~= s1.staff_hashes());
    assert(s2.staff_hashes()[n] == h);
    assert(s2.staff_hashes().contains(h));
    let k2 = s2.staff_index(h);
    assert(s2.staff_hashes()[k2] == h);
    assert(k2 == n);
}

/// The staff count equals the number of distinct registered staff hashes, and the
/// batch count the number of distinct recorded batch hashes.
pub proof fn law_counts_match_distinct_hashes(s: RegistryState)
    requires
        s.wf(),
    ensures
        s.staff.len() == s.registered_staff().len(),
        s.batches.len() == s.recorded_batches().len(),
        forall|h: Hash32| s.registered_staff().contains(h) == s.staff_registered(h),
        forall|h: Hash32| s.recorded_batches().contains(h) == s.batch_recorded(h),
{
    s.staff_hashes().unique_seq_to_set();
    s.batch_hashes().unique_seq_to_set();
}

/// The zero hash is refused with `InvalidHash` by an authorized owner, for staff
/// and for batches of any size.
pub proof fn law_zero_hash_refused(s: RegistryState, signers: Seq<Address>, h: Hash32, n: u32, t: u64)
    requires
        s.wf(),
        s.owner_gate(signers) is None,
        h.spec_is_zero(),
    ensures
        s.register_staff(signers, h, t) == (s, Err::<crate::types::RegistryEvent, RegistryError>(RegistryError::InvalidHash)),
        s.record_payroll_batch(signers, h, n, t) == (s, Err::<crate::types::RegistryEvent, RegistryError>(RegistryError::InvalidHash)),
{
    if s.staff_registered(h) {
        let i = choose|i: int| 0 <= i < s.staff_hashes().len() && s.staff_hashes()[i] == h;
        assert(s.staff[i].staff_hash == h);
    }
    if s.batch_recorded(h) {
        let i = choose|i: int| 0 <= i < s.batch_hashes().len() && s.batch_hashes()[i] == h;
        assert(s.batches[i].batch_hash == h);
    }
}

/// Every mutating call that the stored owner did not authorize is refused with
/// `Unauthorized` and leaves the state unchanged.
pub proof fn law_authorization_gate(
    s: RegistryState,
    signers: Seq<Address>,
    h: Hash32,
    n: u32,
    t: u64,
    new_owner: Address,
)
    requires
        s.owner is Some,
        !signers.contains(s.owner->0),
    ensures
        s.register_staff(signers, h, t) == (s, Err::<crate::types::RegistryEvent, RegistryError>(RegistryError::Unauthorized)),
        s.revoke_staff(signers, h, t) == (s, Err::<crate::types::RegistryEvent, RegistryError>(RegistryError::Unauthorized)),
        s.record_payroll_batch(signers, h, n, t) == (s, Err::<crate::types::RegistryEvent, RegistryError>(RegistryError::Unauthorized)),
        s.transfer_ownership(signers, new_owner) == (s, Err::<(), RegistryError>(RegistryError::Unauthorized)),
{
}

/// A transfer authorized by the owner and the new owner succeeds; afterwards the
/// new owner passes the owner check, and every call that the new owner did not
/// authorize is refused with `Unauthorized`, the one-time owner's included.
pub proof fn law_transfer_ownership(
    s: RegistryState,
    signers: Seq<Address>,
    new_owner: Address,
    later: Seq<Address>,
    h: Hash32,
    n: u32,
    t: u64,
)
    requires
        s.wf(),
        s.owner is Some,
        signers.contains(s.owner->0),
        signers.contains(new_owner),
        !later.contains(new_owner),
    ensures
        ({
            let s1 = s.transfer_ownership(signers, new_owner).0;
            &&& s.transfer_ownership(signers, new_owner).1 is Ok
            &&& s1.owner == Some(new_owner)
            &&& s1.wf()
            &&& s1.owner_gate(seq![new_owner]) is None
            &&& s1.register_staff(later, h, t).1 == Err::<crate::types::RegistryEvent, RegistryError>(RegistryError::Unauthorized)
            &&& s1.revoke_staff(later, h, t).1 == Err::<crate::types::RegistryEvent, RegistryError>(RegistryError::Unauthorized)
            &&& s1.record_payroll_batch(later, h, n, t).1 == Err::<crate::types::RegistryEvent, RegistryError>(RegistryError::Unauthorized)
        }),
{
    assert(seq![new_owner][0] == new_owner);
}

} // verus!
