use staff_registry::{
    is_signed_by, Address, Hash32, PayrollBatch, RegistryError, RegistryEvent, StaffRecord,
    StaffRegistry,
};

fn addr(tag: u8) -> Address {
    let mut strkey = [b'A'; 56];
    strkey[0] = b'G';
    strkey[55] = tag;
    Address { strkey }
}

fn hash(byte: u8) -> Hash32 {
    Hash32 { bytes: [byte; 32] }
}

fn initialized(owner: Address) -> StaffRegistry {
    let mut reg = StaffRegistry::new();
    reg.initialize(&vec![owner], owner).unwrap();
    reg
}

#[test]
fn test_initialize_and_register() {
    let owner = addr(b'O');
    let mut reg = StaffRegistry::new();
    reg.initialize(&vec![owner], owner).unwrap();
    assert_eq!(reg.owner(), Ok(owner));

    let staff_hash = Hash32 { bytes: [1u8; 32] };
    reg.register_staff(&vec![owner], staff_hash, 0).unwrap();

    assert!(reg.is_staff_registered(&staff_hash));
    assert!(reg.is_staff_active(&staff_hash));
    assert_eq!(reg.get_total_staff(), 1);
}

#[test]
fn test_payroll_batch() {
    let owner = addr(b'O');
    let mut reg = StaffRegistry::new();
    reg.initialize(&vec![owner], owner).unwrap();

    let batch_hash = Hash32 { bytes: [2u8; 32] };
    reg.record_payroll_batch(&vec![owner], batch_hash, 10, 0).unwrap();

    assert!(reg.is_batch_recorded(&batch_hash));
    assert_eq!(reg.get_total_batches(), 1);
}

#[test]
fn uninitialized_registry_answers_defaults() {
    let reg = StaffRegistry::new();
    assert_eq!(reg.owner(), Err(RegistryError::NotInitialized));
    assert!(!reg.is_staff_registered(&hash(1)));
    assert!(!reg.is_staff_active(&hash(1)));
    assert!(!reg.is_batch_recorded(&hash(1)));
    assert_eq!(reg.get_total_staff(), 0);
    assert_eq!(reg.get_total_batches(), 0);
    assert_eq!(reg.get_staff_record(&hash(1)), Err(RegistryError::NotFound));
    assert_eq!(reg.get_payroll_batch(&hash(1)), Err(RegistryError::NotFound));
}

#[test]
fn mutations_before_initialize_are_refused() {
    let a = addr(b'A');
    let mut reg = StaffRegistry::new();
    assert_eq!(reg.register_staff(&vec![a], hash(1), 5), Err(RegistryError::NotInitialized));
    assert_eq!(reg.revoke_staff(&vec![a], hash(1), 5), Err(RegistryError::NotInitialized));
    assert_eq!(
        reg.record_payroll_batch(&vec![a], hash(1), 3, 5),
        Err(RegistryError::NotInitialized)
    );
    assert_eq!(reg.transfer_ownership(&vec![a], a), Err(RegistryError::NotInitialized));
    assert_eq!(reg.get_total_staff(), 0);
}

#[test]
fn initialize_needs_the_owner_to_sign() {
    let a = addr(b'A');
    let b = addr(b'B');
    let mut reg = StaffRegistry::new();
    assert_eq!(reg.initialize(&vec![b], a), Err(RegistryError::Unauthorized));
    assert_eq!(reg.owner(), Err(RegistryError::NotInitialized));
    assert_eq!(reg.initialize(&vec![], a), Err(RegistryError::Unauthorized));
}

#[test]
fn initialize_twice_keeps_first_owner() {
    let a = addr(b'A');
    let b = addr(b'B');
    let mut reg = initialized(a);
    assert_eq!(reg.initialize(&vec![a, b], b), Err(RegistryError::AlreadyInitialized));
    assert_eq!(reg.owner(), Ok(a));
}

#[test]
fn scenario_register_then_query() {
    let a = addr(b'A');
    let h1 = hash(0x11);
    let mut reg = initialized(a);
    let ev = reg.register_staff(&vec![a], h1, 1_700_000_000);
    assert_eq!(
        ev,
        Ok(RegistryEvent::StaffRegistered { staff_hash: h1, owner: a, timestamp: 1_700_000_000 })
    );
    assert!(reg.is_staff_registered(&h1));
    assert!(reg.is_staff_active(&h1));
    assert_eq!(reg.get_total_staff(), 1);
    assert_eq!(
        reg.get_staff_record(&h1),
        Ok(StaffRecord { staff_hash: h1, registered_by: a, registered_at: 1_700_000_000, is_active: true })
    );
}

#[test]
fn scenario_batch_recorded_once() {
    let a = addr(b'A');
    let h2 = hash(0x22);
    let mut reg = initialized(a);
    let ev = reg.record_payroll_batch(&vec![a], h2, 10, 77);
    assert_eq!(
        ev,
        Ok(RegistryEvent::BatchRecorded { batch_hash: h2, owner: a, timestamp: 77, staff_count: 10 })
    );
    assert!(reg.is_batch_recorded(&h2));
    assert_eq!(reg.get_total_batches(), 1);
    assert_eq!(reg.get_payroll_batch(&h2).unwrap().staff_count, 10);
    assert_eq!(
        reg.get_payroll_batch(&h2),
        Ok(PayrollBatch { batch_hash: h2, uploaded_by: a, timestamp: 77, staff_count: 10 })
    );
    assert_eq!(reg.record_payroll_batch(&vec![a], h2, 5, 78), Err(RegistryError::AlreadyRecorded));
    assert_eq!(reg.get_payroll_batch(&h2).unwrap().staff_count, 10);
    assert_eq!(reg.get_total_batches(), 1);
}

#[test]
fn scenario_zero_staff_count_refused() {
    let a = addr(b'A');
    let h2 = hash(0x22);
    let mut reg = initialized(a);
    assert_eq!(reg.record_payroll_batch(&vec![a], h2, 0, 1), Err(RegistryError::InvalidStaffCount));
    assert_eq!(reg.get_total_batches(), 0);
    assert!(!reg.is_batch_recorded(&h2));
}

#[test]
fn zero_hash_refused() {
    let a = addr(b'A');
    let zero = hash(0);
    let mut reg = initialized(a);
    assert_eq!(reg.register_staff(&vec![a], zero, 1), Err(RegistryError::InvalidHash));
    assert_eq!(reg.record_payroll_batch(&vec![a], zero, 0, 1), Err(RegistryError::InvalidHash));
    assert_eq!(reg.record_payroll_batch(&vec![a], zero, 9, 1), Err(RegistryError::InvalidHash));
    assert_eq!(reg.get_total_staff(), 0);
    assert_eq!(reg.get_total_batches(), 0);
}

#[test]
fn hash_with_one_nonzero_byte_is_accepted() {
    let a = addr(b'A');
    let mut bytes = [0u8; 32];
    bytes[31] = 1;
    let h = Hash32 { bytes };
    let mut reg = initialized(a);
    assert!(reg.register_staff(&vec![a], h, 1).is_ok());
    assert!(reg.record_payroll_batch(&vec![a], h, 1, 1).is_ok());
}

#[test]
fn register_twice_fails_even_after_revoke() {
    let a = addr(b'A');
    let h = hash(7);
    let mut reg = initialized(a);
    reg.register_staff(&vec![a], h, 1).unwrap();
    assert_eq!(reg.register_staff(&vec![a], h, 2), Err(RegistryError::AlreadyRegistered));
    reg.revoke_staff(&vec![a], h, 3).unwrap();
    assert_eq!(reg.register_staff(&vec![a], h, 4), Err(RegistryError::AlreadyRegistered));
    assert!(!reg.is_staff_active(&h));
    assert_eq!(reg.get_total_staff(), 1);
}

#[test]
fn revocation_keeps_the_record() {
    let a = addr(b'A');
    let h = hash(9);
    let mut reg = initialized(a);
    reg.register_staff(&vec![a], h, 100).unwrap();
    let ev = reg.revoke_staff(&vec![a], h, 200);
    assert_eq!(ev, Ok(RegistryEvent::StaffRevoked { staff_hash: h, owner: a, timestamp: 200 }));
    assert!(reg.is_staff_registered(&h));
    assert!(!reg.is_staff_active(&h));
    assert_eq!(
        reg.get_staff_record(&h),
        Ok(StaffRecord { staff_hash: h, registered_by: a, registered_at: 100, is_active: false })
    );
    assert_eq!(reg.get_total_staff(), 1);
    assert_eq!(reg.all_staff_hashes(), vec![h]);
}

#[test]
fn revoke_unknown_hash_is_not_found() {
    let a = addr(b'A');
    let mut reg = initialized(a);
    assert_eq!(reg.revoke_staff(&vec![a], hash(3), 1), Err(RegistryError::NotFound));
}

#[test]
fn counts_match_distinct_hashes() {
    let a = addr(b'A');
    let mut reg = initialized(a);
    for b in 1u8..=5 {
        reg.register_staff(&vec![a], hash(b), b as u64).unwrap();
    }
    let _ = reg.register_staff(&vec![a], hash(3), 9);
    reg.revoke_staff(&vec![a], hash(2), 10).unwrap();
    reg.record_payroll_batch(&vec![a], hash(8), 4, 11).unwrap();
    reg.record_payroll_batch(&vec![a], hash(9), 6, 12).unwrap();
    let _ = reg.record_payroll_batch(&vec![a], hash(9), 6, 13);
    assert_eq!(reg.get_total_staff(), 5);
    assert_eq!(reg.get_total_batches(), 2);
    assert_eq!(reg.all_staff_hashes(), vec![hash(1), hash(2), hash(3), hash(4), hash(5)]);
    assert_eq!(reg.all_batch_hashes(), vec![hash(8), hash(9)]);
    let registered = (0u8..=255).filter(|b| reg.is_staff_registered(&hash(*b))).count();
    assert_eq!(registered, reg.get_total_staff() as usize);
    let recorded = (0u8..=255).filter(|b| reg.is_batch_recorded(&hash(*b))).count();
    assert_eq!(recorded, reg.get_total_batches() as usize);
}

#[test]
fn unauthorized_mutations_change_nothing() {
    let a = addr(b'A');
    let m = addr(b'M');
    let mut reg = initialized(a);
    reg.register_staff(&vec![a], hash(1), 1).unwrap();
    let before_staff = reg.staff_records();
    let before_batches = reg.payroll_batches();
    assert_eq!(reg.register_staff(&vec![m], hash(2), 2), Err(RegistryError::Unauthorized));
    assert_eq!(reg.revoke_staff(&vec![m], hash(1), 2), Err(RegistryError::Unauthorized));
    assert_eq!(
        reg.record_payroll_batch(&vec![m], hash(3), 4, 2),
        Err(RegistryError::Unauthorized)
    );
    assert_eq!(reg.transfer_ownership(&vec![m], m), Err(RegistryError::Unauthorized));
    assert_eq!(reg.register_staff(&vec![], hash(2), 2), Err(RegistryError::Unauthorized));
    assert_eq!(reg.owner(), Ok(a));
    assert_eq!(reg.staff_records(), before_staff);
    assert_eq!(reg.payroll_batches(), before_batches);
    assert!(reg.is_staff_active(&hash(1)));
}

#[test]
fn ownership_transfer_moves_the_gate() {
    let a = addr(b'A');
    let b = addr(b'B');
    let mut reg = initialized(a);
    assert_eq!(reg.transfer_ownership(&vec![a], b), Err(RegistryError::Unauthorized));
    assert_eq!(reg.transfer_ownership(&vec![b], b), Err(RegistryError::Unauthorized));
    assert_eq!(reg.owner(), Ok(a));
    assert_eq!(reg.transfer_ownership(&vec![a, b], b), Ok(()));
    assert_eq!(reg.owner(), Ok(b));
    assert_eq!(reg.register_staff(&vec![a], hash(1), 1), Err(RegistryError::Unauthorized));
    assert_eq!(reg.revoke_staff(&vec![a], hash(1), 1), Err(RegistryError::Unauthorized));
    assert_eq!(
        reg.record_payroll_batch(&vec![a], hash(2), 3, 1),
        Err(RegistryError::Unauthorized)
    );
    let ev = reg.register_staff(&vec![b], hash(1), 5);
    assert_eq!(ev, Ok(RegistryEvent::StaffRegistered { staff_hash: hash(1), owner: b, timestamp: 5 }));
    assert_eq!(reg.get_staff_record(&hash(1)).unwrap().registered_by, b);
    assert!(reg.revoke_staff(&vec![b], hash(1), 6).is_ok());
    assert!(reg.record_payroll_batch(&vec![b], hash(2), 3, 7).is_ok());
}

#[test]
fn signer_lookup() {
    let a = addr(b'A');
    let b = addr(b'B');
    assert!(is_signed_by(&vec![b, a], &a));
    assert!(!is_signed_by(&vec![b], &a));
    assert!(!is_signed_by(&vec![], &a));
    assert!(a == a);
    assert!(a != b);
    assert!(hash(1) != hash(2));
    assert!(Hash32::zero().is_zero());
    assert!(!hash(1).is_zero());
}

#[test]
fn restore_from_parts() {
    let a = addr(b'A');
    let mut reg = initialized(a);
    reg.register_staff(&vec![a], hash(1), 1).unwrap();
    reg.revoke_staff(&vec![a], hash(1), 2).unwrap();
    reg.record_payroll_batch(&vec![a], hash(4), 3, 3).unwrap();
    let copy = StaffRegistry::from_parts(Some(a), reg.staff_records(), reg.payroll_batches())
        .expect("well-formed parts");
    assert_eq!(copy.owner(), Ok(a));
    assert_eq!(copy.staff_records(), reg.staff_records());
    assert_eq!(copy.payroll_batches(), reg.payroll_batches());
    assert!(!copy.is_staff_active(&hash(1)));

    let rec = StaffRecord { staff_hash: hash(1), registered_by: a, registered_at: 1, is_active: true };
    assert!(StaffRegistry::from_parts(Some(a), vec![rec, rec], vec![]).is_none());
    let zero = StaffRecord { staff_hash: hash(0), ..rec };
    assert!(StaffRegistry::from_parts(Some(a), vec![zero], vec![]).is_none());
    let empty_batch = PayrollBatch { batch_hash: hash(4), uploaded_by: a, timestamp: 1, staff_count: 0 };
    assert!(StaffRegistry::from_parts(Some(a), vec![], vec![empty_batch]).is_none());
    assert!(StaffRegistry::from_parts(None, vec![rec], vec![]).is_none());
    assert!(StaffRegistry::from_parts(None, vec![], vec![]).is_some());
}
