use selfref::record::{new_partial, test_box_astruct, SelfRefRecord};
use selfref::store::RecordStore;

#[test]
fn boxed_partial_record() {
    let r = test_box_astruct();
    assert_eq!(r.small_tag, 1);
    assert_eq!(r.value, 123);
    assert_eq!(r.self_ref, None);
}

#[test]
fn partial_record_fields_are_explicit() {
    let r = new_partial(9, 77);
    assert_eq!(r.small_tag, 9);
    assert_eq!(r.value, 77);
    assert_eq!(r.self_ref, None);
}

#[test]
fn two_phase_self_ref_record() {
    let mut s = RecordStore::new();
    let addr = s.allocate();
    assert!(s.stage(addr, 4, 456));
    assert!(s.finalize(addr));

    let rec = s.get_record(addr).unwrap();
    assert_eq!(rec.small_tag, 4);
    assert_eq!(rec.value, 456);

    // The back-reference names the address of the record's own value field.
    let p = rec.self_ref.unwrap();
    assert_eq!(p, addr);

    // Reading through the back-reference equals the direct field read.
    assert_eq!(s.read_through(p), Some(456));
    assert_eq!(s.read_through(p), Some(rec.value));
}

#[test]
fn single_phase_aliasing_record() {
    let mut s = RecordStore::new();
    let addr = s.allocate_finalized(47, 47);

    let rec = s.get_record(addr).unwrap();
    assert_eq!(rec.small_tag, 47);
    assert_eq!(rec.value, 47);

    let p = rec.self_ref.unwrap();
    assert_eq!(p, addr);
    assert_eq!(s.read_through(p), Some(47));
    assert_eq!(s.read_through(p).unwrap(), rec.value);
}

#[test]
fn fields_readable_before_self_ref() {
    let mut s = RecordStore::new();
    let addr = s.allocate();
    assert!(s.stage(addr, 9, 77));

    // The payload fields are valid on their own before finalization ...
    assert_eq!(s.read_small_tag(addr), Some(9));
    assert_eq!(s.read_value(addr), Some(77));

    // ... but no complete record, and nothing to read through, exists yet.
    assert_eq!(s.get_record(addr), None);
    assert_eq!(s.read_through(addr), None);
}

#[test]
fn unwritten_storage_cannot_finalize() {
    let mut s = RecordStore::new();
    let addr = s.allocate();

    // Merely allocated storage has no readable fields ...
    assert_eq!(s.read_small_tag(addr), None);
    assert_eq!(s.read_value(addr), None);

    // ... and does not count as initialized: finalizing is refused.
    assert!(!s.finalize(addr));
    assert_eq!(s.get_record(addr), None);
    assert_eq!(s.read_through(addr), None);
}

#[test]
fn finalized_record_immutable() {
    let mut s = RecordStore::new();
    let addr = s.allocate_finalized(4, 456);

    // Rewriting or re-finalizing a finalized record is refused.
    assert!(!s.stage(addr, 5, 999));
    assert!(!s.finalize(addr));

    let rec = s.get_record(addr).unwrap();
    assert_eq!(rec.small_tag, 4);
    assert_eq!(rec.value, 456);
    assert_eq!(rec.self_ref, Some(addr));
}

#[test]
fn addresses_stable_across_allocations() {
    let mut s = RecordStore::new();
    let first = s.allocate_finalized(1, 111);
    let before = s.get_record(first).unwrap();

    // Later allocations and constructions never relocate an existing record.
    let second = s.allocate();
    assert!(s.stage(second, 2, 222));
    assert!(s.finalize(second));
    let third = s.allocate_finalized(3, 333);
    assert_ne!(first, second);
    assert_ne!(first, third);

    let after = s.get_record(first).unwrap();
    assert_eq!(after, before);
    assert_eq!(after.self_ref, Some(first));
    assert_eq!(s.read_through(first), Some(111));
}

#[test]
fn deferred_write_then_read() {
    let mut s = RecordStore::new();
    let addr = s.allocate();
    assert!(s.stage(addr, 0, 5));
    assert_eq!(s.read_value(addr), Some(5));
}

#[test]
fn invalid_address_reads_nothing() {
    let s = RecordStore::new();
    let addr: usize = 0;
    assert_eq!(s.read_small_tag(addr), None);
    assert_eq!(s.read_value(addr), None);
    assert_eq!(s.read_through(addr), None);
    assert_eq!(s.get_record(addr), None);
}

#[test]
fn equal_records_compare_equal() {
    let a = SelfRefRecord { small_tag: 4, value: 456, self_ref: Some(0) };
    let b = SelfRefRecord { small_tag: 4, value: 456, self_ref: Some(0) };
    assert_eq!(a, b);
}
