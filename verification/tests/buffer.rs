use ecs_core::type_erased::TypeErasedVec;

/// Pushed values of varying size, alignment need and zero size drain in
/// exactly the order pushed, with bit-identical contents, leaving the buffer
/// empty.
#[test]
fn drain_yields_push_order_bit_identical() {
    let mut buffer: TypeErasedVec<u32> = TypeErasedVec::new();
    let one = vec![0xABu8];
    let eight = 0x1122334455667788u64.to_le_bytes().to_vec();
    let zero: Vec<u8> = vec![];
    let three = vec![1u8, 2u8, 3u8];
    buffer.push(one.clone(), 10);
    buffer.push(eight.clone(), 20);
    buffer.push(zero.clone(), 30);
    buffer.push(three.clone(), 40);
    assert_eq!(buffer.len(), 4);
    let drained = buffer.drain();
    assert_eq!(drained.len(), 4);
    assert_eq!(drained[0], (one, 10));
    assert_eq!(drained[1], (eight, 20));
    assert_eq!(drained[2], (zero, 30));
    assert_eq!(drained[3], (three, 40));
    assert_eq!(buffer.len(), 0);
    assert!(buffer.is_empty());
}

/// `len() == 0` and `is_empty()` hold right after `clear`, right after a full
/// `drain`, and on a fresh buffer, and at no other time.
#[test]
fn empty_exactly_after_clear_or_drain() {
    let mut buffer: TypeErasedVec<&str> = TypeErasedVec::new();
    assert_eq!(buffer.len(), 0);
    assert!(buffer.is_empty());
    buffer.push(vec![1u8], "x");
    assert_eq!(buffer.len(), 1);
    assert!(!buffer.is_empty());
    buffer.clear();
    assert_eq!(buffer.len(), 0);
    assert!(buffer.is_empty());
    buffer.push(vec![2u8, 3u8], "y");
    buffer.push(vec![], "z");
    assert!(!buffer.is_empty());
    let _ = buffer.drain();
    assert_eq!(buffer.len(), 0);
    assert!(buffer.is_empty());
}

/// An 8-bit value `5` with metadata "a", then a floating-point `3.14` with
/// metadata "b": drain visits ("a", bytes of 5) then ("b", bytes of 3.14),
/// and the buffer is empty afterwards.
#[test]
fn two_typed_records_in_order() {
    let mut buffer: TypeErasedVec<&str> = TypeErasedVec::new();
    buffer.push(vec![5u8], "a");
    buffer.push(3.14f64.to_le_bytes().to_vec(), "b");
    let drained = buffer.drain();
    assert_eq!(drained.len(), 2);
    assert_eq!(drained[0].1, "a");
    assert_eq!(drained[0].0, vec![5u8]);
    assert_eq!(drained[1].1, "b");
    assert_eq!(f64::from_le_bytes(drained[1].0.clone().try_into().unwrap()), 3.14f64);
    assert!(buffer.is_empty());
}

/// A zero-sized value occupies no bytes but still makes one record.
#[test]
fn zero_sized_value_still_visited() {
    let mut buffer: TypeErasedVec<()> = TypeErasedVec::new();
    buffer.push(vec![], ());
    assert_eq!(buffer.len(), 1);
    let drained = buffer.drain();
    assert_eq!(drained.len(), 1);
    assert_eq!(drained[0].0.len(), 0);
}

/// A value whose real type has interior padding round-trips as the exact
/// bytes the caller handed over.
#[test]
fn test_uninit_bytes() {
    let mut queue: TypeErasedVec<()> = TypeErasedVec::new();
    // A `(u8, u16)` pair with alignment padding, laid out explicitly.
    let with_padding = vec![0u8, 0u8, 0u8, 0u8];
    queue.push(with_padding.clone(), ());
    let _ = format!("{:?}", queue.record_bytes(0));
    let drained = queue.drain();
    assert_eq!(drained[0].0, with_padding);
}

/// In-place mutation rewrites exactly one record's bytes and touches neither
/// its metadata nor any other record.
#[test]
fn set_record_bytes_touches_one_record() {
    let mut buffer: TypeErasedVec<u8> = TypeErasedVec::new();
    buffer.push(vec![1, 2], 0);
    buffer.push(vec![3, 4, 5], 1);
    buffer.push(vec![6], 2);
    buffer.set_record_bytes(1, &vec![30, 40, 50]);
    assert_eq!(buffer.record_bytes(0), vec![1, 2]);
    assert_eq!(buffer.record_bytes(1), vec![30, 40, 50]);
    assert_eq!(buffer.record_bytes(2), vec![6]);
    assert_eq!(*buffer.user_data(1), 1);
    let drained = buffer.drain();
    assert_eq!(drained[0], (vec![1, 2], 0));
    assert_eq!(drained[1], (vec![30, 40, 50], 1));
    assert_eq!(drained[2], (vec![6], 2));
}
