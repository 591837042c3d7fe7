use aligned_utils::boxed::AlignedBox;

#[test]
fn boxed_check_zst() {
    let b = AlignedBox::new((), 1);
    assert_eq!(b.get(), &());
    drop(b);
}

#[test]
fn check_box_round_trip() {
    let b = AlignedBox::new(42u64, 32);
    assert_eq!(AlignedBox::alignment(&b), 32);
    let (token, align) = AlignedBox::into_raw(b);
    assert_eq!(align, 32);
    let b = AlignedBox::from_raw(token, align);
    assert_eq!(*b.get(), 42u64);
    assert_eq!(AlignedBox::alignment(&b), 32);
}

#[test]
fn check_box_natural_alignment() {
    // a requested alignment below the natural one is raised to it
    let b = AlignedBox::new(7u32, 1);
    assert_eq!(AlignedBox::alignment(&b), core::mem::align_of::<u32>());
}

#[test]
fn check_box_requested_alignment() {
    let b = AlignedBox::new(7u32, 64);
    assert_eq!(AlignedBox::alignment(&b), 64);
}

#[test]
fn check_box_get_set() {
    let mut b = AlignedBox::new(1u8, 2);
    assert_eq!(*b.get(), 1u8);
    b.set(5u8);
    assert_eq!(*b.get(), 5u8);
    assert_eq!(AlignedBox::alignment(&b), 2);
}
