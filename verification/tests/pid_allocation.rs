use lodestone_core::pid::MacroPID;
use lodestone_core::pid::PidAllocator;

#[test]
fn allocation_counts_up_from_zero() {
    let mut allocator = PidAllocator::new();
    assert_eq!(allocator.allocate(), MacroPID(0));
    assert_eq!(allocator.allocate(), MacroPID(1));
    assert_eq!(allocator.allocate(), MacroPID(2));
}

#[test]
fn pid_renders_with_its_number() {
    assert_eq!(MacroPID(0).to_string(), "MacroPID(0)");
    assert_eq!(MacroPID(10).to_string(), "MacroPID(10)");
    assert_eq!(MacroPID(4096).to_string(), "MacroPID(4096)");
    assert_eq!(usize::from(MacroPID(7)), 7);
    assert_eq!(usize::from(&MacroPID(8)), 8);
    assert_eq!(*MacroPID(9).as_ref(), 9);
}
