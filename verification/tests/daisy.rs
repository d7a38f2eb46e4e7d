//! Committing daisy-chain selections.

use imxrt_iomuxc::Daisy;
use imxrt_iomuxc::RegisterMemory;

#[test]
fn commit_writes_the_value_to_the_register() {
    let mut mem = RegisterMemory::new();
    let daisy = Daisy::new(0x3008, 2);

    daisy.write(&mut mem);

    assert_eq!(mem.read(0x3008), 2);
}

#[test]
fn commit_is_exactly_one_write_and_touches_no_other_address() {
    let mut mem = RegisterMemory::new();
    let daisy = Daisy::new(0x3008, 2);

    daisy.write(&mut mem);

    assert_eq!(mem.writes().len(), 1);
    assert_eq!(mem.writes()[0], (0x3008, 2));
    assert_eq!(mem.read(0x3004), 0);
    assert_eq!(mem.read(0x300C), 0);
}

#[test]
fn a_later_selection_replaces_an_earlier_one() {
    let mut mem = RegisterMemory::new();

    Daisy::new(0x3008, 2).write(&mut mem);
    Daisy::new(0x3008, 1).write(&mut mem);

    assert_eq!(mem.read(0x3008), 1);
}

#[test]
fn daisy_values_are_copied_and_compared_by_fields() {
    let first = Daisy::new(0x3008, 2);
    let second = first;

    assert_eq!(first, second);
    assert_ne!(first, Daisy::new(0x3008, 3));
    assert_ne!(first, Daisy::new(0x300C, 2));
}
