//! Erasing a pad and recovering its strongly-typed form.

use imxrt_iomuxc::ErasedPad;
use imxrt_iomuxc::Group;
use imxrt_iomuxc::Pad;
use imxrt_iomuxc::WrongPadError;
use imxrt_iomuxc::testing::TestGroup;
use imxrt_iomuxc::testing::TestPad;

#[test]
fn erased_pad_convert_success() {
    let pad = TestPad::new();
    let erased = pad.erase();

    TestPad::try_from(erased).expect("This is the test pad");
}

#[test]
fn erased_pad_convert_fail() {
    let pad = TestPad::new();
    let erased = pad.erase();

    type OtherPad = Pad<TestGroup, 1>;
    OtherPad::try_from(erased).expect_err("This is a different pad");
}

#[test]
fn erase_resolves_group_and_index() {
    let pad: Pad<Group<0x1000, 0x2000>, 3> = Pad::new();
    let erased: ErasedPad = pad.erase();

    assert_eq!(erased.mux_base(), 0x1000);
    assert_eq!(erased.pad_base(), 0x2000);
    assert_eq!(erased.offset(), 3);
}

#[test]
fn erase_recover_roundtrip_keeps_identity() {
    let pad: Pad<Group<0x1000, 0x2000>, 3> = Pad::new();
    let erased = pad.erase();

    let recovered: Pad<Group<0x1000, 0x2000>, 3> =
        Pad::try_from(erased).expect("the identity matches this pad type");
    let erased_again = recovered.erase();

    assert_eq!(erased_again.mux_base(), 0x1000);
    assert_eq!(erased_again.pad_base(), 0x2000);
    assert_eq!(erased_again.offset(), 3);
}

#[test]
fn recover_against_wrong_index_returns_value_unchanged() {
    let pad: Pad<Group<0x1000, 0x2000>, 3> = Pad::new();
    let erased = pad.erase();

    let err: WrongPadError =
        Pad::<Group<0x1000, 0x2000>, 7>::try_from(erased).expect_err("index differs");
    let kept: ErasedPad = err.0;

    assert_eq!(kept.mux_base(), 0x1000);
    assert_eq!(kept.pad_base(), 0x2000);
    assert_eq!(kept.offset(), 3);
}

#[test]
fn recover_against_wrong_group_returns_value_unchanged() {
    let pad: Pad<Group<0x1000, 0x2000>, 3> = Pad::new();
    let erased = pad.erase();

    let err = Pad::<Group<0x5000, 0x6000>, 3>::try_from(erased).expect_err("group differs");
    let kept = err.0;

    assert_eq!(kept.mux_base(), 0x1000);
    assert_eq!(kept.pad_base(), 0x2000);
    assert_eq!(kept.offset(), 3);
}

#[test]
fn failed_recovery_can_be_retried() {
    let pad: Pad<Group<0x1000, 0x2000>, 3> = Pad::new();
    let erased = pad.erase();

    let err = Pad::<Group<0x1000, 0x2000>, 2>::try_from(erased).expect_err("index differs");

    Pad::<Group<0x1000, 0x2000>, 3>::try_from(err.0).expect("the identity was not lost");
}
