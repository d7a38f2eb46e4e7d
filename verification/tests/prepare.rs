//! Preparing pads for peripheral roles through the pin contracts.

use imxrt_iomuxc::Pad;
use imxrt_iomuxc::RegisterMemory;
use imxrt_iomuxc::gpio;
use imxrt_iomuxc::pwm;
use imxrt_iomuxc::testing::TestGroup;

#[test]
fn gpio_prepare_sets_the_pins_alternate_value() {
    let mut mem = RegisterMemory::new();
    let mut pin: Pad<TestGroup, 3> = Pad::new();
    mem.write(0x100C, 0x0000_0010);

    gpio::prepare(&mut pin, &mut mem);

    assert_eq!(mem.read(0x100C), 0x0000_0015);
}

#[test]
fn pwm_prepare_sets_the_pins_alternate_value() {
    let mut mem = RegisterMemory::new();
    let mut pin: Pad<TestGroup, 4> = Pad::new();
    mem.write(0x1010, 0x0000_00F7);

    pwm::prepare(&mut pin, &mut mem);

    assert_eq!(mem.read(0x1010), 0x0000_00F4);
}
