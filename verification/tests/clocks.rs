use cckeyboard::board::{usb_clock_config, ApbPrescaler, HclkPrescaler, InputSource, PllSource, Pllp, Pllq};

#[test]
fn usb_clock_settings() {
    let c = usb_clock_config();
    assert_eq!(c.input_src, InputSource::Pll(PllSource::Hsi));
    assert_eq!(c.pllm, 8);
    assert_eq!(c.plln, 96);
    assert_eq!(c.pllp, Pllp::Div2);
    assert_eq!(c.pllq, Pllq::Div4);
    assert_eq!(c.hclk_prescaler, HclkPrescaler::Div1);
    assert_eq!(c.apb1_prescaler, ApbPrescaler::Div2);
    assert_eq!(c.apb2_prescaler, ApbPrescaler::Div1);
    assert!(!c.hse_bypass);
    assert!(!c.security_system);
}

#[test]
fn usb_clock_is_48_mhz() {
    let c = usb_clock_config();
    let vco = 16_000_000 / c.pllm as u32 * c.plln as u32;
    assert_eq!(vco / 4, 48_000_000);
    assert_eq!(vco / 2, 96_000_000);
}
