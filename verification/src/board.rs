//! Clock tree settings of the STM32F411 that the USB peripheral needs.

use vstd::prelude::*;

verus! {

/// Frequency of the internal high-speed oscillator.
pub const HSI_HZ: u32 = 16_000_000;

/// The full-speed USB peripheral runs at exactly this clock.
pub const USB_CLOCK_HZ: u32 = 48_000_000;

/// Highest system clock of the STM32F411.
pub const SYSCLK_MAX_HZ: u32 = 100_000_000;

/// Highest APB1 clock of the STM32F411.
pub const APB1_MAX_HZ: u32 = 50_000_000;

#[derive(Clone, Copy, Debug, PartialEq, Eq, Structural)]
pub enum PllSource {
    Hsi,
    /// An external oscillator of this frequency in Hz.
    Hse(u32),
}

#[derive(Clone, Copy, Debug, PartialEq, Eq, Structural)]
pub enum InputSource {
    Hsi,
    Hse(u32),
    Pll(PllSource),
}

/// Divider from the PLL's VCO to the system clock.
#[derive(Clone, Copy, Debug, PartialEq, Eq, Structural)]
pub enum Pllp {
    Div2,
    Div4,
    Div6,
    Div8,
}

/// Divider from the PLL's VCO to the 48 MHz clock of USB.
#[derive(Clone, Copy, Debug, PartialEq, Eq, Structural)]
pub enum Pllq {
    Div2,
    Div3,
    Div4,
    Div5,
    Div6,
    Div7,
    Div8,
    Div9,
    Div10,
    Div11,
    Div12,
    Div13,
    Div14,
    Div15,
}

/// Divider from the system clock to HCLK.
#[derive(Clone, Copy, Debug, PartialEq, Eq, Structural)]
pub enum HclkPrescaler {
    Div1,
    Div2,
    Div4,
    Div8,
    Div16,
    Div64,
    Div128,
    Div256,
    Div512,
}

/// Divider from HCLK to a peripheral bus clock.
#[derive(Clone, Copy, Debug, PartialEq, Eq, Structural)]
pub enum ApbPrescaler {
    Div1,
    Div2,
    Div4,
    Div8,
    Div16,
}

/// The settings of the clock tree.
#[derive(Clone, Copy, Debug, PartialEq, Eq, Structural)]
pub struct ClockConfig {
    pub input_src: InputSource,
    pub pllm: u8,
    pub plln: u16,
    pub pllp: Pllp,
    pub pllq: Pllq,
    pub hclk_prescaler: HclkPrescaler,
    pub apb1_prescaler: ApbPrescaler,
    pub apb2_prescaler: ApbPrescaler,
    pub hse_bypass: bool,
    pub security_system: bool,
}

pub open spec fn pllp_div(p: Pllp) -> nat {
    match p {
        Pllp::Div2 => 2,
        Pllp::Div4 => 4,
        Pllp::Div6 => 6,
        Pllp::Div8 => 8,
    }
}

pub open spec fn pllq_div(q: Pllq) -> nat {
    match q {
        Pllq::Div2 => 2,
        Pllq::Div3 => 3,
        Pllq::Div4 => 4,
        Pllq::Div5 => 5,
        Pllq::Div6 => 6,
        Pllq::Div7 => 7,
        Pllq::Div8 => 8,
        Pllq::Div9 => 9,
        Pllq::Div10 => 10,
        Pllq::Div11 => 11,
        Pllq::Div12 => 12,
        Pllq::Div13 => 13,
        Pllq::Div14 => 14,
        Pllq::Div15 => 15,
    }
}

pub open spec fn hclk_div(h: HclkPrescaler) -> nat {
    match h {
        HclkPrescaler::Div1 => 1,
        HclkPrescaler::Div2 => 2,
        HclkPrescaler::Div4 => 4,
        HclkPrescaler::Div8 => 8,
        HclkPrescaler::Div16 => 16,
        HclkPrescaler::Div64 => 64,
        HclkPrescaler::Div128 => 128,
        HclkPrescaler::Div256 => 256,
        HclkPrescaler::Div512 => 512,
    }
}

pub open spec fn apb_div(a: ApbPrescaler) -> nat {
    match a {
        ApbPrescaler::Div1 => 1,
        ApbPrescaler::Div2 => 2,
        ApbPrescaler::Div4 => 4,
        ApbPrescaler::Div8 => 8,
        ApbPrescaler::Div16 => 16,
    }
}

/// Frequency that feeds the PLL.
pub open spec fn pll_input_hz(src: PllSource) -> nat {
    match src {
        PllSource::Hsi => HSI_HZ as nat,
        PllSource::Hse(f) => f as nat,
    }
}

/// Frequency of the PLL's VCO: its input divided by PLLM and multiplied by
/// PLLN.
pub open spec fn vco_hz(c: ClockConfig, src: PllSource) -> nat {
    pll_input_hz(src) / (c.pllm as nat) * (c.plln as nat)
}

pub open spec fn sysclk_hz(c: ClockConfig) -> nat {
    match c.input_src {
        InputSource::Hsi => HSI_HZ as nat,
        InputSource::Hse(f) => f as nat,
        InputSource::Pll(src) => vco_hz(c, src) / pllp_div(c.pllp),
    }
}

/// The 48 MHz domain clock, fed by the PLL's Q output; none without the PLL.
pub open spec fn usb_hz(c: ClockConfig) -> nat {
    match c.input_src {
        InputSource::Pll(src) => vco_hz(c, src) / pllq_div(c.pllq),
        _ => 0,
    }
}

pub open spec fn hclk_hz(c: ClockConfig) -> nat {
    sysclk_hz(c) / hclk_div(c.hclk_prescaler)
}

pub open spec fn apb1_hz(c: ClockConfig) -> nat {
    hclk_hz(c) / apb_div(c.apb1_prescaler)
}

pub open spec fn apb2_hz(c: ClockConfig) -> nat {
    hclk_hz(c) / apb_div(c.apb2_prescaler)
}

/// The clocks the keyboard runs at: the PLL fed by the HSI, divided by 8,
/// multiplied by 96, then divided by 2 for the system and by 4 for USB.
pub fn usb_clock_config() -> (c: ClockConfig)
    ensures
        c.input_src == InputSource::Pll(PllSource::Hsi),
        c.pllm == 8,
        c.plln == 96,
        c.pllp == Pllp::Div2,
        c.pllq == Pllq::Div4,
        c.hclk_prescaler == HclkPrescaler::Div1,
        c.apb1_prescaler == ApbPrescaler::Div2,
        c.apb2_prescaler == ApbPrescaler::Div1,
        !c.hse_bypass,
        !c.security_system,
{
    ClockConfig {
        input_src: InputSource::Pll(PllSource::Hsi),
        pllm: 8,
        plln: 96,
        pllp: Pllp::Div2,
        pllq: Pllq::Div4,
        hclk_prescaler: HclkPrescaler::Div1,
        apb1_prescaler: ApbPrescaler::Div2,
        apb2_prescaler: ApbPrescaler::Div1,
        hse_bypass: false,
        security_system: false,
    }
}

/// The clock settings give USB its 48 MHz, keep the system clock and APB1
/// within the limits of the STM32F411, and keep PLLM and PLLN in the ranges
/// that the PLL accepts.
pub proof fn lemma_usb_clock_config_rates(c: ClockConfig)
    requires
        c.input_src == InputSource::Pll(PllSource::Hsi),
        c.pllm == 8,
        c.plln == 96,
        c.pllp == Pllp::Div2,
        c.pllq == Pllq::Div4,
        c.hclk_prescaler == HclkPrescaler::Div1,
        c.apb1_prescaler == ApbPrescaler::Div2,
        c.apb2_prescaler == ApbPrescaler::Div1,
    ensures
        usb_hz(c) == USB_CLOCK_HZ as nat,
        sysclk_hz(c) == 96_000_000,
        sysclk_hz(c) <= SYSCLK_MAX_HZ as nat,
        hclk_hz(c) == 96_000_000,
        apb1_hz(c) == 48_000_000,
        apb1_hz(c) <= APB1_MAX_HZ as nat,
        apb2_hz(c) == 96_000_000,
        2 <= c.pllm <= 63,
        50 <= c.plln <= 432,
{
    assert(vco_hz(c, PllSource::Hsi) == 192_000_000);
}

} // verus!
