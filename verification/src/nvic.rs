//! Interrupt numbers of the nRF51 family's interrupt controller.
//!
//! The hardware assigns each peripheral a fixed interrupt line; number 5 is
//! unassigned on this chip, which is why the numbering has a gap. The
//! mapping between variants and line numbers is specified once and both
//! conversion directions are proved against it.

use vstd::prelude::*;

verus! {

/// One peripheral interrupt line.
#[allow(non_camel_case_types)]
#[derive(Clone, Copy, Debug, PartialEq, Eq, Structural)]
pub enum NvicIdx {
    /// Power and clock control.
    POWER_CLOCK,
    /// 2.4 GHz radio.
    RADIO,
    /// Serial port.
    UART0,
    /// Shared SPI 0 / two-wire 0.
    SPI0_TWI0,
    /// Shared SPI 1 / two-wire 1.
    SPI1_TWI1,
    /// GPIO tasks and events.
    GPIOTE,
    /// Analog-to-digital converter.
    ADC,
    /// Timer 0.
    TIMER0,
    /// Timer 1.
    TIMER1,
    /// Timer 2.
    TIMER2,
    /// Real-time counter 0.
    RTC0,
    /// Temperature sensor.
    TEMP,
    /// Random number generator.
    RNG,
    /// AES electronic codebook.
    ECB,
    /// AES CCM and accelerated address resolver.
    CCM_AAR,
    /// Watchdog timer.
    WDT,
    /// Real-time counter 1.
    RTC1,
    /// Quadrature decoder.
    QDEC,
    /// Low-power comparator.
    LPCOMP,
    /// Software interrupt 0.
    SWI0,
    /// Software interrupt 1.
    SWI1,
    /// Software interrupt 2.
    SWI2,
    /// Software interrupt 3.
    SWI3,
    /// Software interrupt 4.
    SWI4,
    /// Software interrupt 5.
    SWI5,
}

/// The hardware interrupt number of each line. Line 5 does not exist on
/// this chip.
pub open spec fn nvic_index(idx: NvicIdx) -> int {
    match idx {
        NvicIdx::POWER_CLOCK => 0,
        NvicIdx::RADIO => 1,
        NvicIdx::UART0 => 2,
        NvicIdx::SPI0_TWI0 => 3,
        NvicIdx::SPI1_TWI1 => 4,
        NvicIdx::GPIOTE => 6,
        NvicIdx::ADC => 7,
        NvicIdx::TIMER0 => 8,
        NvicIdx::TIMER1 => 9,
        NvicIdx::TIMER2 => 10,
        NvicIdx::RTC0 => 11,
        NvicIdx::TEMP => 12,
        NvicIdx::RNG => 13,
        NvicIdx::ECB => 14,
        NvicIdx::CCM_AAR => 15,
        NvicIdx::WDT => 16,
        NvicIdx::RTC1 => 17,
        NvicIdx::QDEC => 18,
        NvicIdx::LPCOMP => 19,
        NvicIdx::SWI0 => 20,
        NvicIdx::SWI1 => 21,
        NvicIdx::SWI2 => 22,
        NvicIdx::SWI3 => 23,
        NvicIdx::SWI4 => 24,
        NvicIdx::SWI5 => 25,
    }
}

impl NvicIdx {
    /// The hardware interrupt number of this line.
    pub fn index(&self) -> (r: u32)
        ensures
            r as int == nvic_index(*self),
    {
        match *self {
            NvicIdx::POWER_CLOCK => 0,
            NvicIdx::RADIO => 1,
            NvicIdx::UART0 => 2,
            NvicIdx::SPI0_TWI0 => 3,
            NvicIdx::SPI1_TWI1 => 4,
            NvicIdx::GPIOTE => 6,
            NvicIdx::ADC => 7,
            NvicIdx::TIMER0 => 8,
            NvicIdx::TIMER1 => 9,
            NvicIdx::TIMER2 => 10,
            NvicIdx::RTC0 => 11,
            NvicIdx::TEMP => 12,
            NvicIdx::RNG => 13,
            NvicIdx::ECB => 14,
            NvicIdx::CCM_AAR => 15,
            NvicIdx::WDT => 16,
            NvicIdx::RTC1 => 17,
            NvicIdx::QDEC => 18,
            NvicIdx::LPCOMP => 19,
            NvicIdx::SWI0 => 20,
            NvicIdx::SWI1 => 21,
            NvicIdx::SWI2 => 22,
            NvicIdx::SWI3 => 23,
            NvicIdx::SWI4 => 24,
            NvicIdx::SWI5 => 25,
        }
    }

    /// The line with hardware number `n`; `None` for the unassigned number
    /// 5 and for numbers past the table.
    pub fn from_index(n: u32) -> (r: Option<NvicIdx>)
        ensures
            r matches Some(idx) ==> nvic_index(idx) == n as int,
            r is None <==> (n == 5 || n > 25),
    {
        match n {
            0 => Some(NvicIdx::POWER_CLOCK),
            1 => Some(NvicIdx::RADIO),
            2 => Some(NvicIdx::UART0),
            3 => Some(NvicIdx::SPI0_TWI0),
            4 => Some(NvicIdx::SPI1_TWI1),
            6 => Some(NvicIdx::GPIOTE),
            7 => Some(NvicIdx::ADC),
            8 => Some(NvicIdx::TIMER0),
            9 => Some(NvicIdx::TIMER1),
            10 => Some(NvicIdx::TIMER2),
            11 => Some(NvicIdx::RTC0),
            12 => Some(NvicIdx::TEMP),
            13 => Some(NvicIdx::RNG),
            14 => Some(NvicIdx::ECB),
            15 => Some(NvicIdx::CCM_AAR),
            16 => Some(NvicIdx::WDT),
            17 => Some(NvicIdx::RTC1),
            18 => Some(NvicIdx::QDEC),
            19 => Some(NvicIdx::LPCOMP),
            20 => Some(NvicIdx::SWI0),
            21 => Some(NvicIdx::SWI1),
            22 => Some(NvicIdx::SWI2),
            23 => Some(NvicIdx::SWI3),
            24 => Some(NvicIdx::SWI4),
            25 => Some(NvicIdx::SWI5),
            _ => None,
        }
    }
}

/// Every line's number lies in the table and avoids the unassigned
/// number, so decoding what [`NvicIdx::index`] encodes always succeeds.
pub proof fn lemma_nvic_index_in_table(idx: NvicIdx)
    ensures
        nvic_index(idx) != 5,
        0 <= nvic_index(idx) <= 25,
{
}

} // verus!
