//! The board's names for the chip's GPIO pins, over the HAL's typed pins.
use nrf52840_hal::gpio::{p0, p1, Disconnected};
use vstd::prelude::*;

verus! {

/// The HAL's marker for a pin not configured yet.
#[verifier::external_type_specification]
#[verifier::external_body]
pub struct ExDisconnected(Disconnected);

/// Pin 0 of port 0 in the HAL, carried through unopened.
#[allow(non_camel_case_types)]
#[verifier::external_type_specification]
#[verifier::external_body]
#[verifier::reject_recursive_types(MODE)]
pub struct ExP0_00<MODE>(p0::P0_00<MODE>);

/// Pin 1 of port 0 in the HAL, carried through unopened.
#[allow(non_camel_case_types)]
#[verifier::external_type_specification]
#[verifier::external_body]
#[verifier::reject_recursive_types(MODE)]
pub struct ExP0_01<MODE>(p0::P0_01<MODE>);

/// Pin 2 of port 0 in the HAL, carried through unopened.
#[allow(non_camel_case_types)]
#[verifier::external_type_specification]
#[verifier::external_body]
#[verifier::reject_recursive_types(MODE)]
pub struct ExP0_02<MODE>(p0::P0_02<MODE>);

/// Pin 3 of port 0 in the HAL, carried through unopened.
#[allow(non_camel_case_types)]
#[verifier::external_type_specification]
#[verifier::external_body]
#[verifier::reject_recursive_types(MODE)]
pub struct ExP0_03<MODE>(p0::P0_03<MODE>);

/// Pin 4 of port 0 in the HAL, carried through unopened.
#[allow(non_camel_case_types)]
#[verifier::external_type_specification]
#[verifier::external_body]
#[verifier::reject_recursive_types(MODE)]
pub struct ExP0_04<MODE>(p0::P0_04<MODE>);

/// Pin 5 of port 0 in the HAL, carried through unopened.
#[allow(non_camel_case_types)]
#[verifier::external_type_specification]
#[verifier::external_body]
#[verifier::reject_recursive_types(MODE)]
pub struct ExP0_05<MODE>(p0::P0_05<MODE>);

/// Pin 6 of port 0 in the HAL, carried through unopened.
#[allow(non_camel_case_types)]
#[verifier::external_type_specification]
#[verifier::external_body]
#[verifier::reject_recursive_types(MODE)]
pub struct ExP0_06<MODE>(p0::P0_06<MODE>);

/// Pin 7 of port 0 in the HAL, carried through unopened.
#[allow(non_camel_case_types)]
#[verifier::external_type_specification]
#[verifier::external_body]
#[verifier::reject_recursive_types(MODE)]
pub struct ExP0_07<MODE>(p0::P0_07<MODE>);

/// Pin 8 of port 0 in the HAL, carried through unopened.
#[allow(non_camel_case_types)]
#[verifier::external_type_specification]
#[verifier::external_body]
#[verifier::reject_recursive_types(MODE)]
pub struct ExP0_08<MODE>(p0::P0_08<MODE>);

/// Pin 9 of port 0 in the HAL, carried through unopened.
#[allow(non_camel_case_types)]
#[verifier::external_type_specification]
#[verifier::external_body]
#[verifier::reject_recursive_types(MODE)]
pub struct ExP0_09<MODE>(p0::P0_09<MODE>);

/// Pin 10 of port 0 in the HAL, carried through unopened.
#[allow(non_camel_case_types)]
#[verifier::external_type_specification]
#[verifier::external_body]
#[verifier::reject_recursive_types(MODE)]
pub struct ExP0_10<MODE>(p0::P0_10<MODE>);

/// Pin 11 of port 0 in the HAL, carried through unopened.
#[allow(non_camel_case_types)]
#[verifier::external_type_specification]
#[verifier::external_body]
#[verifier::reject_recursive_types(MODE)]
pub struct ExP0_11<MODE>(p0::P0_11<MODE>);

/// Pin 12 of port 0 in the HAL, carried through unopened.
#[allow(non_camel_case_types)]
#[verifier::external_type_specification]
#[verifier::external_body]
#[verifier::reject_recursive_types(MODE)]
pub struct ExP0_12<MODE>(p0::P0_12<MODE>);

/// Pin 13 of port 0 in the HAL, carried through unopened.
#[allow(non_camel_case_types)]
#[verifier::external_type_specification]
#[verifier::external_body]
#[verifier::reject_recursive_types(MODE)]
pub struct ExP0_13<MODE>(p0::P0_13<MODE>);

/// Pin 14 of port 0 in the HAL, carried through unopened.
#[allow(non_camel_case_types)]
#[verifier::external_type_specification]
#[verifier::external_body]
#[verifier::reject_recursive_types(MODE)]
pub struct ExP0_14<MODE>(p0::P0_14<MODE>);

/// Pin 15 of port 0 in the HAL, carried through unopened.
#[allow(non_camel_case_types)]
#[verifier::external_type_specification]
#[verifier::external_body]
#[verifier::reject_recursive_types(MODE)]
pub struct ExP0_15<MODE>(p0::P0_15<MODE>);

/// Pin 16 of port 0 in the HAL, carried through unopened.
#[allow(non_camel_case_types)]
#[verifier::external_type_specification]
#[verifier::external_body]
#[verifier::reject_recursive_types(MODE)]
pub struct ExP0_16<MODE>(p0::P0_16<MODE>);

/// Pin 17 of port 0 in the HAL, carried through unopened.
#[allow(non_camel_case_types)]
#[verifier::external_type_specification]
#[verifier::external_body]
#[verifier::reject_recursive_types(MODE)]
pub struct ExP0_17<MODE>(p0::P0_17<MODE>);

/// Pin 18 of port 0 in the HAL, carried through unopened.
#[allow(non_camel_case_types)]
#[verifier::external_type_specification]
#[verifier::external_body]
#[verifier::reject_recursive_types(MODE)]
pub struct ExP0_18<MODE>(p0::P0_18<MODE>);

/// Pin 19 of port 0 in the HAL, carried through unopened.
#[allow(non_camel_case_types)]
#[verifier::external_type_specification]
#[verifier::external_body]
#[verifier::reject_recursive_types(MODE)]
pub struct ExP0_19<MODE>(p0::P0_19<MODE>);

/// Pin 20 of port 0 in the HAL, carried through unopened.
#[allow(non_camel_case_types)]
#[verifier::external_type_specification]
#[verifier::external_body]
#[verifier::reject_recursive_types(MODE)]
pub struct ExP0_20<MODE>(p0::P0_20<MODE>);

/// Pin 21 of port 0 in the HAL, carried through unopened.
#[allow(non_camel_case_types)]
#[verifier::external_type_specification]
#[verifier::external_body]
#[verifier::reject_recursive_types(MODE)]
pub struct ExP0_21<MODE>(p0::P0_21<MODE>);

/// Pin 22 of port 0 in the HAL, carried through unopened.
#[allow(non_camel_case_types)]
#[verifier::external_type_specification]
#[verifier::external_body]
#[verifier::reject_recursive_types(MODE)]
pub struct ExP0_22<MODE>(p0::P0_22<MODE>);

/// Pin 23 of port 0 in the HAL, carried through unopened.
#[allow(non_camel_case_types)]
#[verifier::external_type_specification]
#[verifier::external_body]
#[verifier::reject_recursive_types(MODE)]
pub struct ExP0_23<MODE>(p0::P0_23<MODE>);

/// Pin 24 of port 0 in the HAL, carried through unopened.
#[allow(non_camel_case_types)]
#[verifier::external_type_specification]
#[verifier::external_body]
#[verifier::reject_recursive_types(MODE)]
pub struct ExP0_24<MODE>(p0::P0_24<MODE>);

/// Pin 25 of port 0 in the HAL, carried through unopened.
#[allow(non_camel_case_types)]
#[verifier::external_type_specification]
#[verifier::external_body]
#[verifier::reject_recursive_types(MODE)]
pub struct ExP0_25<MODE>(p0::P0_25<MODE>);

/// Pin 26 of port 0 in the HAL, carried through unopened.
#[allow(non_camel_case_types)]
#[verifier::external_type_specification]
#[verifier::external_body]
#[verifier::reject_recursive_types(MODE)]
pub struct ExP0_26<MODE>(p0::P0_26<MODE>);

/// Pin 27 of port 0 in the HAL, carried through unopened.
#[allow(non_camel_case_types)]
#[verifier::external_type_specification]
#[verifier::external_body]
#[verifier::reject_recursive_types(MODE)]
pub struct ExP0_27<MODE>(p0::P0_27<MODE>);

/// Pin 28 of port 0 in the HAL, carried through unopened.
#[allow(non_camel_case_types)]
#[verifier::external_type_specification]
#[verifier::external_body]
#[verifier::reject_recursive_types(MODE)]
pub struct ExP0_28<MODE>(p0::P0_28<MODE>);

/// Pin 29 of port 0 in the HAL, carried through unopened.
#[allow(non_camel_case_types)]
#[verifier::external_type_specification]
#[verifier::external_body]
#[verifier::reject_recursive_types(MODE)]
pub struct ExP0_29<MODE>(p0::P0_29<MODE>);

/// Pin 30 of port 0 in the HAL, carried through unopened.
#[allow(non_camel_case_types)]
#[verifier::external_type_specification]
#[verifier::external_body]
#[verifier::reject_recursive_types(MODE)]
pub struct ExP0_30<MODE>(p0::P0_30<MODE>);

/// Pin 31 of port 0 in the HAL, carried through unopened.
#[allow(non_camel_case_types)]
#[verifier::external_type_specification]
#[verifier::external_body]
#[verifier::reject_recursive_types(MODE)]
pub struct ExP0_31<MODE>(p0::P0_31<MODE>);

/// Pin 0 of port 1 in the HAL, carried through unopened.
#[allow(non_camel_case_types)]
#[verifier::external_type_specification]
#[verifier::external_body]
#[verifier::reject_recursive_types(MODE)]
pub struct ExP1_00<MODE>(p1::P1_00<MODE>);

/// Pin 1 of port 1 in the HAL, carried through unopened.
#[allow(non_camel_case_types)]
#[verifier::external_type_specification]
#[verifier::external_body]
#[verifier::reject_recursive_types(MODE)]
pub struct ExP1_01<MODE>(p1::P1_01<MODE>);

/// Pin 2 of port 1 in the HAL, carried through unopened.
#[allow(non_camel_case_types)]
#[verifier::external_type_specification]
#[verifier::external_body]
#[verifier::reject_recursive_types(MODE)]
pub struct ExP1_02<MODE>(p1::P1_02<MODE>);

/// Pin 3 of port 1 in the HAL, carried through unopened.
#[allow(non_camel_case_types)]
#[verifier::external_type_specification]
#[verifier::external_body]
#[verifier::reject_recursive_types(MODE)]
pub struct ExP1_03<MODE>(p1::P1_03<MODE>);

/// Pin 4 of port 1 in the HAL, carried through unopened.
#[allow(non_camel_case_types)]
#[verifier::external_type_specification]
#[verifier::external_body]
#[verifier::reject_recursive_types(MODE)]
pub struct ExP1_04<MODE>(p1::P1_04<MODE>);

/// Pin 5 of port 1 in the HAL, carried through unopened.
#[allow(non_camel_case_types)]
#[verifier::external_type_specification]
#[verifier::external_body]
#[verifier::reject_recursive_types(MODE)]
pub struct ExP1_05<MODE>(p1::P1_05<MODE>);

/// Pin 6 of port 1 in the HAL, carried through unopened.
#[allow(non_camel_case_types)]
#[verifier::external_type_specification]
#[verifier::external_body]
#[verifier::reject_recursive_types(MODE)]
pub struct ExP1_06<MODE>(p1::P1_06<MODE>);

/// Pin 7 of port 1 in the HAL, carried through unopened.
#[allow(non_camel_case_types)]
#[verifier::external_type_specification]
#[verifier::external_body]
#[verifier::reject_recursive_types(MODE)]
pub struct ExP1_07<MODE>(p1::P1_07<MODE>);

/// Pin 8 of port 1 in the HAL, carried through unopened.
#[allow(non_camel_case_types)]
#[verifier::external_type_specification]
#[verifier::external_body]
#[verifier::reject_recursive_types(MODE)]
pub struct ExP1_08<MODE>(p1::P1_08<MODE>);

/// Pin 9 of port 1 in the HAL, carried through unopened.
#[allow(non_camel_case_types)]
#[verifier::external_type_specification]
#[verifier::external_body]
#[verifier::reject_recursive_types(MODE)]
pub struct ExP1_09<MODE>(p1::P1_09<MODE>);

/// Pin 10 of port 1 in the HAL, carried through unopened.
#[allow(non_camel_case_types)]
#[verifier::external_type_specification]
#[verifier::external_body]
#[verifier::reject_recursive_types(MODE)]
pub struct ExP1_10<MODE>(p1::P1_10<MODE>);

/// Pin 11 of port 1 in the HAL, carried through unopened.
#[allow(non_camel_case_types)]
#[verifier::external_type_specification]
#[verifier::external_body]
#[verifier::reject_recursive_types(MODE)]
pub struct ExP1_11<MODE>(p1::P1_11<MODE>);

/// Pin 12 of port 1 in the HAL, carried through unopened.
#[allow(non_camel_case_types)]
#[verifier::external_type_specification]
#[verifier::external_body]
#[verifier::reject_recursive_types(MODE)]
pub struct ExP1_12<MODE>(p1::P1_12<MODE>);

/// Pin 13 of port 1 in the HAL, carried through unopened.
#[allow(non_camel_case_types)]
#[verifier::external_type_specification]
#[verifier::external_body]
#[verifier::reject_recursive_types(MODE)]
pub struct ExP1_13<MODE>(p1::P1_13<MODE>);

/// Pin 14 of port 1 in the HAL, carried through unopened.
#[allow(non_camel_case_types)]
#[verifier::external_type_specification]
#[verifier::external_body]
#[verifier::reject_recursive_types(MODE)]
pub struct ExP1_14<MODE>(p1::P1_14<MODE>);

/// Pin 15 of port 1 in the HAL, carried through unopened.
#[allow(non_camel_case_types)]
#[verifier::external_type_specification]
#[verifier::external_body]
#[verifier::reject_recursive_types(MODE)]
pub struct ExP1_15<MODE>(p1::P1_15<MODE>);

/// The HAL's pins of port 0, whose fields are read here.
#[verifier::external_type_specification]
pub struct ExParts0(p0::Parts);

/// The HAL's pins of port 1, whose fields are read here.
#[verifier::external_type_specification]
pub struct ExParts1(p1::Parts);

/// The pins of both ports under the names printed on the board, each not
/// configured yet.
pub struct Pins {
    /// UART RXD.
    pub rxd: p0::P0_19<Disconnected>,
    /// UART TXD.
    pub txd: p0::P0_20<Disconnected>,
    pub p6: p0::P0_06<Disconnected>,
    pub p7: p0::P0_07<Disconnected>,
    pub p8: p0::P0_08<Disconnected>,
    pub p11: p0::P0_11<Disconnected>,
    pub p12: p0::P0_12<Disconnected>,
    pub p13: p0::P0_13<Disconnected>,
    pub p14: p0::P0_14<Disconnected>,
    pub p15: p0::P0_15<Disconnected>,
    pub p16: p0::P0_16<Disconnected>,
    pub p17: p0::P0_17<Disconnected>,
    pub p21: p0::P0_21<Disconnected>,
    pub p25: p0::P0_25<Disconnected>,
    pub p26: p0::P0_26<Disconnected>,
    pub p27: p0::P0_27<Disconnected>,
    /// Analog input 0.
    pub ain0: p0::P0_02<Disconnected>,
    /// Analog input 1.
    pub ain1: p0::P0_03<Disconnected>,
    /// Analog input 2.
    pub ain2: p0::P0_04<Disconnected>,
    /// Analog input 3.
    pub ain3: p0::P0_05<Disconnected>,
    /// Analog input 4.
    pub ain4: p0::P0_28<Disconnected>,
    /// Analog input 5.
    pub ain5: p0::P0_29<Disconnected>,
    /// Analog input 6.
    pub ain6: p0::P0_30<Disconnected>,
    /// Analog input 7.
    pub ain7: p0::P0_31<Disconnected>,
    /// NFC antenna, first pad.
    pub nfc1: p0::P0_09<Disconnected>,
    /// NFC antenna, second pad.
    pub nfc2: p0::P0_10<Disconnected>,
    /// The red LED.
    pub red_led: p0::P0_23<Disconnected>,
    /// The green LED.
    pub green_led: p0::P0_22<Disconnected>,
    /// The blue LED.
    pub blue_led: p0::P0_24<Disconnected>,
    /// The user button.
    pub button: p1::P1_00<Disconnected>,
    /// ~RESET line to the QSPI flash.
    pub qspi_reset: p1::P1_01<Disconnected>,
    /// ~WP, write protect of the QSPI flash.
    pub qspi_wp: p1::P1_02<Disconnected>,
    /// SPI SCLK of the QSPI flash.
    pub qspi_sclk: p1::P1_03<Disconnected>,
    /// SPI MISO of the QSPI flash.
    pub qspi_miso: p1::P1_04<Disconnected>,
    /// SPI MOSI of the QSPI flash.
    pub qspi_mosi: p1::P1_05<Disconnected>,
    /// ~CS of the QSPI flash.
    pub qspi_cs: p1::P1_06<Disconnected>,
    /// 32.768 kHz crystal, first pad.
    pub xl1: p0::P0_00<Disconnected>,
    /// 32.768 kHz crystal, second pad.
    pub xl2: p0::P0_01<Disconnected>,
    /// The reset line, also a GPIO.
    pub reset: p0::P0_18<Disconnected>,
    pub p1_07: p1::P1_07<Disconnected>,
    pub p1_08: p1::P1_08<Disconnected>,
    pub p1_09: p1::P1_09<Disconnected>,
    pub p1_10: p1::P1_10<Disconnected>,
    pub p1_11: p1::P1_11<Disconnected>,
    pub p1_12: p1::P1_12<Disconnected>,
    pub p1_13: p1::P1_13<Disconnected>,
    pub p1_14: p1::P1_14<Disconnected>,
    pub p1_15: p1::P1_15<Disconnected>,
}

/// `pins` holds, under each name, the pin of `pins0` or `pins1` that the
/// board's wiring gives that name.
pub open spec fn is_named_from(pins: Pins, pins0: p0::Parts, pins1: p1::Parts) -> bool {
    &&& pins.rxd == pins0.p0_19
    &&& pins.txd == pins0.p0_20
    &&& pins.p6 == pins0.p0_06
    &&& pins.p7 == pins0.p0_07
    &&& pins.p8 == pins0.p0_08
    &&& pins.p11 == pins0.p0_11
    &&& pins.p12 == pins0.p0_12
    &&& pins.p13 == pins0.p0_13
    &&& pins.p14 == pins0.p0_14
    &&& pins.p15 == pins0.p0_15
    &&& pins.p16 == pins0.p0_16
    &&& pins.p17 == pins0.p0_17
    &&& pins.p21 == pins0.p0_21
    &&& pins.p25 == pins0.p0_25
    &&& pins.p26 == pins0.p0_26
    &&& pins.p27 == pins0.p0_27
    &&& pins.ain0 == pins0.p0_02
    &&& pins.ain1 == pins0.p0_03
    &&& pins.ain2 == pins0.p0_04
    &&& pins.ain3 == pins0.p0_05
    &&& pins.ain4 == pins0.p0_28
    &&& pins.ain5 == pins0.p0_29
    &&& pins.ain6 == pins0.p0_30
    &&& pins.ain7 == pins0.p0_31
    &&& pins.nfc1 == pins0.p0_09
    &&& pins.nfc2 == pins0.p0_10
    &&& pins.red_led == pins0.p0_23
    &&& pins.green_led == pins0.p0_22
    &&& pins.blue_led == pins0.p0_24
    &&& pins.button == pins1.p1_00
    &&& pins.qspi_reset == pins1.p1_01
    &&& pins.qspi_wp == pins1.p1_02
    &&& pins.qspi_sclk == pins1.p1_03
    &&& pins.qspi_miso == pins1.p1_04
    &&& pins.qspi_mosi == pins1.p1_05
    &&& pins.qspi_cs == pins1.p1_06
    &&& pins.xl1 == pins0.p0_00
    &&& pins.xl2 == pins0.p0_01
    &&& pins.reset == pins0.p0_18
    &&& pins.p1_07 == pins1.p1_07
    &&& pins.p1_08 == pins1.p1_08
    &&& pins.p1_09 == pins1.p1_09
    &&& pins.p1_10 == pins1.p1_10
    &&& pins.p1_11 == pins1.p1_11
    &&& pins.p1_12 == pins1.p1_12
    &&& pins.p1_13 == pins1.p1_13
    &&& pins.p1_14 == pins1.p1_14
    &&& pins.p1_15 == pins1.p1_15
}

impl Pins {
    /// Renames the pins of the two ports after the board's wiring: each name
    /// takes the one pin it stands for, and every pin takes a name. Naming
    /// each pin of both ports here means that a change to the ports' pins
    /// stops the build.
    pub fn new(pins0: p0::Parts, pins1: p1::Parts) -> (r: Pins)
        ensures
            is_named_from(r, pins0, pins1),
    {
        let p0::Parts {
            p0_00,
            p0_01,
            p0_02,
            p0_03,
            p0_04,
            p0_05,
            p0_06,
            p0_07,
            p0_08,
            p0_09,
            p0_10,
            p0_11,
            p0_12,
            p0_13,
            p0_14,
            p0_15,
            p0_16,
            p0_17,
            p0_18,
            p0_19,
            p0_20,
            p0_21,
            p0_22,
            p0_23,
            p0_24,
            p0_25,
            p0_26,
            p0_27,
            p0_28,
            p0_29,
            p0_30,
            p0_31,
        } = pins0;
        let p1::Parts {
            p1_00,
            p1_01,
            p1_02,
            p1_03,
            p1_04,
            p1_05,
            p1_06,
            p1_07,
            p1_08,
            p1_09,
            p1_10,
            p1_11,
            p1_12,
            p1_13,
            p1_14,
            p1_15,
        } = pins1;
        Pins {
            rxd: p0_19,
            txd: p0_20,
            p6: p0_06,
            p7: p0_07,
            p8: p0_08,
            p11: p0_11,
            p12: p0_12,
            p13: p0_13,
            p14: p0_14,
            p15: p0_15,
            p16: p0_16,
            p17: p0_17,
            p21: p0_21,
            p25: p0_25,
            p26: p0_26,
            p27: p0_27,
            ain0: p0_02,
            ain1: p0_03,
            ain2: p0_04,
            ain3: p0_05,
            ain4: p0_28,
            ain5: p0_29,
            ain6: p0_30,
            ain7: p0_31,
            nfc1: p0_09,
            nfc2: p0_10,
            red_led: p0_23,
            green_led: p0_22,
            blue_led: p0_24,
            button: p1_00,
            qspi_reset: p1_01,
            qspi_wp: p1_02,
            qspi_sclk: p1_03,
            qspi_miso: p1_04,
            qspi_mosi: p1_05,
            qspi_cs: p1_06,
            xl1: p0_00,
            xl2: p0_01,
            reset: p0_18,
            p1_07: p1_07,
            p1_08: p1_08,
            p1_09: p1_09,
            p1_10: p1_10,
            p1_11: p1_11,
            p1_12: p1_12,
            p1_13: p1_13,
            p1_14: p1_14,
            p1_15: p1_15,
        }
    }
}

} // verus!
