//! The chip's peripheral register blocks as the device crate hands them out,
//! split between the radio protocol stack and the application.
use crate::inventory::{owner_of, Owner, PeripheralId};
use nrf52840_hal::pac;
use nrf52840_hal::pac::Peripherals as DevicePeripherals;
use vstd::prelude::*;

verus! {

/// The `FICR` register block of the device crate, carried through unopened.
#[verifier::external_type_specification]
#[verifier::external_body]
pub struct ExFICR(pac::FICR);

/// The `UICR` register block of the device crate, carried through unopened.
#[verifier::external_type_specification]
#[verifier::external_body]
pub struct ExUICR(pac::UICR);

/// The `CLOCK` register block of the device crate, carried through unopened.
#[verifier::external_type_specification]
#[verifier::external_body]
pub struct ExCLOCK(pac::CLOCK);

/// The `POWER` register block of the device crate, carried through unopened.
#[verifier::external_type_specification]
#[verifier::external_body]
pub struct ExPOWER(pac::POWER);

/// The `RADIO` register block of the device crate, carried through unopened.
#[verifier::external_type_specification]
#[verifier::external_body]
pub struct ExRADIO(pac::RADIO);

/// The `UART0` register block of the device crate, carried through unopened.
#[verifier::external_type_specification]
#[verifier::external_body]
pub struct ExUART0(pac::UART0);

/// The `UARTE0` register block of the device crate, carried through unopened.
#[verifier::external_type_specification]
#[verifier::external_body]
pub struct ExUARTE0(pac::UARTE0);

/// The `SPI0` register block of the device crate, carried through unopened.
#[verifier::external_type_specification]
#[verifier::external_body]
pub struct ExSPI0(pac::SPI0);

/// The `SPIM0` register block of the device crate, carried through unopened.
#[verifier::external_type_specification]
#[verifier::external_body]
pub struct ExSPIM0(pac::SPIM0);

/// The `SPIS0` register block of the device crate, carried through unopened.
#[verifier::external_type_specification]
#[verifier::external_body]
pub struct ExSPIS0(pac::SPIS0);

/// The `TWI0` register block of the device crate, carried through unopened.
#[verifier::external_type_specification]
#[verifier::external_body]
pub struct ExTWI0(pac::TWI0);

/// The `TWIM0` register block of the device crate, carried through unopened.
#[verifier::external_type_specification]
#[verifier::external_body]
pub struct ExTWIM0(pac::TWIM0);

/// The `TWIS0` register block of the device crate, carried through unopened.
#[verifier::external_type_specification]
#[verifier::external_body]
pub struct ExTWIS0(pac::TWIS0);

/// The `SPI1` register block of the device crate, carried through unopened.
#[verifier::external_type_specification]
#[verifier::external_body]
pub struct ExSPI1(pac::SPI1);

/// The `SPIM1` register block of the device crate, carried through unopened.
#[verifier::external_type_specification]
#[verifier::external_body]
pub struct ExSPIM1(pac::SPIM1);

/// The `SPIS1` register block of the device crate, carried through unopened.
#[verifier::external_type_specification]
#[verifier::external_body]
pub struct ExSPIS1(pac::SPIS1);

/// The `TWI1` register block of the device crate, carried through unopened.
#[verifier::external_type_specification]
#[verifier::external_body]
pub struct ExTWI1(pac::TWI1);

/// The `TWIM1` register block of the device crate, carried through unopened.
#[verifier::external_type_specification]
#[verifier::external_body]
pub struct ExTWIM1(pac::TWIM1);

/// The `TWIS1` register block of the device crate, carried through unopened.
#[verifier::external_type_specification]
#[verifier::external_body]
pub struct ExTWIS1(pac::TWIS1);

/// The `NFCT` register block of the device crate, carried through unopened.
#[verifier::external_type_specification]
#[verifier::external_body]
pub struct ExNFCT(pac::NFCT);

/// The `GPIOTE` register block of the device crate, carried through unopened.
#[verifier::external_type_specification]
#[verifier::external_body]
pub struct ExGPIOTE(pac::GPIOTE);

/// The `SAADC` register block of the device crate, carried through unopened.
#[verifier::external_type_specification]
#[verifier::external_body]
pub struct ExSAADC(pac::SAADC);

/// The `TIMER0` register block of the device crate, carried through unopened.
#[verifier::external_type_specification]
#[verifier::external_body]
pub struct ExTIMER0(pac::TIMER0);

/// The `TIMER1` register block of the device crate, carried through unopened.
#[verifier::external_type_specification]
#[verifier::external_body]
pub struct ExTIMER1(pac::TIMER1);

/// The `TIMER2` register block of the device crate, carried through unopened.
#[verifier::external_type_specification]
#[verifier::external_body]
pub struct ExTIMER2(pac::TIMER2);

/// The `RTC0` register block of the device crate, carried through unopened.
#[verifier::external_type_specification]
#[verifier::external_body]
pub struct ExRTC0(pac::RTC0);

/// The `TEMP` register block of the device crate, carried through unopened.
#[verifier::external_type_specification]
#[verifier::external_body]
pub struct ExTEMP(pac::TEMP);

/// The `RNG` register block of the device crate, carried through unopened.
#[verifier::external_type_specification]
#[verifier::external_body]
pub struct ExRNG(pac::RNG);

/// The `ECB` register block of the device crate, carried through unopened.
#[verifier::external_type_specification]
#[verifier::external_body]
pub struct ExECB(pac::ECB);

/// The `AAR` register block of the device crate, carried through unopened.
#[verifier::external_type_specification]
#[verifier::external_body]
pub struct ExAAR(pac::AAR);

/// The `CCM` register block of the device crate, carried through unopened.
#[verifier::external_type_specification]
#[verifier::external_body]
pub struct ExCCM(pac::CCM);

/// The `WDT` register block of the device crate, carried through unopened.
#[verifier::external_type_specification]
#[verifier::external_body]
pub struct ExWDT(pac::WDT);

/// The `RTC1` register block of the device crate, carried through unopened.
#[verifier::external_type_specification]
#[verifier::external_body]
pub struct ExRTC1(pac::RTC1);

/// The `QDEC` register block of the device crate, carried through unopened.
#[verifier::external_type_specification]
#[verifier::external_body]
pub struct ExQDEC(pac::QDEC);

/// The `COMP` register block of the device crate, carried through unopened.
#[verifier::external_type_specification]
#[verifier::external_body]
pub struct ExCOMP(pac::COMP);

/// The `LPCOMP` register block of the device crate, carried through unopened.
#[verifier::external_type_specification]
#[verifier::external_body]
pub struct ExLPCOMP(pac::LPCOMP);

/// The `EGU0` register block of the device crate, carried through unopened.
#[verifier::external_type_specification]
#[verifier::external_body]
pub struct ExEGU0(pac::EGU0);

/// The `SWI0` register block of the device crate, carried through unopened.
#[verifier::external_type_specification]
#[verifier::external_body]
pub struct ExSWI0(pac::SWI0);

/// The `EGU1` register block of the device crate, carried through unopened.
#[verifier::external_type_specification]
#[verifier::external_body]
pub struct ExEGU1(pac::EGU1);

/// The `SWI1` register block of the device crate, carried through unopened.
#[verifier::external_type_specification]
#[verifier::external_body]
pub struct ExSWI1(pac::SWI1);

/// The `EGU2` register block of the device crate, carried through unopened.
#[verifier::external_type_specification]
#[verifier::external_body]
pub struct ExEGU2(pac::EGU2);

/// The `SWI2` register block of the device crate, carried through unopened.
#[verifier::external_type_specification]
#[verifier::external_body]
pub struct ExSWI2(pac::SWI2);

/// The `EGU3` register block of the device crate, carried through unopened.
#[verifier::external_type_specification]
#[verifier::external_body]
pub struct ExEGU3(pac::EGU3);

/// The `SWI3` register block of the device crate, carried through unopened.
#[verifier::external_type_specification]
#[verifier::external_body]
pub struct ExSWI3(pac::SWI3);

/// The `EGU4` register block of the device crate, carried through unopened.
#[verifier::external_type_specification]
#[verifier::external_body]
pub struct ExEGU4(pac::EGU4);

/// The `SWI4` register block of the device crate, carried through unopened.
#[verifier::external_type_specification]
#[verifier::external_body]
pub struct ExSWI4(pac::SWI4);

/// The `EGU5` register block of the device crate, carried through unopened.
#[verifier::external_type_specification]
#[verifier::external_body]
pub struct ExEGU5(pac::EGU5);

/// The `SWI5` register block of the device crate, carried through unopened.
#[verifier::external_type_specification]
#[verifier::external_body]
pub struct ExSWI5(pac::SWI5);

/// The `TIMER3` register block of the device crate, carried through unopened.
#[verifier::external_type_specification]
#[verifier::external_body]
pub struct ExTIMER3(pac::TIMER3);

/// The `TIMER4` register block of the device crate, carried through unopened.
#[verifier::external_type_specification]
#[verifier::external_body]
pub struct ExTIMER4(pac::TIMER4);

/// The `PWM0` register block of the device crate, carried through unopened.
#[verifier::external_type_specification]
#[verifier::external_body]
pub struct ExPWM0(pac::PWM0);

/// The `PDM` register block of the device crate, carried through unopened.
#[verifier::external_type_specification]
#[verifier::external_body]
pub struct ExPDM(pac::PDM);

/// The `ACL` register block of the device crate, carried through unopened.
#[verifier::external_type_specification]
#[verifier::external_body]
pub struct ExACL(pac::ACL);

/// The `NVMC` register block of the device crate, carried through unopened.
#[verifier::external_type_specification]
#[verifier::external_body]
pub struct ExNVMC(pac::NVMC);

/// The `PPI` register block of the device crate, carried through unopened.
#[verifier::external_type_specification]
#[verifier::external_body]
pub struct ExPPI(pac::PPI);

/// The `MWU` register block of the device crate, carried through unopened.
#[verifier::external_type_specification]
#[verifier::external_body]
pub struct ExMWU(pac::MWU);

/// The `PWM1` register block of the device crate, carried through unopened.
#[verifier::external_type_specification]
#[verifier::external_body]
pub struct ExPWM1(pac::PWM1);

/// The `PWM2` register block of the device crate, carried through unopened.
#[verifier::external_type_specification]
#[verifier::external_body]
pub struct ExPWM2(pac::PWM2);

/// The `SPI2` register block of the device crate, carried through unopened.
#[verifier::external_type_specification]
#[verifier::external_body]
pub struct ExSPI2(pac::SPI2);

/// The `SPIM2` register block of the device crate, carried through unopened.
#[verifier::external_type_specification]
#[verifier::external_body]
pub struct ExSPIM2(pac::SPIM2);

/// The `SPIS2` register block of the device crate, carried through unopened.
#[verifier::external_type_specification]
#[verifier::external_body]
pub struct ExSPIS2(pac::SPIS2);

/// The `RTC2` register block of the device crate, carried through unopened.
#[verifier::external_type_specification]
#[verifier::external_body]
pub struct ExRTC2(pac::RTC2);

/// The `I2S` register block of the device crate, carried through unopened.
#[verifier::external_type_specification]
#[verifier::external_body]
pub struct ExI2S(pac::I2S);

/// The `USBD` register block of the device crate, carried through unopened.
#[verifier::external_type_specification]
#[verifier::external_body]
pub struct ExUSBD(pac::USBD);

/// The `UARTE1` register block of the device crate, carried through unopened.
#[verifier::external_type_specification]
#[verifier::external_body]
pub struct ExUARTE1(pac::UARTE1);

/// The `QSPI` register block of the device crate, carried through unopened.
#[verifier::external_type_specification]
#[verifier::external_body]
pub struct ExQSPI(pac::QSPI);

/// The `PWM3` register block of the device crate, carried through unopened.
#[verifier::external_type_specification]
#[verifier::external_body]
pub struct ExPWM3(pac::PWM3);

/// The `SPIM3` register block of the device crate, carried through unopened.
#[verifier::external_type_specification]
#[verifier::external_body]
pub struct ExSPIM3(pac::SPIM3);

/// The `P0` register block of the device crate, carried through unopened.
#[verifier::external_type_specification]
#[verifier::external_body]
pub struct ExP0(pac::P0);

/// The `P1` register block of the device crate, carried through unopened.
#[verifier::external_type_specification]
#[verifier::external_body]
pub struct ExP1(pac::P1);

/// The `CC_HOST_RGF` register block of the device crate, carried through unopened.
#[allow(non_camel_case_types)]
#[verifier::external_type_specification]
#[verifier::external_body]
pub struct ExCC_HOST_RGF(pac::CC_HOST_RGF);

/// The `CRYPTOCELL` register block of the device crate, carried through unopened.
#[verifier::external_type_specification]
#[verifier::external_body]
pub struct ExCRYPTOCELL(pac::CRYPTOCELL);

/// The device crate's record of all peripherals, whose fields are read here.
#[verifier::external_type_specification]
pub struct ExPeripherals(DevicePeripherals);

/// Relies on `Peripherals::take` of the device crate: it hands out the
/// peripherals on its first call and `None` after that, which this cannot
/// state of one call alone.
pub assume_specification[ DevicePeripherals::take ]() -> Option<DevicePeripherals>;

/// The peripherals reserved for the radio protocol stack.
#[allow(non_snake_case)]
pub struct StackPeripherals {
    pub AAR: pac::AAR,
    pub ACL: pac::ACL,
    pub CCM: pac::CCM,
    pub CLOCK: pac::CLOCK,
    pub ECB: pac::ECB,
    pub EGU1: pac::EGU1,
    pub EGU2: pac::EGU2,
    pub EGU5: pac::EGU5,
    pub MWU: pac::MWU,
    pub NVMC: pac::NVMC,
    pub POWER: pac::POWER,
    pub RADIO: pac::RADIO,
    pub RNG: pac::RNG,
    pub RTC0: pac::RTC0,
    pub SWI1: pac::SWI1,
    pub SWI2: pac::SWI2,
    pub SWI5: pac::SWI5,
    pub TEMP: pac::TEMP,
    pub TIMER0: pac::TIMER0,
}

/// The peripherals left to the application.
#[allow(non_snake_case)]
pub struct Peripherals {
    pub CC_HOST_RGF: pac::CC_HOST_RGF,
    pub COMP: pac::COMP,
    pub CRYPTOCELL: pac::CRYPTOCELL,
    pub EGU0: pac::EGU0,
    pub EGU3: pac::EGU3,
    pub EGU4: pac::EGU4,
    pub FICR: pac::FICR,
    pub GPIOTE: pac::GPIOTE,
    pub I2S: pac::I2S,
    pub LPCOMP: pac::LPCOMP,
    pub NFCT: pac::NFCT,
    pub P0: pac::P0,
    pub P1: pac::P1,
    pub PDM: pac::PDM,
    pub PPI: pac::PPI,
    pub PWM0: pac::PWM0,
    pub PWM1: pac::PWM1,
    pub PWM2: pac::PWM2,
    pub PWM3: pac::PWM3,
    pub QDEC: pac::QDEC,
    pub QSPI: pac::QSPI,
    pub RTC1: pac::RTC1,
    pub RTC2: pac::RTC2,
    pub SAADC: pac::SAADC,
    pub SPI0: pac::SPI0,
    pub SPI1: pac::SPI1,
    pub SPI2: pac::SPI2,
    pub SPIM0: pac::SPIM0,
    pub SPIM1: pac::SPIM1,
    pub SPIM2: pac::SPIM2,
    pub SPIM3: pac::SPIM3,
    pub SPIS0: pac::SPIS0,
    pub SPIS1: pac::SPIS1,
    pub SPIS2: pac::SPIS2,
    pub SWI0: pac::SWI0,
    pub SWI3: pac::SWI3,
    pub SWI4: pac::SWI4,
    pub TIMER1: pac::TIMER1,
    pub TIMER2: pac::TIMER2,
    pub TIMER3: pac::TIMER3,
    pub TIMER4: pac::TIMER4,
    pub TWI0: pac::TWI0,
    pub TWI1: pac::TWI1,
    pub TWIM0: pac::TWIM0,
    pub TWIM1: pac::TWIM1,
    pub TWIS0: pac::TWIS0,
    pub TWIS1: pac::TWIS1,
    pub UART0: pac::UART0,
    pub UARTE0: pac::UARTE0,
    pub UARTE1: pac::UARTE1,
    pub UICR: pac::UICR,
    pub USBD: pac::USBD,
    pub WDT: pac::WDT,
}

/// The peripherals that `StackPeripherals` holds, one for each field.
pub open spec fn stack_group() -> Set<PeripheralId> {
    set![
        PeripheralId::AAR,
        PeripheralId::ACL,
        PeripheralId::CCM,
        PeripheralId::CLOCK,
        PeripheralId::ECB,
        PeripheralId::EGU1,
        PeripheralId::EGU2,
        PeripheralId::EGU5,
        PeripheralId::MWU,
        PeripheralId::NVMC,
        PeripheralId::POWER,
        PeripheralId::RADIO,
        PeripheralId::RNG,
        PeripheralId::RTC0,
        PeripheralId::SWI1,
        PeripheralId::SWI2,
        PeripheralId::SWI5,
        PeripheralId::TEMP,
        PeripheralId::TIMER0,
    ]
}

/// The peripherals that `Peripherals` holds, one for each field.
pub open spec fn application_group() -> Set<PeripheralId> {
    set![
        PeripheralId::CC_HOST_RGF,
        PeripheralId::COMP,
        PeripheralId::CRYPTOCELL,
        PeripheralId::EGU0,
        PeripheralId::EGU3,
        PeripheralId::EGU4,
        PeripheralId::FICR,
        PeripheralId::GPIOTE,
        PeripheralId::I2S,
        PeripheralId::LPCOMP,
        PeripheralId::NFCT,
        PeripheralId::P0,
        PeripheralId::P1,
        PeripheralId::PDM,
        PeripheralId::PPI,
        PeripheralId::PWM0,
        PeripheralId::PWM1,
        PeripheralId::PWM2,
        PeripheralId::PWM3,
        PeripheralId::QDEC,
        PeripheralId::QSPI,
        PeripheralId::RTC1,
        PeripheralId::RTC2,
        PeripheralId::SAADC,
        PeripheralId::SPI0,
        PeripheralId::SPI1,
        PeripheralId::SPI2,
        PeripheralId::SPIM0,
        PeripheralId::SPIM1,
        PeripheralId::SPIM2,
        PeripheralId::SPIM3,
        PeripheralId::SPIS0,
        PeripheralId::SPIS1,
        PeripheralId::SPIS2,
        PeripheralId::SWI0,
        PeripheralId::SWI3,
        PeripheralId::SWI4,
        PeripheralId::TIMER1,
        PeripheralId::TIMER2,
        PeripheralId::TIMER3,
        PeripheralId::TIMER4,
        PeripheralId::TWI0,
        PeripheralId::TWI1,
        PeripheralId::TWIM0,
        PeripheralId::TWIM1,
        PeripheralId::TWIS0,
        PeripheralId::TWIS1,
        PeripheralId::UART0,
        PeripheralId::UARTE0,
        PeripheralId::UARTE1,
        PeripheralId::UICR,
        PeripheralId::USBD,
        PeripheralId::WDT,
    ]
}

/// The two records follow the membership list: the radio protocol stack's
/// record holds exactly its peripherals, the application's all the others, so
/// together they hold the whole chip and share nothing.
pub proof fn lemma_groups_cover_chip()
    ensures
        stack_group() == Set::new(|p: PeripheralId| owner_of(p) == Owner::Stack),
        application_group() == Set::new(|p: PeripheralId| owner_of(p) == Owner::Application),
        stack_group() + application_group() == Set::<PeripheralId>::full(),
        stack_group().disjoint(application_group()),
{
    assert(stack_group() =~= Set::new(|p: PeripheralId| owner_of(p) == Owner::Stack));
    assert(application_group() =~= Set::new(|p: PeripheralId| owner_of(p) == Owner::Application));
    assert(stack_group() + application_group() =~= Set::<PeripheralId>::full());
}

/// `groups` holds each register block of `p` in the record of its owner,
/// under its own name.
pub open spec fn is_split_of(groups: (StackPeripherals, Peripherals), p: DevicePeripherals) -> bool {
    &&& groups.0.AAR == p.AAR
    &&& groups.0.ACL == p.ACL
    &&& groups.0.CCM == p.CCM
    &&& groups.0.CLOCK == p.CLOCK
    &&& groups.0.ECB == p.ECB
    &&& groups.0.EGU1 == p.EGU1
    &&& groups.0.EGU2 == p.EGU2
    &&& groups.0.EGU5 == p.EGU5
    &&& groups.0.MWU == p.MWU
    &&& groups.0.NVMC == p.NVMC
    &&& groups.0.POWER == p.POWER
    &&& groups.0.RADIO == p.RADIO
    &&& groups.0.RNG == p.RNG
    &&& groups.0.RTC0 == p.RTC0
    &&& groups.0.SWI1 == p.SWI1
    &&& groups.0.SWI2 == p.SWI2
    &&& groups.0.SWI5 == p.SWI5
    &&& groups.0.TEMP == p.TEMP
    &&& groups.0.TIMER0 == p.TIMER0
    &&& groups.1.CC_HOST_RGF == p.CC_HOST_RGF
    &&& groups.1.COMP == p.COMP
    &&& groups.1.CRYPTOCELL == p.CRYPTOCELL
    &&& groups.1.EGU0 == p.EGU0
    &&& groups.1.EGU3 == p.EGU3
    &&& groups.1.EGU4 == p.EGU4
    &&& groups.1.FICR == p.FICR
    &&& groups.1.GPIOTE == p.GPIOTE
    &&& groups.1.I2S == p.I2S
    &&& groups.1.LPCOMP == p.LPCOMP
    &&& groups.1.NFCT == p.NFCT
    &&& groups.1.P0 == p.P0
    &&& groups.1.P1 == p.P1
    &&& groups.1.PDM == p.PDM
    &&& groups.1.PPI == p.PPI
    &&& groups.1.PWM0 == p.PWM0
    &&& groups.1.PWM1 == p.PWM1
    &&& groups.1.PWM2 == p.PWM2
    &&& groups.1.PWM3 == p.PWM3
    &&& groups.1.QDEC == p.QDEC
    &&& groups.1.QSPI == p.QSPI
    &&& groups.1.RTC1 == p.RTC1
    &&& groups.1.RTC2 == p.RTC2
    &&& groups.1.SAADC == p.SAADC
    &&& groups.1.SPI0 == p.SPI0
    &&& groups.1.SPI1 == p.SPI1
    &&& groups.1.SPI2 == p.SPI2
    &&& groups.1.SPIM0 == p.SPIM0
    &&& groups.1.SPIM1 == p.SPIM1
    &&& groups.1.SPIM2 == p.SPIM2
    &&& groups.1.SPIM3 == p.SPIM3
    &&& groups.1.SPIS0 == p.SPIS0
    &&& groups.1.SPIS1 == p.SPIS1
    &&& groups.1.SPIS2 == p.SPIS2
    &&& groups.1.SWI0 == p.SWI0
    &&& groups.1.SWI3 == p.SWI3
    &&& groups.1.SWI4 == p.SWI4
    &&& groups.1.TIMER1 == p.TIMER1
    &&& groups.1.TIMER2 == p.TIMER2
    &&& groups.1.TIMER3 == p.TIMER3
    &&& groups.1.TIMER4 == p.TIMER4
    &&& groups.1.TWI0 == p.TWI0
    &&& groups.1.TWI1 == p.TWI1
    &&& groups.1.TWIM0 == p.TWIM0
    &&& groups.1.TWIM1 == p.TWIM1
    &&& groups.1.TWIS0 == p.TWIS0
    &&& groups.1.TWIS1 == p.TWIS1
    &&& groups.1.UART0 == p.UART0
    &&& groups.1.UARTE0 == p.UARTE0
    &&& groups.1.UARTE1 == p.UARTE1
    &&& groups.1.UICR == p.UICR
    &&& groups.1.USBD == p.USBD
    &&& groups.1.WDT == p.WDT
}

/// Splits the chip's peripherals: each register block moves into the record of
/// its owner, under its own name. Naming every field of the device's record
/// here means that a peripheral added to it or taken out of it stops the build
/// until the membership list is brought up to date.
pub fn split(p: DevicePeripherals) -> (r: (StackPeripherals, Peripherals))
    ensures
        is_split_of(r, p),
{
    let DevicePeripherals {
        FICR,
        UICR,
        CLOCK,
        POWER,
        RADIO,
        UART0,
        UARTE0,
        SPI0,
        SPIM0,
        SPIS0,
        TWI0,
        TWIM0,
        TWIS0,
        SPI1,
        SPIM1,
        SPIS1,
        TWI1,
        TWIM1,
        TWIS1,
        NFCT,
        GPIOTE,
        SAADC,
        TIMER0,
        TIMER1,
        TIMER2,
        RTC0,
        TEMP,
        RNG,
        ECB,
        AAR,
        CCM,
        WDT,
        RTC1,
        QDEC,
        COMP,
        LPCOMP,
        EGU0,
        SWI0,
        EGU1,
        SWI1,
        EGU2,
        SWI2,
        EGU3,
        SWI3,
        EGU4,
        SWI4,
        EGU5,
        SWI5,
        TIMER3,
        TIMER4,
        PWM0,
        PDM,
        ACL,
        NVMC,
        PPI,
        MWU,
        PWM1,
        PWM2,
        SPI2,
        SPIM2,
        SPIS2,
        RTC2,
        I2S,
        USBD,
        UARTE1,
        QSPI,
        PWM3,
        SPIM3,
        P0,
        P1,
        CC_HOST_RGF,
        CRYPTOCELL,
    } = p;
    (
        StackPeripherals {
            AAR,
            ACL,
            CCM,
            CLOCK,
            ECB,
            EGU1,
            EGU2,
            EGU5,
            MWU,
            NVMC,
            POWER,
            RADIO,
            RNG,
            RTC0,
            SWI1,
            SWI2,
            SWI5,
            TEMP,
            TIMER0,
        },
        Peripherals {
            CC_HOST_RGF,
            COMP,
            CRYPTOCELL,
            EGU0,
            EGU3,
            EGU4,
            FICR,
            GPIOTE,
            I2S,
            LPCOMP,
            NFCT,
            P0,
            P1,
            PDM,
            PPI,
            PWM0,
            PWM1,
            PWM2,
            PWM3,
            QDEC,
            QSPI,
            RTC1,
            RTC2,
            SAADC,
            SPI0,
            SPI1,
            SPI2,
            SPIM0,
            SPIM1,
            SPIM2,
            SPIM3,
            SPIS0,
            SPIS1,
            SPIS2,
            SWI0,
            SWI3,
            SWI4,
            TIMER1,
            TIMER2,
            TIMER3,
            TIMER4,
            TWI0,
            TWI1,
            TWIM0,
            TWIM1,
            TWIS0,
            TWIS1,
            UART0,
            UARTE0,
            UARTE1,
            UICR,
            USBD,
            WDT,
        },
    )
}

/// Takes the chip's peripherals from the device crate and splits them between
/// the radio protocol stack and the application. The device crate hands them
/// out once: `None` means they were taken before.
pub fn take_peripherals() -> (r: Option<(StackPeripherals, Peripherals)>)
    ensures
        match r {
            Some(groups) => exists|p: DevicePeripherals| #[trigger] is_split_of(groups, p),
            None => true,
        },
{
    match DevicePeripherals::take() {
        Some(p) => {
            let ghost device = p;
            let groups = split(p);
            let r = Some(groups);
            assert(is_split_of(r->0, device));
            r
        },
        None => None,
    }
}

} // verus!
