//! The board's names for the chip's GPIO pins.
use vstd::prelude::*;

verus! {

/// One of the chip's two GPIO ports.
#[derive(Clone, Copy, Debug, PartialEq, Eq, Structural)]
pub enum Port {
    P0,
    P1,
}

/// The role a pin has been given.
#[derive(Clone, Copy, Debug, PartialEq, Eq, Structural)]
pub enum PinMode {
    /// Not configured yet: the state every pin starts in.
    Disconnected,
    Input,
    Output,
    Analog,
}

/// A pin of the chip, and the role it has.
#[derive(Clone, Copy, Debug, PartialEq, Eq, Structural)]
pub struct Pin {
    pub port: Port,
    pub index: u8,
    pub mode: PinMode,
}

/// How many pins a port has.
pub open spec fn port_width(port: Port) -> int {
    match port {
        Port::P0 => 32,
        Port::P1 => 16,
    }
}

/// How many pins the two ports have together.
pub const PIN_COUNT: usize = 48;

/// Where pin `index` of `port` stands when the pins of port 0 are followed
/// by those of port 1.
pub open spec fn position(port: Port, index: int) -> int {
    match port {
        Port::P0 => index,
        Port::P1 => 32 + index,
    }
}

/// The pin `index` of `port`, not configured yet.
pub open spec fn unconfigured(port: Port, index: int) -> Pin {
    Pin { port, index: index as u8, mode: PinMode::Disconnected }
}

/// The names printed on the board, one for each pin of the two ports.
#[allow(non_camel_case_types)]
#[derive(Clone, Copy, Debug, PartialEq, Eq, Structural)]
pub enum PinLabel {
    /// UART RXD.
    Rxd,
    /// UART TXD.
    Txd,
    P6,
    P7,
    P8,
    P11,
    P12,
    P13,
    P14,
    P15,
    P16,
    P17,
    P21,
    P25,
    P26,
    P27,
    /// Analog input 0.
    Ain0,
    /// Analog input 1.
    Ain1,
    /// Analog input 2.
    Ain2,
    /// Analog input 3.
    Ain3,
    /// Analog input 4.
    Ain4,
    /// Analog input 5.
    Ain5,
    /// Analog input 6.
    Ain6,
    /// Analog input 7.
    Ain7,
    /// NFC antenna, first pad.
    Nfc1,
    /// NFC antenna, second pad.
    Nfc2,
    /// The red LED.
    RedLed,
    /// The green LED.
    GreenLed,
    /// The blue LED.
    BlueLed,
    /// The user button.
    Button,
    /// ~RESET line to the QSPI flash.
    QspiReset,
    /// ~WP, write protect of the QSPI flash.
    QspiWp,
    /// SPI SCLK of the QSPI flash.
    QspiSclk,
    /// SPI MISO of the QSPI flash.
    QspiMiso,
    /// SPI MOSI of the QSPI flash.
    QspiMosi,
    /// ~CS of the QSPI flash.
    QspiCs,
    /// 32.768 kHz crystal, first pad.
    Xl1,
    /// 32.768 kHz crystal, second pad.
    Xl2,
    /// The reset line, also a GPIO.
    Reset,
    P1_07,
    P1_08,
    P1_09,
    P1_10,
    P1_11,
    P1_12,
    P1_13,
    P1_14,
    P1_15,
}

/// The board's wiring: the port and pin that each name stands for.
pub open spec fn assignment(label: PinLabel) -> (Port, int) {
    match label {
        PinLabel::Rxd => (Port::P0, 19),
        PinLabel::Txd => (Port::P0, 20),
        PinLabel::P6 => (Port::P0, 6),
        PinLabel::P7 => (Port::P0, 7),
        PinLabel::P8 => (Port::P0, 8),
        PinLabel::P11 => (Port::P0, 11),
        PinLabel::P12 => (Port::P0, 12),
        PinLabel::P13 => (Port::P0, 13),
        PinLabel::P14 => (Port::P0, 14),
        PinLabel::P15 => (Port::P0, 15),
        PinLabel::P16 => (Port::P0, 16),
        PinLabel::P17 => (Port::P0, 17),
        PinLabel::P21 => (Port::P0, 21),
        PinLabel::P25 => (Port::P0, 25),
        PinLabel::P26 => (Port::P0, 26),
        PinLabel::P27 => (Port::P0, 27),
        PinLabel::Ain0 => (Port::P0, 2),
        PinLabel::Ain1 => (Port::P0, 3),
        PinLabel::Ain2 => (Port::P0, 4),
        PinLabel::Ain3 => (Port::P0, 5),
        PinLabel::Ain4 => (Port::P0, 28),
        PinLabel::Ain5 => (Port::P0, 29),
        PinLabel::Ain6 => (Port::P0, 30),
        PinLabel::Ain7 => (Port::P0, 31),
        PinLabel::Nfc1 => (Port::P0, 9),
        PinLabel::Nfc2 => (Port::P0, 10),
        PinLabel::RedLed => (Port::P0, 23),
        PinLabel::GreenLed => (Port::P0, 22),
        PinLabel::BlueLed => (Port::P0, 24),
        PinLabel::Button => (Port::P1, 0),
        PinLabel::QspiReset => (Port::P1, 1),
        PinLabel::QspiWp => (Port::P1, 2),
        PinLabel::QspiSclk => (Port::P1, 3),
        PinLabel::QspiMiso => (Port::P1, 4),
        PinLabel::QspiMosi => (Port::P1, 5),
        PinLabel::QspiCs => (Port::P1, 6),
        PinLabel::Xl1 => (Port::P0, 0),
        PinLabel::Xl2 => (Port::P0, 1),
        PinLabel::Reset => (Port::P0, 18),
        PinLabel::P1_07 => (Port::P1, 7),
        PinLabel::P1_08 => (Port::P1, 8),
        PinLabel::P1_09 => (Port::P1, 9),
        PinLabel::P1_10 => (Port::P1, 10),
        PinLabel::P1_11 => (Port::P1, 11),
        PinLabel::P1_12 => (Port::P1, 12),
        PinLabel::P1_13 => (Port::P1, 13),
        PinLabel::P1_14 => (Port::P1, 14),
        PinLabel::P1_15 => (Port::P1, 15),
    }
}

/// The port and pin that `label` stands for.
pub fn assigned_pin(label: PinLabel) -> (r: (Port, u8))
    ensures
        (r.0, r.1 as int) == assignment(label),
{
    match label {
        PinLabel::Rxd => (Port::P0, 19),
        PinLabel::Txd => (Port::P0, 20),
        PinLabel::P6 => (Port::P0, 6),
        PinLabel::P7 => (Port::P0, 7),
        PinLabel::P8 => (Port::P0, 8),
        PinLabel::P11 => (Port::P0, 11),
        PinLabel::P12 => (Port::P0, 12),
        PinLabel::P13 => (Port::P0, 13),
        PinLabel::P14 => (Port::P0, 14),
        PinLabel::P15 => (Port::P0, 15),
        PinLabel::P16 => (Port::P0, 16),
        PinLabel::P17 => (Port::P0, 17),
        PinLabel::P21 => (Port::P0, 21),
        PinLabel::P25 => (Port::P0, 25),
        PinLabel::P26 => (Port::P0, 26),
        PinLabel::P27 => (Port::P0, 27),
        PinLabel::Ain0 => (Port::P0, 2),
        PinLabel::Ain1 => (Port::P0, 3),
        PinLabel::Ain2 => (Port::P0, 4),
        PinLabel::Ain3 => (Port::P0, 5),
        PinLabel::Ain4 => (Port::P0, 28),
        PinLabel::Ain5 => (Port::P0, 29),
        PinLabel::Ain6 => (Port::P0, 30),
        PinLabel::Ain7 => (Port::P0, 31),
        PinLabel::Nfc1 => (Port::P0, 9),
        PinLabel::Nfc2 => (Port::P0, 10),
        PinLabel::RedLed => (Port::P0, 23),
        PinLabel::GreenLed => (Port::P0, 22),
        PinLabel::BlueLed => (Port::P0, 24),
        PinLabel::Button => (Port::P1, 0),
        PinLabel::QspiReset => (Port::P1, 1),
        PinLabel::QspiWp => (Port::P1, 2),
        PinLabel::QspiSclk => (Port::P1, 3),
        PinLabel::QspiMiso => (Port::P1, 4),
        PinLabel::QspiMosi => (Port::P1, 5),
        PinLabel::QspiCs => (Port::P1, 6),
        PinLabel::Xl1 => (Port::P0, 0),
        PinLabel::Xl2 => (Port::P0, 1),
        PinLabel::Reset => (Port::P0, 18),
        PinLabel::P1_07 => (Port::P1, 7),
        PinLabel::P1_08 => (Port::P1, 8),
        PinLabel::P1_09 => (Port::P1, 9),
        PinLabel::P1_10 => (Port::P1, 10),
        PinLabel::P1_11 => (Port::P1, 11),
        PinLabel::P1_12 => (Port::P1, 12),
        PinLabel::P1_13 => (Port::P1, 13),
        PinLabel::P1_14 => (Port::P1, 14),
        PinLabel::P1_15 => (Port::P1, 15),
    }
}

/// The name that the board's wiring gives to pin `index` of `port`, if any.
pub open spec fn label_on(port: Port, index: int) -> Option<PinLabel> {
    if exists|label: PinLabel| #[trigger] assignment(label) == (port, index) {
        Some(choose|label: PinLabel| #[trigger] assignment(label) == (port, index))
    } else {
        None
    }
}

/// Each name stands for a pin that exists, and no two names stand for the
/// same pin.
pub proof fn lemma_assignment_injective()
    ensures
        forall|label: PinLabel|
            0 <= #[trigger] assignment(label).1 < port_width(assignment(label).0),
        forall|a: PinLabel, b: PinLabel| #[trigger] assignment(a) == #[trigger] assignment(b) ==> a == b,
{
}

/// Every pin of the two ports has a name.
pub proof fn lemma_every_pin_named(port: Port, index: int)
    requires
        0 <= index < port_width(port),
    ensures
        label_on(port, index) matches Some(label) && assignment(label) == (port, index),
{
    if port == Port::P0 && index == 19 {
        assert(assignment(PinLabel::Rxd) == (port, index));
    } else if port == Port::P0 && index == 20 {
        assert(assignment(PinLabel::Txd) == (port, index));
    } else if port == Port::P0 && index == 6 {
        assert(assignment(PinLabel::P6) == (port, index));
    } else if port == Port::P0 && index == 7 {
        assert(assignment(PinLabel::P7) == (port, index));
    } else if port == Port::P0 && index == 8 {
        assert(assignment(PinLabel::P8) == (port, index));
    } else if port == Port::P0 && index == 11 {
        assert(assignment(PinLabel::P11) == (port, index));
    } else if port == Port::P0 && index == 12 {
        assert(assignment(PinLabel::P12) == (port, index));
    } else if port == Port::P0 && index == 13 {
        assert(assignment(PinLabel::P13) == (port, index));
    } else if port == Port::P0 && index == 14 {
        assert(assignment(PinLabel::P14) == (port, index));
    } else if port == Port::P0 && index == 15 {
        assert(assignment(PinLabel::P15) == (port, index));
    } else if port == Port::P0 && index == 16 {
        assert(assignment(PinLabel::P16) == (port, index));
    } else if port == Port::P0 && index == 17 {
        assert(assignment(PinLabel::P17) == (port, index));
    } else if port == Port::P0 && index == 21 {
        assert(assignment(PinLabel::P21) == (port, index));
    } else if port == Port::P0 && index == 25 {
        assert(assignment(PinLabel::P25) == (port, index));
    } else if port == Port::P0 && index == 26 {
        assert(assignment(PinLabel::P26) == (port, index));
    } else if port == Port::P0 && index == 27 {
        assert(assignment(PinLabel::P27) == (port, index));
    } else if port == Port::P0 && index == 2 {
        assert(assignment(PinLabel::Ain0) == (port, index));
    } else if port == Port::P0 && index == 3 {
        assert(assignment(PinLabel::Ain1) == (port, index));
    } else if port == Port::P0 && index == 4 {
        assert(assignment(PinLabel::Ain2) == (port, index));
    } else if port == Port::P0 && index == 5 {
        assert(assignment(PinLabel::Ain3) == (port, index));
    } else if port == Port::P0 && index == 28 {
        assert(assignment(PinLabel::Ain4) == (port, index));
    } else if port == Port::P0 && index == 29 {
        assert(assignment(PinLabel::Ain5) == (port, index));
    } else if port == Port::P0 && index == 30 {
        assert(assignment(PinLabel::Ain6) == (port, index));
    } else if port == Port::P0 && index == 31 {
        assert(assignment(PinLabel::Ain7) == (port, index));
    } else if port == Port::P0 && index == 9 {
        assert(assignment(PinLabel::Nfc1) == (port, index));
    } else if port == Port::P0 && index == 10 {
        assert(assignment(PinLabel::Nfc2) == (port, index));
    } else if port == Port::P0 && index == 23 {
        assert(assignment(PinLabel::RedLed) == (port, index));
    } else if port == Port::P0 && index == 22 {
        assert(assignment(PinLabel::GreenLed) == (port, index));
    } else if port == Port::P0 && index == 24 {
        assert(assignment(PinLabel::BlueLed) == (port, index));
    } else if port == Port::P1 && index == 0 {
        assert(assignment(PinLabel::Button) == (port, index));
    } else if port == Port::P1 && index == 1 {
        assert(assignment(PinLabel::QspiReset) == (port, index));
    } else if port == Port::P1 && index == 2 {
        assert(assignment(PinLabel::QspiWp) == (port, index));
    } else if port == Port::P1 && index == 3 {
        assert(assignment(PinLabel::QspiSclk) == (port, index));
    } else if port == Port::P1 && index == 4 {
        assert(assignment(PinLabel::QspiMiso) == (port, index));
    } else if port == Port::P1 && index == 5 {
        assert(assignment(PinLabel::QspiMosi) == (port, index));
    } else if port == Port::P1 && index == 6 {
        assert(assignment(PinLabel::QspiCs) == (port, index));
    } else if port == Port::P0 && index == 0 {
        assert(assignment(PinLabel::Xl1) == (port, index));
    } else if port == Port::P0 && index == 1 {
        assert(assignment(PinLabel::Xl2) == (port, index));
    } else if port == Port::P0 && index == 18 {
        assert(assignment(PinLabel::Reset) == (port, index));
    } else if port == Port::P1 && index == 7 {
        assert(assignment(PinLabel::P1_07) == (port, index));
    } else if port == Port::P1 && index == 8 {
        assert(assignment(PinLabel::P1_08) == (port, index));
    } else if port == Port::P1 && index == 9 {
        assert(assignment(PinLabel::P1_09) == (port, index));
    } else if port == Port::P1 && index == 10 {
        assert(assignment(PinLabel::P1_10) == (port, index));
    } else if port == Port::P1 && index == 11 {
        assert(assignment(PinLabel::P1_11) == (port, index));
    } else if port == Port::P1 && index == 12 {
        assert(assignment(PinLabel::P1_12) == (port, index));
    } else if port == Port::P1 && index == 13 {
        assert(assignment(PinLabel::P1_13) == (port, index));
    } else if port == Port::P1 && index == 14 {
        assert(assignment(PinLabel::P1_14) == (port, index));
    } else if port == Port::P1 && index == 15 {
        assert(assignment(PinLabel::P1_15) == (port, index));
    }
}

/// The pins of one port, each of which can be handed out once.
pub struct PortPins {
    port: Port,
    slots: Vec<Option<Pin>>,
}

impl PortPins {
    /// The port these pins belong to.
    pub closed spec fn port(&self) -> Port {
        self.port
    }

    /// For each pin of the port, the pin if it is still here.
    pub closed spec fn view(&self) -> Seq<Option<Pin>> {
        self.slots@
    }

    /// Every pin of the port is here, not configured yet.
    pub open spec fn is_fresh(&self) -> bool {
        &&& self@.len() == port_width(self.port())
        &&& forall|i: int| 0 <= i < self@.len() ==> #[trigger] self@[i] == Some(unconfigured(self.port(), i))
    }

    /// All the pins of `port`, none of them configured yet.
    pub fn new(port: Port) -> (r: PortPins)
        ensures
            r.port() == port,
            r.is_fresh(),
    {
        let width: u8 = match port {
            Port::P0 => 32,
            Port::P1 => 16,
        };
        let mut slots: Vec<Option<Pin>> = Vec::new();
        let mut i: u8 = 0;
        while i < width
            invariant
                i <= width,
                width == port_width(port),
                slots@.len() == i,
                forall|j: int| 0 <= j < i ==> #[trigger] slots@[j] == Some(unconfigured(port, j)),
            decreases width - i,
        {
            slots.push(Some(Pin { port, index: i, mode: PinMode::Disconnected }));
            i = i + 1;
        }
        PortPins { port, slots }
    }

    /// The number of pins the port has.
    pub fn width(&self) -> (r: u8)
        requires
            self@.len() == port_width(self.port()),
        ensures
            r == self@.len(),
    {
        match self.port {
            Port::P0 => 32,
            Port::P1 => 16,
        }
    }

    /// Hands out pin `index`, which is then no longer here; `None` where the
    /// port has no such pin or it was handed out before.
    pub fn take(&mut self, index: u8) -> (r: Option<Pin>)
        ensures
            final(self).port() == old(self).port(),
            index < old(self)@.len() ==> r == old(self)@[index as int] && final(self)@
                == old(self)@.update(index as int, None),
            index >= old(self)@.len() ==> r.is_none() && final(self)@ == old(self)@,
    {
        if (index as usize) < self.slots.len() {
            let r = self.slots[index as usize];
            self.slots.set(index as usize, None);
            r
        } else {
            None
        }
    }
}

/// The pin that `label` stands for, not configured yet.
pub open spec fn labelled_pin(label: PinLabel) -> Pin {
    unconfigured(assignment(label).0, assignment(label).1)
}

/// The pins of both ports, not configured yet, those of port 0 first.
pub open spec fn all_pins() -> Seq<Pin> {
    Seq::new(
        PIN_COUNT as nat,
        |i: int|
            if i < 32 {
                unconfigured(Port::P0, i)
            } else {
                unconfigured(Port::P1, i - 32)
            },
    )
}

/// The pins of both ports under the names printed on the board.
pub struct NamedPins {
    pins: Vec<Pin>,
}

impl NamedPins {
    /// The pins held, those of port 0 first.
    pub closed spec fn view(&self) -> Seq<Pin> {
        self.pins@
    }

    /// The record holds every pin of both ports.
    pub open spec fn wf(&self) -> bool {
        self@.len() == PIN_COUNT
    }

    /// The pin held under `label`: the one the board's wiring gives it.
    pub open spec fn pin(&self, label: PinLabel) -> Pin {
        self@[position(assignment(label).0, assignment(label).1)]
    }

    /// Takes every pin of the two ports, each once, into a record where each
    /// is found under the name that the board's wiring gives it.
    pub fn new(pins0: PortPins, pins1: PortPins) -> (r: NamedPins)
        requires
            pins0.port() == Port::P0,
            pins0.is_fresh(),
            pins1.port() == Port::P1,
            pins1.is_fresh(),
        ensures
            r.wf(),
            r@ == all_pins(),
            forall|label: PinLabel| #[trigger] r.pin(label) == labelled_pin(label),
    {
        let mut out: Vec<Pin> = Vec::new();
        let mut pins0 = pins0;
        let mut pins1 = pins1;
        take_all(&mut pins0, &mut out);
        take_all(&mut pins1, &mut out);
        let r = NamedPins { pins: out };
        assert(r@ =~= all_pins());
        proof {
            lemma_assignment_injective();
        }
        r
    }

    /// The pin held under `label`.
    pub fn get(&self, label: PinLabel) -> (r: Pin)
        requires
            self.wf(),
        ensures
            r == self.pin(label),
    {
        let (port, index) = assigned_pin(label);
        proof {
            lemma_assignment_injective();
        }
        let at: usize = match port {
            Port::P0 => index as usize,
            Port::P1 => 32 + index as usize,
        };
        self.pins[at]
    }
}

/// Moves every pin of a fresh port, in order, to the end of `out`.
fn take_all(pins: &mut PortPins, out: &mut Vec<Pin>)
    requires
        old(pins).is_fresh(),
    ensures
        final(out)@ == old(out)@ + Seq::new(
            port_width(old(pins).port()) as nat,
            |i: int| unconfigured(old(pins).port(), i),
        ),
{
    let ghost start = old(out)@;
    let ghost port = pins.port();
    let width = pins.width();
    let mut k: u8 = 0;
    while k < width
        invariant
            k <= width,
            width == port_width(port),
            pins.port() == port,
            pins@.len() == width,
            forall|j: int| k <= j < width ==> #[trigger] pins@[j] == Some(unconfigured(port, j)),
            out@ == start + Seq::new(k as nat, |i: int| unconfigured(port, i)),
        decreases width - k,
    {
        let pin = match pins.take(k) {
            Some(pin) => pin,
            None => {
                proof {
                    assert(false);
                }
                Pin { port: Port::P0, index: k, mode: PinMode::Disconnected }
            },
        };
        out.push(pin);
        assert(out@ =~= start + Seq::new((k + 1) as nat, |i: int| unconfigured(port, i)));
        k = k + 1;
    }
}

/// In the named pin record every name holds a pin of the chip, not configured
/// yet, and every pin of both ports is held under exactly one name.
pub proof fn lemma_each_pin_named_once(pins: NamedPins)
    requires
        pins@ == all_pins(),
    ensures
        forall|label: PinLabel|
            {
                let pin = #[trigger] pins.pin(label);
                &&& pin.mode == PinMode::Disconnected
                &&& (pin.index as int) < port_width(pin.port)
            },
        forall|a: PinLabel, b: PinLabel| #[trigger] pins.pin(a) == #[trigger] pins.pin(b) ==> a == b,
        forall|port: Port, index: int|
            0 <= index < port_width(port) ==> (#[trigger] label_on(port, index) matches Some(label)
                && pins.pin(label) == unconfigured(port, index) && forall|other: PinLabel|
                #[trigger] pins.pin(other) == unconfigured(port, index) ==> other == label),
{
    lemma_assignment_injective();
    assert forall|label: PinLabel| #[trigger] pins.pin(label) == labelled_pin(label) by {}
    assert forall|port: Port, index: int| 0 <= index < port_width(port) implies (#[trigger] label_on(
        port,
        index,
    ) matches Some(label) && pins.pin(label) == unconfigured(port, index) && forall|other: PinLabel|
        #[trigger] pins.pin(other) == unconfigured(port, index) ==> other == label) by {
        lemma_every_pin_named(port, index);
    }
}

/// Mapping the pins is deterministic: two fresh pairs of ports give the same
/// record.
pub proof fn lemma_mapping_deterministic(a: NamedPins, b: NamedPins)
    requires
        a@ == all_pins(),
        b@ == all_pins(),
    ensures
        a@ == b@,
        forall|label: PinLabel| #[trigger] a.pin(label) == b.pin(label),
{
}

} // verus!
