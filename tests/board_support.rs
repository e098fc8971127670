use nrf52840_mdk::acquire::Acquisition;
use nrf52840_mdk::counter::{SequenceCounter, COUNTER_MAX};
use nrf52840_mdk::inventory::{
    id_from_index, inventory, owner, partition, Owner, PeripheralId, INVENTORY_LEN,
};
use nrf52840_mdk::pins::{
    assigned_pin, NamedPins, Pin, PinLabel, PinMode, Port, PortPins, PIN_COUNT,
};

const ALL_LABELS: [PinLabel; 48] = [
    PinLabel::Rxd, PinLabel::Txd, PinLabel::P6, PinLabel::P7, PinLabel::P8, PinLabel::P11,
    PinLabel::P12, PinLabel::P13, PinLabel::P14, PinLabel::P15, PinLabel::P16, PinLabel::P17,
    PinLabel::P21, PinLabel::P25, PinLabel::P26, PinLabel::P27, PinLabel::Ain0, PinLabel::Ain1,
    PinLabel::Ain2, PinLabel::Ain3, PinLabel::Ain4, PinLabel::Ain5, PinLabel::Ain6,
    PinLabel::Ain7, PinLabel::Nfc1, PinLabel::Nfc2, PinLabel::RedLed, PinLabel::GreenLed,
    PinLabel::BlueLed, PinLabel::Button, PinLabel::QspiReset, PinLabel::QspiWp,
    PinLabel::QspiSclk, PinLabel::QspiMiso, PinLabel::QspiMosi, PinLabel::QspiCs,
    PinLabel::Xl1, PinLabel::Xl2, PinLabel::Reset, PinLabel::P1_07, PinLabel::P1_08,
    PinLabel::P1_09, PinLabel::P1_10, PinLabel::P1_11, PinLabel::P1_12, PinLabel::P1_13,
    PinLabel::P1_14, PinLabel::P1_15,
];

fn fresh_named_pins() -> NamedPins {
    NamedPins::new(PortPins::new(Port::P0), PortPins::new(Port::P1))
}

#[test]
fn partition_of_small_inventory() {
    let inv = vec![
        PeripheralId::RADIO,
        PeripheralId::TIMER0,
        PeripheralId::P0,
        PeripheralId::P1,
        PeripheralId::UICR,
    ];
    let groups = partition(&inv);
    assert_eq!(groups.stack, vec![PeripheralId::RADIO, PeripheralId::TIMER0]);
    assert_eq!(
        groups.application,
        vec![PeripheralId::P0, PeripheralId::P1, PeripheralId::UICR]
    );
}

#[test]
fn partition_keeps_order_and_duplicates() {
    let inv = vec![
        PeripheralId::UICR,
        PeripheralId::RADIO,
        PeripheralId::UICR,
        PeripheralId::AAR,
    ];
    let groups = partition(&inv);
    assert_eq!(groups.stack, vec![PeripheralId::RADIO, PeripheralId::AAR]);
    assert_eq!(groups.application, vec![PeripheralId::UICR, PeripheralId::UICR]);
}

#[test]
fn partition_of_empty_inventory() {
    let groups = partition(&Vec::new());
    assert!(groups.stack.is_empty());
    assert!(groups.application.is_empty());
}

#[test]
fn full_inventory_splits_into_disjoint_groups() {
    let all = inventory();
    assert_eq!(all.len(), INVENTORY_LEN);
    assert_eq!(INVENTORY_LEN, 72);
    let groups = partition(&all);
    assert_eq!(groups.stack.len(), 19);
    assert_eq!(groups.application.len(), 53);
    for p in &all {
        let in_stack = groups.stack.iter().filter(|q| *q == p).count();
        let in_app = groups.application.iter().filter(|q| *q == p).count();
        assert_eq!(in_stack + in_app, 1, "{:?}", p);
    }
    assert!(groups.application.contains(&PeripheralId::RTC1));
    assert!(groups.stack.contains(&PeripheralId::RTC0));
}

#[test]
fn inventory_lists_each_peripheral_once() {
    let all = inventory();
    for i in 0..all.len() {
        assert_eq!(all[i], id_from_index(i));
        for j in (i + 1)..all.len() {
            assert_ne!(all[i], all[j]);
        }
    }
}

#[test]
fn owners_follow_membership_list() {
    assert_eq!(owner(PeripheralId::RADIO), Owner::Stack);
    assert_eq!(owner(PeripheralId::TIMER0), Owner::Stack);
    assert_eq!(owner(PeripheralId::SWI5), Owner::Stack);
    assert_eq!(owner(PeripheralId::TIMER1), Owner::Application);
    assert_eq!(owner(PeripheralId::P0), Owner::Application);
    assert_eq!(owner(PeripheralId::CRYPTOCELL), Owner::Application);
}

#[test]
fn second_acquisition_gets_nothing() {
    let mut flag = Acquisition::new();
    assert!(!flag.taken());
    let first = flag.take();
    assert!(flag.taken());
    assert_eq!(first, Some(inventory()));
    assert_eq!(flag.take(), None);
    assert_eq!(flag.take(), None);
}

#[test]
fn acquire_and_partition_once() {
    let mut flag = Acquisition::new();
    let groups = flag.acquire_and_partition().expect("first acquisition");
    assert_eq!(groups.stack.len(), 19);
    assert_eq!(groups.application.len(), 53);
    assert!(flag.acquire_and_partition().is_none());
}

#[test]
fn red_led_is_port0_pin23_unconfigured() {
    let pins = fresh_named_pins();
    assert_eq!(
        pins.get(PinLabel::RedLed),
        Pin { port: Port::P0, index: 23, mode: PinMode::Disconnected }
    );
    assert_eq!(assigned_pin(PinLabel::RedLed), (Port::P0, 23));
}

#[test]
fn named_pins_follow_wiring() {
    let pins = fresh_named_pins();
    assert_eq!(pins.get(PinLabel::Rxd).index, 19);
    assert_eq!(pins.get(PinLabel::Txd).index, 20);
    assert_eq!(pins.get(PinLabel::Ain4).index, 28);
    assert_eq!(pins.get(PinLabel::Nfc2).index, 10);
    assert_eq!(
        pins.get(PinLabel::Button),
        Pin { port: Port::P1, index: 0, mode: PinMode::Disconnected }
    );
    assert_eq!(
        pins.get(PinLabel::QspiCs),
        Pin { port: Port::P1, index: 6, mode: PinMode::Disconnected }
    );
}

#[test]
fn no_pin_has_two_names() {
    let pins = fresh_named_pins();
    assert_eq!(PIN_COUNT, 48);
    let mut seen: Vec<Pin> = Vec::new();
    for label in ALL_LABELS {
        let pin = pins.get(label);
        assert_eq!(pin.mode, PinMode::Disconnected);
        let width = if pin.port == Port::P0 { 32 } else { 16 };
        assert!(pin.index < width);
        assert!(!seen.contains(&pin), "{:?}", pin);
        seen.push(pin);
    }
    for index in 0..32u8 {
        assert!(seen.contains(&Pin { port: Port::P0, index, mode: PinMode::Disconnected }));
    }
    for index in 0..16u8 {
        assert!(seen.contains(&Pin { port: Port::P1, index, mode: PinMode::Disconnected }));
    }
}

#[test]
fn previously_unnamed_pins_have_names() {
    let pins = fresh_named_pins();
    assert_eq!(
        pins.get(PinLabel::Xl1),
        Pin { port: Port::P0, index: 0, mode: PinMode::Disconnected }
    );
    assert_eq!(pins.get(PinLabel::Reset).index, 18);
    assert_eq!(
        pins.get(PinLabel::P1_15),
        Pin { port: Port::P1, index: 15, mode: PinMode::Disconnected }
    );
    assert_eq!(assigned_pin(PinLabel::P1_07), (Port::P1, 7));
}

#[test]
fn mapping_twice_gives_same_record() {
    let a = fresh_named_pins();
    let b = fresh_named_pins();
    for label in ALL_LABELS {
        assert_eq!(a.get(label), b.get(label));
    }
}

#[test]
fn port_pin_handed_out_once() {
    let mut port = PortPins::new(Port::P1);
    assert_eq!(
        port.take(15),
        Some(Pin { port: Port::P1, index: 15, mode: PinMode::Disconnected })
    );
    assert_eq!(port.take(15), None);
    assert_eq!(port.take(16), None);
    let mut port0 = PortPins::new(Port::P0);
    assert!(port0.take(31).is_some());
    assert_eq!(port0.take(32), None);
}

#[test]
fn counter_counts_from_zero() {
    let mut c = SequenceCounter::new();
    let got: Vec<u64> = (0..5).map(|_| c.timestamp()).collect();
    assert_eq!(got, vec![0, 1, 2, 3, 4]);
    assert_eq!(c.peek(), 5);
}

#[test]
fn counter_wraps_to_zero() {
    let mut c = SequenceCounter::starting_at(COUNTER_MAX - 1);
    assert_eq!(c.timestamp(), u64::MAX - 1);
    assert_eq!(c.timestamp(), u64::MAX);
    assert_eq!(c.timestamp(), 0);
    assert_eq!(c.timestamp(), 1);
}
