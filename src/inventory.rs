//! The chip's peripheral inventory, and its split between the radio protocol
//! stack and the application.
use vstd::multiset::Multiset;
use vstd::prelude::*;

verus! {

/// One of the chip's peripheral register blocks.
#[allow(non_camel_case_types)]
#[derive(Clone, Copy, Debug, PartialEq, Eq, Structural)]
pub enum PeripheralId {
    AAR,
    ACL,
    CCM,
    CLOCK,
    ECB,
    EGU1,
    EGU2,
    EGU5,
    MWU,
    NVMC,
    POWER,
    RADIO,
    RNG,
    RTC0,
    SWI1,
    SWI2,
    SWI5,
    TEMP,
    TIMER0,
    CC_HOST_RGF,
    COMP,
    CRYPTOCELL,
    EGU0,
    EGU3,
    EGU4,
    FICR,
    GPIOTE,
    I2S,
    LPCOMP,
    NFCT,
    P0,
    P1,
    PDM,
    PPI,
    PWM0,
    PWM1,
    PWM2,
    PWM3,
    QDEC,
    QSPI,
    RTC1,
    RTC2,
    SAADC,
    SPI0,
    SPI1,
    SPI2,
    SPIM0,
    SPIM1,
    SPIM2,
    SPIM3,
    SPIS0,
    SPIS1,
    SPIS2,
    SWI0,
    SWI3,
    SWI4,
    TIMER1,
    TIMER2,
    TIMER3,
    TIMER4,
    TWI0,
    TWI1,
    TWIM0,
    TWIM1,
    TWIS0,
    TWIS1,
    UART0,
    UARTE0,
    UARTE1,
    UICR,
    USBD,
    WDT,
}

/// How many peripherals the chip has.
pub const INVENTORY_LEN: usize = 72;

/// Which of the two groups a peripheral belongs to.
#[derive(Clone, Copy, Debug, PartialEq, Eq, Structural)]
pub enum Owner {
    /// Reserved for the radio protocol stack.
    Stack,
    /// Left to the application.
    Application,
}

/// The fixed membership list: the peripherals that the radio protocol stack
/// needs are its own, every other one is the application's.
pub open spec fn owner_of(p: PeripheralId) -> Owner {
    match p {
        PeripheralId::AAR
        | PeripheralId::ACL
        | PeripheralId::CCM
        | PeripheralId::CLOCK
        | PeripheralId::ECB
        | PeripheralId::EGU1
        | PeripheralId::EGU2
        | PeripheralId::EGU5
        | PeripheralId::MWU
        | PeripheralId::NVMC
        | PeripheralId::POWER
        | PeripheralId::RADIO
        | PeripheralId::RNG
        | PeripheralId::RTC0
        | PeripheralId::SWI1
        | PeripheralId::SWI2
        | PeripheralId::SWI5
        | PeripheralId::TEMP
        | PeripheralId::TIMER0
        => Owner::Stack,
        _ => Owner::Application,
    }
}

/// The position of a peripheral in the inventory's listing.
pub open spec fn index_of(p: PeripheralId) -> int {
    match p {
        PeripheralId::AAR => 0,
        PeripheralId::ACL => 1,
        PeripheralId::CCM => 2,
        PeripheralId::CLOCK => 3,
        PeripheralId::ECB => 4,
        PeripheralId::EGU1 => 5,
        PeripheralId::EGU2 => 6,
        PeripheralId::EGU5 => 7,
        PeripheralId::MWU => 8,
        PeripheralId::NVMC => 9,
        PeripheralId::POWER => 10,
        PeripheralId::RADIO => 11,
        PeripheralId::RNG => 12,
        PeripheralId::RTC0 => 13,
        PeripheralId::SWI1 => 14,
        PeripheralId::SWI2 => 15,
        PeripheralId::SWI5 => 16,
        PeripheralId::TEMP => 17,
        PeripheralId::TIMER0 => 18,
        PeripheralId::CC_HOST_RGF => 19,
        PeripheralId::COMP => 20,
        PeripheralId::CRYPTOCELL => 21,
        PeripheralId::EGU0 => 22,
        PeripheralId::EGU3 => 23,
        PeripheralId::EGU4 => 24,
        PeripheralId::FICR => 25,
        PeripheralId::GPIOTE => 26,
        PeripheralId::I2S => 27,
        PeripheralId::LPCOMP => 28,
        PeripheralId::NFCT => 29,
        PeripheralId::P0 => 30,
        PeripheralId::P1 => 31,
        PeripheralId::PDM => 32,
        PeripheralId::PPI => 33,
        PeripheralId::PWM0 => 34,
        PeripheralId::PWM1 => 35,
        PeripheralId::PWM2 => 36,
        PeripheralId::PWM3 => 37,
        PeripheralId::QDEC => 38,
        PeripheralId::QSPI => 39,
        PeripheralId::RTC1 => 40,
        PeripheralId::RTC2 => 41,
        PeripheralId::SAADC => 42,
        PeripheralId::SPI0 => 43,
        PeripheralId::SPI1 => 44,
        PeripheralId::SPI2 => 45,
        PeripheralId::SPIM0 => 46,
        PeripheralId::SPIM1 => 47,
        PeripheralId::SPIM2 => 48,
        PeripheralId::SPIM3 => 49,
        PeripheralId::SPIS0 => 50,
        PeripheralId::SPIS1 => 51,
        PeripheralId::SPIS2 => 52,
        PeripheralId::SWI0 => 53,
        PeripheralId::SWI3 => 54,
        PeripheralId::SWI4 => 55,
        PeripheralId::TIMER1 => 56,
        PeripheralId::TIMER2 => 57,
        PeripheralId::TIMER3 => 58,
        PeripheralId::TIMER4 => 59,
        PeripheralId::TWI0 => 60,
        PeripheralId::TWI1 => 61,
        PeripheralId::TWIM0 => 62,
        PeripheralId::TWIM1 => 63,
        PeripheralId::TWIS0 => 64,
        PeripheralId::TWIS1 => 65,
        PeripheralId::UART0 => 66,
        PeripheralId::UARTE0 => 67,
        PeripheralId::UARTE1 => 68,
        PeripheralId::UICR => 69,
        PeripheralId::USBD => 70,
        PeripheralId::WDT => 71,
    }
}

/// The peripheral at position `i` of the inventory's listing.
pub open spec fn id_at(i: int) -> PeripheralId {
    if i == 0 {
        PeripheralId::AAR
    } else if i == 1 {
        PeripheralId::ACL
    } else if i == 2 {
        PeripheralId::CCM
    } else if i == 3 {
        PeripheralId::CLOCK
    } else if i == 4 {
        PeripheralId::ECB
    } else if i == 5 {
        PeripheralId::EGU1
    } else if i == 6 {
        PeripheralId::EGU2
    } else if i == 7 {
        PeripheralId::EGU5
    } else if i == 8 {
        PeripheralId::MWU
    } else if i == 9 {
        PeripheralId::NVMC
    } else if i == 10 {
        PeripheralId::POWER
    } else if i == 11 {
        PeripheralId::RADIO
    } else if i == 12 {
        PeripheralId::RNG
    } else if i == 13 {
        PeripheralId::RTC0
    } else if i == 14 {
        PeripheralId::SWI1
    } else if i == 15 {
        PeripheralId::SWI2
    } else if i == 16 {
        PeripheralId::SWI5
    } else if i == 17 {
        PeripheralId::TEMP
    } else if i == 18 {
        PeripheralId::TIMER0
    } else if i == 19 {
        PeripheralId::CC_HOST_RGF
    } else if i == 20 {
        PeripheralId::COMP
    } else if i == 21 {
        PeripheralId::CRYPTOCELL
    } else if i == 22 {
        PeripheralId::EGU0
    } else if i == 23 {
        PeripheralId::EGU3
    } else if i == 24 {
        PeripheralId::EGU4
    } else if i == 25 {
        PeripheralId::FICR
    } else if i == 26 {
        PeripheralId::GPIOTE
    } else if i == 27 {
        PeripheralId::I2S
    } else if i == 28 {
        PeripheralId::LPCOMP
    } else if i == 29 {
        PeripheralId::NFCT
    } else if i == 30 {
        PeripheralId::P0
    } else if i == 31 {
        PeripheralId::P1
    } else if i == 32 {
        PeripheralId::PDM
    } else if i == 33 {
        PeripheralId::PPI
    } else if i == 34 {
        PeripheralId::PWM0
    } else if i == 35 {
        PeripheralId::PWM1
    } else if i == 36 {
        PeripheralId::PWM2
    } else if i == 37 {
        PeripheralId::PWM3
    } else if i == 38 {
        PeripheralId::QDEC
    } else if i == 39 {
        PeripheralId::QSPI
    } else if i == 40 {
        PeripheralId::RTC1
    } else if i == 41 {
        PeripheralId::RTC2
    } else if i == 42 {
        PeripheralId::SAADC
    } else if i == 43 {
        PeripheralId::SPI0
    } else if i == 44 {
        PeripheralId::SPI1
    } else if i == 45 {
        PeripheralId::SPI2
    } else if i == 46 {
        PeripheralId::SPIM0
    } else if i == 47 {
        PeripheralId::SPIM1
    } else if i == 48 {
        PeripheralId::SPIM2
    } else if i == 49 {
        PeripheralId::SPIM3
    } else if i == 50 {
        PeripheralId::SPIS0
    } else if i == 51 {
        PeripheralId::SPIS1
    } else if i == 52 {
        PeripheralId::SPIS2
    } else if i == 53 {
        PeripheralId::SWI0
    } else if i == 54 {
        PeripheralId::SWI3
    } else if i == 55 {
        PeripheralId::SWI4
    } else if i == 56 {
        PeripheralId::TIMER1
    } else if i == 57 {
        PeripheralId::TIMER2
    } else if i == 58 {
        PeripheralId::TIMER3
    } else if i == 59 {
        PeripheralId::TIMER4
    } else if i == 60 {
        PeripheralId::TWI0
    } else if i == 61 {
        PeripheralId::TWI1
    } else if i == 62 {
        PeripheralId::TWIM0
    } else if i == 63 {
        PeripheralId::TWIM1
    } else if i == 64 {
        PeripheralId::TWIS0
    } else if i == 65 {
        PeripheralId::TWIS1
    } else if i == 66 {
        PeripheralId::UART0
    } else if i == 67 {
        PeripheralId::UARTE0
    } else if i == 68 {
        PeripheralId::UARTE1
    } else if i == 69 {
        PeripheralId::UICR
    } else if i == 70 {
        PeripheralId::USBD
    } else {
        PeripheralId::WDT
    }
}

/// The group that peripheral `p` belongs to.
pub fn owner(p: PeripheralId) -> (r: Owner)
    ensures
        r == owner_of(p),
{
    match p {
        PeripheralId::AAR
        | PeripheralId::ACL
        | PeripheralId::CCM
        | PeripheralId::CLOCK
        | PeripheralId::ECB
        | PeripheralId::EGU1
        | PeripheralId::EGU2
        | PeripheralId::EGU5
        | PeripheralId::MWU
        | PeripheralId::NVMC
        | PeripheralId::POWER
        | PeripheralId::RADIO
        | PeripheralId::RNG
        | PeripheralId::RTC0
        | PeripheralId::SWI1
        | PeripheralId::SWI2
        | PeripheralId::SWI5
        | PeripheralId::TEMP
        | PeripheralId::TIMER0
        => Owner::Stack,
        _ => Owner::Application,
    }
}

/// The peripheral at position `i` of the inventory's listing.
pub fn id_from_index(i: usize) -> (r: PeripheralId)
    requires
        i < INVENTORY_LEN,
    ensures
        r == id_at(i as int),
        index_of(r) == i,
{
    match i {
        0 => PeripheralId::AAR,
        1 => PeripheralId::ACL,
        2 => PeripheralId::CCM,
        3 => PeripheralId::CLOCK,
        4 => PeripheralId::ECB,
        5 => PeripheralId::EGU1,
        6 => PeripheralId::EGU2,
        7 => PeripheralId::EGU5,
        8 => PeripheralId::MWU,
        9 => PeripheralId::NVMC,
        10 => PeripheralId::POWER,
        11 => PeripheralId::RADIO,
        12 => PeripheralId::RNG,
        13 => PeripheralId::RTC0,
        14 => PeripheralId::SWI1,
        15 => PeripheralId::SWI2,
        16 => PeripheralId::SWI5,
        17 => PeripheralId::TEMP,
        18 => PeripheralId::TIMER0,
        19 => PeripheralId::CC_HOST_RGF,
        20 => PeripheralId::COMP,
        21 => PeripheralId::CRYPTOCELL,
        22 => PeripheralId::EGU0,
        23 => PeripheralId::EGU3,
        24 => PeripheralId::EGU4,
        25 => PeripheralId::FICR,
        26 => PeripheralId::GPIOTE,
        27 => PeripheralId::I2S,
        28 => PeripheralId::LPCOMP,
        29 => PeripheralId::NFCT,
        30 => PeripheralId::P0,
        31 => PeripheralId::P1,
        32 => PeripheralId::PDM,
        33 => PeripheralId::PPI,
        34 => PeripheralId::PWM0,
        35 => PeripheralId::PWM1,
        36 => PeripheralId::PWM2,
        37 => PeripheralId::PWM3,
        38 => PeripheralId::QDEC,
        39 => PeripheralId::QSPI,
        40 => PeripheralId::RTC1,
        41 => PeripheralId::RTC2,
        42 => PeripheralId::SAADC,
        43 => PeripheralId::SPI0,
        44 => PeripheralId::SPI1,
        45 => PeripheralId::SPI2,
        46 => PeripheralId::SPIM0,
        47 => PeripheralId::SPIM1,
        48 => PeripheralId::SPIM2,
        49 => PeripheralId::SPIM3,
        50 => PeripheralId::SPIS0,
        51 => PeripheralId::SPIS1,
        52 => PeripheralId::SPIS2,
        53 => PeripheralId::SWI0,
        54 => PeripheralId::SWI3,
        55 => PeripheralId::SWI4,
        56 => PeripheralId::TIMER1,
        57 => PeripheralId::TIMER2,
        58 => PeripheralId::TIMER3,
        59 => PeripheralId::TIMER4,
        60 => PeripheralId::TWI0,
        61 => PeripheralId::TWI1,
        62 => PeripheralId::TWIM0,
        63 => PeripheralId::TWIM1,
        64 => PeripheralId::TWIS0,
        65 => PeripheralId::TWIS1,
        66 => PeripheralId::UART0,
        67 => PeripheralId::UARTE0,
        68 => PeripheralId::UARTE1,
        69 => PeripheralId::UICR,
        70 => PeripheralId::USBD,
        _ => PeripheralId::WDT,
    }
}

/// The listing of position `i` is the peripheral there, and every peripheral
/// stands at its own position.
pub proof fn lemma_index_round_trip(p: PeripheralId)
    ensures
        0 <= index_of(p) < INVENTORY_LEN,
        id_at(index_of(p)) == p,
{
}

/// The whole inventory, in the order of `id_at`.
pub open spec fn full_inventory() -> Seq<PeripheralId> {
    Seq::new(INVENTORY_LEN as nat, |i: int| id_at(i))
}

/// The whole inventory holds every peripheral of the chip, each once.
pub proof fn lemma_full_inventory_listing()
    ensures
        full_inventory().no_duplicates(),
        forall|p: PeripheralId| #[trigger] full_inventory().contains(p),
{
    let s = full_inventory();
    assert forall|p: PeripheralId| #[trigger] s.contains(p) by {
        lemma_index_round_trip(p);
        assert(s[index_of(p)] == p);
    }
    assert forall|a: int, b: int| 0 <= a < s.len() && 0 <= b < s.len() && a != b implies s[a]
        != s[b] by {
        lemma_id_round_trip(a);
        lemma_id_round_trip(b);
    }
}

/// Position `i` of the listing holds the peripheral whose position is `i`.
pub proof fn lemma_id_round_trip(i: int)
    requires
        0 <= i < INVENTORY_LEN,
    ensures
        index_of(id_at(i)) == i,
{
}

/// The whole inventory: every peripheral of the chip, each once.
pub fn inventory() -> (r: Vec<PeripheralId>)
    ensures
        r@ == full_inventory(),
        r@.no_duplicates(),
        forall|p: PeripheralId| r@.contains(p),
{
    let mut v: Vec<PeripheralId> = Vec::new();
    let mut i: usize = 0;
    while i < INVENTORY_LEN
        invariant
            i <= INVENTORY_LEN,
            v@.len() == i,
            forall|j: int| 0 <= j < i ==> #[trigger] v@[j] == id_at(j),
        decreases INVENTORY_LEN - i,
    {
        v.push(id_from_index(i));
        i = i + 1;
    }
    assert(v@ =~= full_inventory());
    proof {
        lemma_full_inventory_listing();
    }
    v
}

/// The peripherals of `s` that belong to `o`, in the order of `s`.
pub open spec fn owned_by(s: Seq<PeripheralId>, o: Owner) -> Seq<PeripheralId>
    decreases s.len(),
{
    if s.len() == 0 {
        Seq::empty()
    } else {
        let rest = owned_by(s.drop_last(), o);
        if owner_of(s.last()) == o {
            rest.push(s.last())
        } else {
            rest
        }
    }
}

/// An inventory split in two: what the radio protocol stack owns, and what the
/// application owns.
pub struct Partition {
    pub stack: Vec<PeripheralId>,
    pub application: Vec<PeripheralId>,
}

/// Splits `inventory` by the fixed membership list: each peripheral goes to the
/// group that owns it, in the order it comes.
pub fn partition(inventory: &Vec<PeripheralId>) -> (r: Partition)
    ensures
        r.stack@ == owned_by(inventory@, Owner::Stack),
        r.application@ == owned_by(inventory@, Owner::Application),
{
    let mut stack: Vec<PeripheralId> = Vec::new();
    let mut application: Vec<PeripheralId> = Vec::new();
    let mut i: usize = 0;
    while i < inventory.len()
        invariant
            i <= inventory@.len(),
            stack@ == owned_by(inventory@.subrange(0, i as int), Owner::Stack),
            application@ == owned_by(inventory@.subrange(0, i as int), Owner::Application),
        decreases inventory@.len() - i,
    {
        let p = inventory[i];
        assert(inventory@.subrange(0, i + 1).drop_last() =~= inventory@.subrange(0, i as int));
        match owner(p) {
            Owner::Stack => stack.push(p),
            Owner::Application => application.push(p),
        }
        i = i + 1;
    }
    assert(inventory@.subrange(0, inventory@.len() as int) =~= inventory@);
    Partition { stack, application }
}

/// A peripheral is in `owned_by(s, o)` exactly when it is in `s` and belongs
/// to `o`.
pub proof fn lemma_owned_by_contains(s: Seq<PeripheralId>, o: Owner, p: PeripheralId)
    ensures
        owned_by(s, o).contains(p) <==> s.contains(p) && owner_of(p) == o,
    decreases s.len(),
{
    if s.len() > 0 {
        let t = s.drop_last();
        let x = s.last();
        lemma_owned_by_contains(t, o, p);
        assert(s =~= t.push(x));
        let rest = owned_by(t, o);
        assert(rest.push(x).contains(p) <==> rest.contains(p) || p == x) by {
            if p == x {
                assert(rest.push(x)[rest.len() as int] == x);
            }
            if rest.contains(p) {
                let k = choose|k: int| 0 <= k < rest.len() && rest[k] == p;
                assert(rest.push(x)[k] == p);
            }
            if rest.push(x).contains(p) && p != x {
                let k = choose|k: int| 0 <= k < rest.len() + 1 && rest.push(x)[k] == p;
                assert(rest[k] == p);
            }
        }
        assert(s.contains(p) <==> t.contains(p) || p == x) by {
            if p == x {
                assert(s[s.len() - 1] == x);
            }
            if t.contains(p) {
                let k = choose|k: int| 0 <= k < t.len() && t[k] == p;
                assert(s[k] == p);
            }
            if s.contains(p) && p != x {
                let k = choose|k: int| 0 <= k < s.len() && s[k] == p;
                assert(t[k] == p);
            }
        }
    }
}

/// Splitting loses nothing and adds nothing: together the two groups hold
/// each peripheral of the inventory as often as it holds it.
pub proof fn lemma_partition_lossless(s: Seq<PeripheralId>)
    ensures
        owned_by(s, Owner::Stack).to_multiset().add(
            owned_by(s, Owner::Application).to_multiset(),
        ) =~= s.to_multiset(),
    decreases s.len(),
{
    if s.len() == 0 {
        assert(owned_by(s, Owner::Stack) =~= s);
        assert(owned_by(s, Owner::Application) =~= s);
        s.to_multiset_ensures();
        assert(s.to_multiset() =~= Multiset::empty());
    } else {
        let t = s.drop_last();
        let x = s.last();
        lemma_partition_lossless(t);
        assert(s =~= t.push(x));
        let st = owned_by(t, Owner::Stack);
        let ap = owned_by(t, Owner::Application);
        t.to_multiset_ensures();
        st.to_multiset_ensures();
        ap.to_multiset_ensures();
        assert(s.to_multiset() =~= t.to_multiset().insert(x));
        if owner_of(x) == Owner::Stack {
            assert(owned_by(s, Owner::Stack) == st.push(x));
            assert(owned_by(s, Owner::Application) == ap);
            assert(st.push(x).to_multiset() =~= st.to_multiset().insert(x));
        } else {
            assert(owned_by(s, Owner::Application) == ap.push(x));
            assert(owned_by(s, Owner::Stack) == st);
            assert(ap.push(x).to_multiset() =~= ap.to_multiset().insert(x));
        }
    }
}

/// Every run splits an inventory into two groups whose union is the whole
/// inventory and which share no peripheral.
pub proof fn lemma_partition_exact(s: Seq<PeripheralId>)
    ensures
        owned_by(s, Owner::Stack).to_multiset().add(
            owned_by(s, Owner::Application).to_multiset(),
        ) =~= s.to_multiset(),
        forall|p: PeripheralId|
            s.contains(p) <==> (#[trigger] owned_by(s, Owner::Stack).contains(p) || owned_by(
                s,
                Owner::Application,
            ).contains(p)),
        forall|p: PeripheralId|
            !(#[trigger] owned_by(s, Owner::Stack).contains(p) && owned_by(
                s,
                Owner::Application,
            ).contains(p)),
{
    lemma_partition_lossless(s);
    assert forall|p: PeripheralId|
        s.contains(p) <==> (#[trigger] owned_by(s, Owner::Stack).contains(p) || owned_by(
            s,
            Owner::Application,
        ).contains(p)) by {
        lemma_owned_by_contains(s, Owner::Stack, p);
        lemma_owned_by_contains(s, Owner::Application, p);
    }
    assert forall|p: PeripheralId|
        !(#[trigger] owned_by(s, Owner::Stack).contains(p) && owned_by(
            s,
            Owner::Application,
        ).contains(p)) by {
        lemma_owned_by_contains(s, Owner::Stack, p);
        lemma_owned_by_contains(s, Owner::Application, p);
    }
}

/// Split, the whole inventory puts every peripheral of the chip once in the
/// group of its owner and never in the other group.
pub proof fn lemma_full_inventory_split_once(p: PeripheralId)
    ensures
        owned_by(full_inventory(), owner_of(p)).to_multiset().count(p) == 1,
        owned_by(full_inventory(), Owner::Stack).to_multiset().count(p) + owned_by(
            full_inventory(),
            Owner::Application,
        ).to_multiset().count(p) == 1,
{
    let s = full_inventory();
    let mine = owned_by(s, owner_of(p));
    lemma_full_inventory_listing();
    lemma_partition_lossless(s);
    s.lemma_multiset_has_no_duplicates();
    s.to_multiset_ensures();
    mine.to_multiset_ensures();
    lemma_owned_by_contains(s, owner_of(p), p);
    assert(s.to_multiset().count(p) == 1);
}

} // verus!
