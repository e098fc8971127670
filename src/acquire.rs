//! A model of one-time acquisition over peripheral identifiers: a flag that
//! hands the inventory out once, and its split between the two owners. The
//! register blocks themselves are taken and split by
//! `device::take_peripherals`, where the device crate keeps the flag.
use crate::inventory::{full_inventory, inventory, owned_by, partition, Owner, Partition, PeripheralId};
use vstd::prelude::*;

verus! {

/// The flag that lets the peripheral inventory be handed out once: the first
/// caller gets it, every later caller gets nothing.
pub struct Acquisition {
    taken: bool,
}

/// `r` is what one acquisition that found the flag as `before` and left it as
/// `after` handed out: the whole inventory the first time, nothing after that.
pub open spec fn acquired(before: Acquisition, after: Acquisition, r: Option<Vec<PeripheralId>>) -> bool {
    &&& after.is_taken()
    &&& before.is_taken() ==> r.is_none()
    &&& !before.is_taken() ==> (r matches Some(v) && v@ == full_inventory())
}

impl Acquisition {
    /// Whether the inventory has been handed out.
    pub closed spec fn is_taken(&self) -> bool {
        self.taken
    }

    /// A flag for an inventory not handed out yet, as at process start.
    pub fn new() -> (r: Acquisition)
        ensures
            !r.is_taken(),
    {
        Acquisition { taken: false }
    }

    /// Whether the inventory has been handed out.
    pub fn taken(&self) -> (r: bool)
        ensures
            r == self.is_taken(),
    {
        self.taken
    }

    /// Hands out the whole inventory on the first call, `None` on every later
    /// one.
    pub fn take(&mut self) -> (r: Option<Vec<PeripheralId>>)
        ensures
            acquired(*old(self), *final(self), r),
    {
        if self.taken {
            None
        } else {
            self.taken = true;
            Some(inventory())
        }
    }

    /// In the model, acquires the inventory's identifiers and splits them
    /// between the radio protocol stack and the application; `None` where
    /// they were acquired before. `device::take_peripherals` does the same
    /// with the register blocks.
    pub fn acquire_and_partition(&mut self) -> (r: Option<Partition>)
        ensures
            final(self).is_taken(),
            old(self).is_taken() ==> r.is_none(),
            !old(self).is_taken() ==> (r matches Some(groups) && groups.stack@ == owned_by(
                full_inventory(),
                Owner::Stack,
            ) && groups.application@ == owned_by(full_inventory(), Owner::Application)),
    {
        match self.take() {
            Some(all) => Some(partition(&all)),
            None => None,
        }
    }
}

/// Acquiring twice never hands out the inventory twice: whatever the flag
/// was at first, the second acquisition gets nothing.
pub proof fn lemma_acquired_at_most_once(
    first: Acquisition,
    second: Acquisition,
    third: Acquisition,
    r1: Option<Vec<PeripheralId>>,
    r2: Option<Vec<PeripheralId>>,
)
    requires
        acquired(first, second, r1),
        acquired(second, third, r2),
    ensures
        r2.is_none(),
        !(r1.is_some() && r2.is_some()),
{
}

} // verus!
