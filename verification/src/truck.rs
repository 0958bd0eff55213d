//! The fuel truck that the player directs around the apron.
use vstd::prelude::*;
use crate::rules::{spec_truck_speed, truck_speed};

verus! {

/// The fuel truck. `P` is the type of a point on the apron; the truck only
/// stores the point it was sent to.
#[derive(Clone, Debug)]
pub struct FuelTruck<P> {
    /// Where the player sent the truck, while it is on its way there.
    pub destination: Option<P>,
    /// Speed in pixels per second.
    pub speed: u32,
    /// Fueling a plane right now.
    pub fueling: bool,
}

impl<P> FuelTruck<P> {
    /// A truck of the given level, standing still and not fueling.
    pub fn new(level: u32) -> (t: Self)
        ensures
            t.destination is None,
            t.speed == spec_truck_speed(level as int),
            !t.fueling,
    {
        FuelTruck { destination: None, speed: truck_speed(level), fueling: false }
    }

    /// The player sent the truck to `dest`: any fueling stops and the truck
    /// heads there.
    pub fn redirect(&mut self, dest: P)
        ensures
            final(self).destination == Some(dest),
            !final(self).fueling,
            final(self).speed == old(self).speed,
    {
        self.fueling = false;
        self.destination = Some(dest);
    }

    /// The truck reached its destination and stops.
    pub fn arrive(&mut self)
        ensures
            final(self).destination is None,
            final(self).fueling == old(self).fueling,
            final(self).speed == old(self).speed,
    {
        self.destination = None;
    }

    /// Whether the truck is driving: it has somewhere to go and is not fueling.
    pub fn drives(&self) -> (b: bool)
        ensures
            b == (!self.fueling && self.destination is Some),
    {
        !self.fueling && self.destination.is_some()
    }

    /// The truck was upgraded to `level`: it takes that level's speed, and keeps
    /// both its destination and any fueling in progress.
    pub fn upgrade_to(&mut self, level: u32)
        ensures
            final(self).speed == spec_truck_speed(level as int),
            final(self).destination == old(self).destination,
            final(self).fueling == old(self).fueling,
    {
        self.speed = truck_speed(level);
    }
}

} // verus!
