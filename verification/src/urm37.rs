//! Range readings of the URM37 ultrasonic sensor.

use crate::ultrasonic::unit::{Cm, Inch, PulseDuration, ValidUnit};
use core::cmp::Ordering;
use core::marker::PhantomData;
use vstd::prelude::*;
use vstd::std_specs::cmp::{PartialEqSpecImpl, PartialOrdSpecImpl};

verus! {

/// Microseconds of echo per centimetre, as the data sheet gives it.
pub const PULSE_PER_CM: u32 = 50;

/// Microseconds of echo per inch: 2.54 centimetres.
pub const PULSE_PER_INCH: u32 = 127;

/// A distance in the unit `U`.
#[derive(Debug)]
pub struct Distance<U>(u32, PhantomData<U>);

impl<U> Clone for Distance<U> {
    fn clone(&self) -> (d: Self)
        ensures
            d == *self,
    {
        Distance(self.0, PhantomData)
    }
}

impl<U> Copy for Distance<U> {}

impl<U> View for Distance<U> {
    type V = nat;

    /// The number of units.
    closed spec fn view(&self) -> nat {
        self.0 as nat
    }
}

impl<U: ValidUnit> Distance<U> {
    /// The number of units.
    pub fn value(&self) -> (v: u32)
        ensures
            v == self@,
    {
        self.0
    }

    /// The distance of this many units.
    pub fn new(value: u32) -> (d: Distance<U>)
        ensures
            d@ == value,
    {
        Distance(value, PhantomData)
    }
}

impl Distance<PulseDuration> {
    /// The distance in whole centimetres, rounded down.
    pub fn as_cm(&self) -> (d: Distance<Cm>)
        ensures
            d@ == self@ / 50,
    {
        Distance(self.0 / PULSE_PER_CM, PhantomData)
    }

    /// The distance in whole inches, rounded down.
    pub fn as_inch(&self) -> (d: Distance<Inch>)
        ensures
            d@ == self@ / 127,
    {
        Distance(self.0 / PULSE_PER_INCH, PhantomData)
    }
}

impl Distance<Cm> {
    /// The echo pulse that this many centimetres give.
    pub fn as_pulse(&self) -> (d: Distance<PulseDuration>)
        requires
            self@ * 50 <= u32::MAX,
        ensures
            d@ == self@ * 50,
    {
        Distance(self.0 * PULSE_PER_CM, PhantomData)
    }
}

impl Distance<Inch> {
    /// The echo pulse that this many inches give.
    pub fn as_pulse(&self) -> (d: Distance<PulseDuration>)
        requires
            self@ * 127 <= u32::MAX,
        ensures
            d@ == self@ * 127,
    {
        Distance(self.0 * PULSE_PER_INCH, PhantomData)
    }
}

impl<U> PartialEq for Distance<U> {
    fn eq(&self, other: &Self) -> (r: bool) {
        self.0 == other.0
    }
}

impl<U> PartialEqSpecImpl for Distance<U> {
    open spec fn obeys_eq_spec() -> bool {
        true
    }

    open spec fn eq_spec(&self, other: &Self) -> bool {
        self@ == other@
    }
}

impl<U> PartialOrd for Distance<U> {
    fn partial_cmp(&self, other: &Self) -> (r: Option<Ordering>) {
        if self.0 == other.0 {
            Some(Ordering::Equal)
        } else if self.0 < other.0 {
            Some(Ordering::Less)
        } else {
            Some(Ordering::Greater)
        }
    }
}

impl<U> PartialOrdSpecImpl for Distance<U> {
    open spec fn obeys_partial_cmp_spec() -> bool {
        true
    }

    open spec fn partial_cmp_spec(&self, other: &Self) -> Option<Ordering> {
        if self@ == other@ {
            Some(Ordering::Equal)
        } else if self@ < other@ {
            Some(Ordering::Less)
        } else {
            Some(Ordering::Greater)
        }
    }
}

/// Converting to centimetres and back loses less than one centimetre of
/// echo and never adds any.
pub proof fn lemma_cm_round_trip(pulse: nat)
    ensures
        (pulse / 50) * 50 <= pulse < (pulse / 50) * 50 + 50,
{
}

/// Converting to inches and back loses less than one inch of echo and never
/// adds any.
pub proof fn lemma_inch_round_trip(pulse: nat)
    ensures
        (pulse / 127) * 127 <= pulse < (pulse / 127) * 127 + 127,
{
}

} // verus!
