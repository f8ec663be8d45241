use vstd::prelude::*;

verus! {

/// A local electrical socket that can be switched on and off and reports
/// its power while on.
#[derive(Debug, Clone)]
pub struct SmartElectricalSoket {
    name: String,
    /// Nominal wattage, as the bit pattern of an IEEE-754 single.
    power_bits: u32,
    is_on: bool,
}

impl SmartElectricalSoket {
    pub closed spec fn name_view(&self) -> Seq<char> {
        self.name@
    }

    pub closed spec fn power_view(&self) -> u32 {
        self.power_bits
    }

    pub closed spec fn on_view(&self) -> bool {
        self.is_on
    }

    /// A socket that is off.
    pub fn new(name: String, power_bits: u32) -> (r: Self)
        ensures
            r.name_view() == name@,
            r.power_view() == power_bits,
            !r.on_view(),
    {
        SmartElectricalSoket { name, power_bits, is_on: false }
    }

    pub fn get_name(&self) -> (r: &str)
        ensures
            r@ == self.name_view(),
    {
        self.name.as_str()
    }

    pub fn is_on(&self) -> (r: bool)
        ensures
            r == self.on_view(),
    {
        self.is_on
    }

    pub fn switch(&mut self)
        ensures
            final(self).on_view() == !old(self).on_view(),
            final(self).name_view() == old(self).name_view(),
            final(self).power_view() == old(self).power_view(),
    {
        self.is_on = !self.is_on;
    }

    pub fn turn_on(&mut self)
        ensures
            final(self).on_view(),
            final(self).name_view() == old(self).name_view(),
            final(self).power_view() == old(self).power_view(),
    {
        self.is_on = true;
    }

    pub fn turn_off(&mut self)
        ensures
            !final(self).on_view(),
            final(self).name_view() == old(self).name_view(),
            final(self).power_view() == old(self).power_view(),
    {
        self.is_on = false;
    }

    /// The reported power's bit pattern: the wattage while on, else zero
    /// (the bit pattern of `0.0`).
    pub fn get_power_bits(&self) -> (r: u32)
        ensures
            r == if self.on_view() {
                self.power_view()
            } else {
                0
            },
    {
        if self.is_on {
            self.power_bits
        } else {
            0
        }
    }
}

} // verus!
