use vstd::prelude::*;

use crate::dev::IoDevice;

verus! {

/// A 4-bit I/O port of a chip, with at most one device plugged in.
///
/// An empty port accepts writes silently and reads as 0.
pub struct Port<D: IoDevice> {
    dev: Option<D>,
}

impl<D: IoDevice> Port<D> {
    /// Whether a device is plugged in.
    pub closed spec fn is_attached(&self) -> bool {
        self.dev is Some
    }

    /// The plugged-in device, if any.
    pub closed spec fn spec_device(&self) -> Option<D> {
        self.dev
    }

    /// `next` is this port after `value` was written to it: the device, if
    /// one is plugged in, has received the low nibble of `value`; an empty
    /// port stays as it is.
    pub open spec fn delivered(self, value: u8, next: Self) -> bool {
        match self.spec_device() {
            Some(d) => next.spec_device() matches Some(n) && d.wrote((value % 16) as u8, &n),
            None => next == self,
        }
    }

    /// `next` is this port after a read that returned `r`: the low nibble of
    /// what the device answered, or 0 from an empty port, which stays as it is.
    pub open spec fn answered(self, r: u8, next: Self) -> bool {
        match self.spec_device() {
            Some(d) => next.spec_device() matches Some(n) && exists|v: u8|
                #![trigger d.answered(v, &n)]
                d.answered(v, &n) && r == v % 16,
            None => r == 0 && next == self,
        }
    }

    /// An empty port.
    pub fn new() -> (r: Self)
        ensures
            !r.is_attached(),
    {
        Port { dev: None }
    }

    /// Plugs a device in; a port takes one device for its lifetime.
    pub fn attach(&mut self, dev: D)
        requires
            !old(self).is_attached(),
        ensures
            final(self).spec_device() == Some(dev),
    {
        self.dev = Some(dev);
    }

    /// Whether a device is plugged in.
    pub fn has_device(&self) -> (r: bool)
        ensures
            r == self.is_attached(),
    {
        self.dev.is_some()
    }

    /// The plugged-in device, if any.
    pub fn device(&self) -> (r: Option<&D>)
        ensures
            match r {
                Some(d) => self.spec_device() == Some(*d),
                None => self.spec_device() is None,
            },
    {
        match &self.dev {
            Some(d) => Some(d),
            None => None,
        }
    }

    /// Hands the low nibble of `value` to the device, if one is plugged in.
    pub fn write4(&mut self, value: u8)
        ensures
            old(self).delivered(value, *final(self)),
            final(self).is_attached() == old(self).is_attached(),
    {
        if let Some(d) = &mut self.dev {
            d.write4(value % 16);
        }
    }

    /// Reads a nibble from the device; an empty port reads as 0.
    pub fn read4(&mut self) -> (r: u8)
        ensures
            r < 16,
            old(self).answered(r, *final(self)),
            final(self).is_attached() == old(self).is_attached(),
    {
        let ghost before = self.dev;
        let mut v: u8 = 0;
        if let Some(d) = &mut self.dev {
            v = d.read4();
        }
        proof {
            if let Some(d0) = before {
                let n = self.dev->Some_0;
                assert(d0.answered(v, &n));
            }
        }
        if self.dev.is_some() {
            v % 16
        } else {
            0
        }
    }
}

impl<D: IoDevice> Default for Port<D> {
    fn default() -> (r: Self)
        ensures
            !r.is_attached(),
    {
        Port::new()
    }
}

} // verus!
