use vstd::prelude::*;

use crate::dev::IoDevice;
use crate::port::Port;

verus! {

/// Size of program memory in bytes.
pub const ROM_SIZE: usize = 4096;

/// Program memory holding `image`: its first 4096 bytes, padded with zeros.
pub open spec fn rom_image(image: Seq<u8>) -> Seq<u8> {
    Seq::new(ROM_SIZE as nat, |i: int| if i < image.len() { image[i] } else { 0u8 })
}

/// Program memory: 4096 bytes, read-only once loaded, with one I/O port.
pub struct Rom4001<D: IoDevice> {
    bytes: [u8; 4096],
    port: Port<D>,
}

impl<D: IoDevice> View for Rom4001<D> {
    type V = Seq<u8>;

    closed spec fn view(&self) -> Seq<u8> {
        self.bytes@
    }
}

impl<D: IoDevice> Rom4001<D> {
    /// Whether a device is plugged into the port.
    pub closed spec fn port_attached(&self) -> bool {
        self.port.is_attached()
    }

    /// The port.
    pub closed spec fn spec_port(&self) -> Port<D> {
        self.port
    }

    /// Loads an image: byte `i` of it goes to address `i`; bytes past 4096
    /// are dropped and missing ones read as 0.
    pub fn from_bytes(bytes: &[u8]) -> (r: Self)
        ensures
            r@ == rom_image(bytes@),
            !r.port_attached(),
    {
        let mut rom = [0u8; 4096];
        let n: usize = if bytes.len() < ROM_SIZE {
            bytes.len()
        } else {
            ROM_SIZE
        };
        let mut i: usize = 0;
        while i < n
            invariant
                i <= n,
                n <= ROM_SIZE,
                n <= bytes@.len(),
                n == ROM_SIZE || n == bytes@.len(),
                forall|j: int| 0 <= j < i ==> rom@[j] == bytes@[j],
                forall|j: int| i <= j < ROM_SIZE ==> rom@[j] == 0,
            decreases n - i,
        {
            rom[i] = bytes[i];
            i = i + 1;
        }
        let r = Rom4001 { bytes: rom, port: Port::new() };
        assert(r@ =~= rom_image(bytes@));
        r
    }

    /// The byte at a 12-bit address; higher address bits are ignored.
    pub fn read_byte(&self, addr12: u16) -> (r: u8)
        ensures
            r == self@[addr12 as int % 4096],
    {
        self.bytes[(addr12 % 4096) as usize]
    }

    /// Writes the low nibble of `value` to the port.
    pub fn write_port(&mut self, value: u8)
        ensures
            final(self)@ == old(self)@,
            old(self).spec_port().delivered(value, final(self).spec_port()),
            final(self).port_attached() == old(self).port_attached(),
    {
        self.port.write4(value);
    }

    /// Reads a nibble from the port; an empty port reads as 0.
    pub fn read_port(&mut self) -> (r: u8)
        ensures
            r < 16,
            old(self).spec_port().answered(r, final(self).spec_port()),
            final(self)@ == old(self)@,
            final(self).port_attached() == old(self).port_attached(),
    {
        self.port.read4()
    }

    /// Plugs a device into the port.
    pub fn attach_port(&mut self, dev: D)
        requires
            !old(self).port_attached(),
        ensures
            final(self)@ == old(self)@,
            final(self).spec_port().spec_device() == Some(dev),
    {
        self.port.attach(dev);
    }

    /// The port.
    pub fn port(&self) -> (r: &Port<D>)
        ensures
            *r == self.spec_port(),
    {
        &self.port
    }
}

} // verus!
