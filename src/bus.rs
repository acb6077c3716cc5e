use vstd::prelude::*;

use crate::dev::IoDevice;
use crate::ram::{DataRam4002, RamView};
use crate::rom::{Rom4001, ROM_SIZE};

verus! {

/// A bus whose program memory holds 4096 bytes and whose data memory is
/// well-formed.
pub open spec fn bus_ok(rom: Seq<u8>, ram: RamView) -> bool {
    rom.len() == ROM_SIZE && ram.wf()
}

/// Everything the processor reaches outside itself: program memory, data
/// memory with its latch and bank selector, the program memory's port and
/// the data memory's output port.
///
/// `rom` and `ram` are the memories as the bus presents them; each operation
/// states its effect on them. Port traffic leaves both unchanged, and is
/// described by the port relations; data-memory operations keep the ports
/// and their devices as they are.
pub trait Bus {
    /// Program memory.
    spec fn rom(&self) -> Seq<u8>;

    /// Data memory.
    spec fn ram(&self) -> RamView;

    /// `next` is this bus after `value` was written to program memory's port.
    spec fn rom_port_wrote(&self, value: u8, next: &Self) -> bool;

    /// `next` is this bus after a read of program memory's port returned `r`.
    spec fn rom_port_answered(&self, r: u8, next: &Self) -> bool;

    /// `next` is this bus after `value` was written to data memory's port.
    spec fn ram_port_wrote(&self, value: u8, next: &Self) -> bool;

    /// `next` has the same ports, with the same devices, as this bus.
    spec fn ports_kept(&self, next: &Self) -> bool;

    /// The program byte at a 12-bit address.
    fn prog_read(&self, addr12: u16) -> (r: u8)
        ensures
            r == self.rom()[addr12 as int % 4096],
    ;

    /// Latches an SRC address in data memory.
    fn data_set_address(&mut self, addr8: u8)
        ensures
            final(self).rom() == old(self).rom(),
            final(self).ram() == old(self).ram().with_address(addr8),
            old(self).ports_kept(final(self)),
    ;

    /// Selects a data-memory bank.
    fn data_select_bank(&mut self, bank: u8)
        ensures
            final(self).rom() == old(self).rom(),
            final(self).ram() == old(self).ram().with_bank(bank),
            old(self).ports_kept(final(self)),
    ;

    /// Reads the selected main character.
    fn data_read(&self) -> (r: u8)
        requires
            self.ram().wf(),
        ensures
            r == self.ram().main_char(),
    ;

    /// Writes the selected main character.
    fn data_write(&mut self, value: u8)
        requires
            old(self).ram().wf(),
        ensures
            final(self).rom() == old(self).rom(),
            final(self).ram() == old(self).ram().with_main(value),
            old(self).ports_kept(final(self)),
    ;

    /// Reads status character `idx` of the selected register.
    fn data_read_status(&self, idx: usize) -> (r: u8)
        requires
            self.ram().wf(),
            idx < 4,
        ensures
            r == self.ram().status_char(idx as int),
    ;

    /// Writes status character `idx` of the selected register.
    fn data_write_status(&mut self, idx: usize, value: u8)
        requires
            old(self).ram().wf(),
            idx < 4,
        ensures
            final(self).rom() == old(self).rom(),
            final(self).ram() == old(self).ram().with_status(idx as int, value),
            old(self).ports_kept(final(self)),
    ;

    /// Writes a nibble to the program memory's port.
    fn rom_port_write(&mut self, value: u8)
        ensures
            final(self).rom() == old(self).rom(),
            final(self).ram() == old(self).ram(),
            old(self).rom_port_wrote(value, final(self)),
    ;

    /// Reads a nibble from the program memory's port.
    fn rom_port_read(&mut self) -> (r: u8)
        ensures
            r < 16,
            final(self).rom() == old(self).rom(),
            final(self).ram() == old(self).ram(),
            old(self).rom_port_answered(r, final(self)),
    ;

    /// Writes a nibble to the data memory's output port.
    fn ram_port_write(&mut self, value: u8)
        ensures
            final(self).rom() == old(self).rom(),
            final(self).ram() == old(self).ram(),
            old(self).ram_port_wrote(value, final(self)),
    ;
}

/// The smallest system: one program memory and one data memory.
pub struct SimpleBus<R: IoDevice, D: IoDevice> {
    pub prog: Rom4001<R>,
    pub data: DataRam4002<D>,
}

impl<R: IoDevice, D: IoDevice> SimpleBus<R, D> {
    /// Joins a program memory and a data memory.
    pub fn new(prog: Rom4001<R>, data: DataRam4002<D>) -> (r: Self)
        ensures
            r.prog == prog,
            r.data == data,
    {
        SimpleBus { prog, data }
    }
}

impl<R: IoDevice, D: IoDevice> Bus for SimpleBus<R, D> {
    open spec fn rom(&self) -> Seq<u8> {
        self.prog@
    }

    open spec fn ram(&self) -> RamView {
        self.data@
    }

    open spec fn rom_port_wrote(&self, value: u8, next: &Self) -> bool {
        &&& self.prog.spec_port().delivered(value, next.prog.spec_port())
        &&& next.data.spec_port() == self.data.spec_port()
    }

    open spec fn rom_port_answered(&self, r: u8, next: &Self) -> bool {
        &&& self.prog.spec_port().answered(r, next.prog.spec_port())
        &&& next.data.spec_port() == self.data.spec_port()
    }

    open spec fn ram_port_wrote(&self, value: u8, next: &Self) -> bool {
        &&& self.data.spec_port().delivered(value, next.data.spec_port())
        &&& next.prog.spec_port() == self.prog.spec_port()
    }

    open spec fn ports_kept(&self, next: &Self) -> bool {
        &&& next.prog.spec_port() == self.prog.spec_port()
        &&& next.data.spec_port() == self.data.spec_port()
    }

    fn prog_read(&self, addr12: u16) -> (r: u8) {
        self.prog.read_byte(addr12 % 4096)
    }

    fn data_set_address(&mut self, addr8: u8) {
        self.data.set_address(addr8);
    }

    fn data_select_bank(&mut self, bank: u8) {
        self.data.select_bank(bank % 8);
    }

    fn data_read(&self) -> (r: u8) {
        self.data.read()
    }

    fn data_write(&mut self, value: u8) {
        self.data.write(value % 16);
    }

    fn data_read_status(&self, idx: usize) -> (r: u8) {
        self.data.read_status(idx)
    }

    fn data_write_status(&mut self, idx: usize, value: u8) {
        self.data.write_status(idx, value % 16);
    }

    fn rom_port_write(&mut self, value: u8) {
        self.prog.write_port(value);
    }

    fn rom_port_read(&mut self) -> (r: u8) {
        self.prog.read_port()
    }

    fn ram_port_write(&mut self, value: u8) {
        self.data.write_port(value);
    }
}

} // verus!
