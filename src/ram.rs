use vstd::prelude::*;

use crate::dev::IoDevice;
use crate::port::Port;

verus! {

/// Number of data-memory registers: 8 banks of 4 chips of 4 registers.
pub const NUM_REGISTERS: usize = 128;

/// One data-memory register: sixteen main characters and four status
/// characters, each a nibble.
#[derive(Clone, Copy)]
pub struct Register {
    characters: [u8; 16],
    status_characters: [u8; 4],
}

/// The characters of one register.
pub struct RegisterView {
    pub chars: Seq<u8>,
    pub status: Seq<u8>,
}

impl RegisterView {
    /// Sixteen main and four status characters, all nibbles.
    pub open spec fn wf(self) -> bool {
        &&& self.chars.len() == 16
        &&& self.status.len() == 4
        &&& forall|i: int| 0 <= i < 16 ==> #[trigger] self.chars[i] < 16
        &&& forall|i: int| 0 <= i < 4 ==> #[trigger] self.status[i] < 16
    }

    /// A register whose characters are all 0.
    pub open spec fn zeroed() -> RegisterView {
        RegisterView { chars: Seq::new(16, |i: int| 0u8), status: Seq::new(4, |i: int| 0u8) }
    }
}

impl View for Register {
    type V = RegisterView;

    closed spec fn view(&self) -> RegisterView {
        RegisterView { chars: self.characters@, status: self.status_characters@ }
    }
}

impl Register {
    /// A register whose characters are all 0.
    pub fn new() -> (r: Register)
        ensures
            r@ == RegisterView::zeroed(),
    {
        let r = Register { characters: [0u8; 16], status_characters: [0u8; 4] };
        assert(r@.chars =~= RegisterView::zeroed().chars);
        assert(r@.status =~= RegisterView::zeroed().status);
        r
    }
}

/// The contents and addressing state of data memory.
///
/// Registers are numbered `bank * 16 + chip * 4 + register`. The SRC latch
/// `addr8` selects chip (bits 7..6), register (bits 5..4) and main character
/// (bits 3..0); `bank` is the bank chosen by DCL.
pub struct RamView {
    pub regs: Seq<RegisterView>,
    pub addr8: u8,
    pub bank: u8,
}

impl RamView {
    /// 128 well-formed registers and a bank below 8.
    pub open spec fn wf(self) -> bool {
        &&& self.regs.len() == NUM_REGISTERS
        &&& self.bank < 8
        &&& forall|i: int| 0 <= i < NUM_REGISTERS ==> (#[trigger] self.regs[i]).wf()
    }

    /// Data memory as built or reset: every character 0, latch and bank 0.
    pub open spec fn zeroed() -> RamView {
        RamView {
            regs: Seq::new(NUM_REGISTERS as nat, |i: int| RegisterView::zeroed()),
            addr8: 0,
            bank: 0,
        }
    }

    /// The chip selected by the SRC latch.
    pub open spec fn chip(self) -> int {
        self.addr8 as int / 64
    }

    /// The register, within the chip, selected by the SRC latch.
    pub open spec fn reg(self) -> int {
        (self.addr8 as int / 16) % 4
    }

    /// The main character selected by the SRC latch.
    pub open spec fn ch(self) -> int {
        self.addr8 as int % 16
    }

    /// The index of the selected register.
    pub open spec fn slot(self) -> int {
        self.bank as int * 16 + self.chip() * 4 + self.reg()
    }

    /// The selected main character.
    pub open spec fn main_char(self) -> u8 {
        self.regs[self.slot()].chars[self.ch()]
    }

    /// Status character `idx` of the selected register.
    pub open spec fn status_char(self, idx: int) -> u8 {
        self.regs[self.slot()].status[idx]
    }

    /// The memory after SRC latched `addr8`.
    pub open spec fn with_address(self, addr8: u8) -> RamView {
        RamView { addr8, ..self }
    }

    /// The memory after DCL chose bank `bank` (its low three bits).
    pub open spec fn with_bank(self, bank: u8) -> RamView {
        RamView { bank: (bank % 8) as u8, ..self }
    }

    /// The memory after the low nibble of `value` was written to the selected
    /// main character.
    pub open spec fn with_main(self, value: u8) -> RamView {
        let r = self.regs[self.slot()];
        RamView {
            regs: self.regs.update(
                self.slot(),
                RegisterView { chars: r.chars.update(self.ch(), (value % 16) as u8), ..r },
            ),
            ..self
        }
    }

    /// The memory after the low nibble of `value` was written to status
    /// character `idx` of the selected register.
    pub open spec fn with_status(self, idx: int, value: u8) -> RamView {
        let r = self.regs[self.slot()];
        RamView {
            regs: self.regs.update(
                self.slot(),
                RegisterView { status: r.status.update(idx, (value % 16) as u8), ..r },
            ),
            ..self
        }
    }
}

/// Latching, bank selection and character writes keep data memory
/// well-formed.
pub proof fn lemma_ram_updates_wf(m: RamView, byte: u8, idx: int)
    requires
        m.wf(),
        0 <= idx < 4,
    ensures
        m.with_address(byte).wf(),
        m.with_bank(byte).wf(),
        m.with_main(byte).wf(),
        m.with_status(idx, byte).wf(),
{
    assert(0 <= m.slot() < NUM_REGISTERS);
    assert(m.regs[m.slot()].wf());
    let w = m.with_main(byte);
    assert forall|i: int| 0 <= i < NUM_REGISTERS implies (#[trigger] w.regs[i]).wf() by {
        if i == m.slot() {
            assert forall|j: int| 0 <= j < 16 implies #[trigger] w.regs[i].chars[j] < 16 by {
                if j != m.ch() {
                    assert(w.regs[i].chars[j] == m.regs[i].chars[j]);
                }
            }
        }
    }
    let t = m.with_status(idx, byte);
    assert forall|i: int| 0 <= i < NUM_REGISTERS implies (#[trigger] t.regs[i]).wf() by {
        if i == m.slot() {
            assert forall|j: int| 0 <= j < 4 implies #[trigger] t.regs[i].status[j] < 16 by {
                if j != idx {
                    assert(t.regs[i].status[j] == m.regs[i].status[j]);
                }
            }
        }
    }
}

/// Data memory: banks of chips of registers, the SRC address latch, the DCL
/// bank selector, and one output port written by WMP.
pub struct DataRam4002<D: IoDevice> {
    banks: Vec<Register>,
    addr8: u8,
    bank: u8,
    port: Port<D>,
}

impl<D: IoDevice> View for DataRam4002<D> {
    type V = RamView;

    closed spec fn view(&self) -> RamView {
        RamView { regs: self.banks@.map_values(|r: Register| r@), addr8: self.addr8, bank: self.bank }
    }
}

impl<D: IoDevice> DataRam4002<D> {
    /// Whether a device is plugged into the output port.
    pub closed spec fn port_attached(&self) -> bool {
        self.port.is_attached()
    }

    /// The output port.
    pub closed spec fn spec_port(&self) -> Port<D> {
        self.port
    }

    /// Zeroed data memory with an empty port.
    pub fn new() -> (r: Self)
        ensures
            r@ == RamView::zeroed(),
            r@.wf(),
            !r.port_attached(),
    {
        let blank = Register::new();
        let banks = vec![blank; NUM_REGISTERS];
        let r = DataRam4002 { banks, addr8: 0, bank: 0, port: Port::new() };
        assert(r@.regs =~= RamView::zeroed().regs) by {
            assert forall|i: int| 0 <= i < NUM_REGISTERS implies r@.regs[i] == RegisterView::zeroed() by {
                assert(cloned(blank, r.banks@[i]));
            }
        }
        r
    }

    /// Chip, register and character selected by the SRC latch, as indices.
    fn decode_addr8(&self) -> (r: (usize, usize, usize))
        ensures
            r.0 == self@.chip(),
            r.1 == self@.reg(),
            r.2 == self@.ch(),
    {
        let chip = (self.addr8 / 64) as usize;
        let reg = ((self.addr8 / 16) % 4) as usize;
        let ch = (self.addr8 % 16) as usize;
        (chip, reg, ch)
    }

    /// Latches an SRC address.
    pub fn set_address(&mut self, addr8: u8)
        ensures
            final(self)@ == old(self)@.with_address(addr8),
            final(self).spec_port() == old(self).spec_port(),
    {
        self.addr8 = addr8;
    }

    /// Selects a bank; only the low three bits of `bank` count.
    pub fn select_bank(&mut self, bank: u8)
        ensures
            final(self)@ == old(self)@.with_bank(bank),
            final(self).spec_port() == old(self).spec_port(),
    {
        self.bank = bank % 8;
    }

    /// Reads the selected main character.
    pub fn read(&self) -> (r: u8)
        requires
            self@.wf(),
        ensures
            r == self@.main_char(),
            r < 16,
    {
        let (chip, reg, ch) = self.decode_addr8();
        let slot = self.bank as usize * 16 + chip * 4 + reg;
        assert(self@.regs[slot as int].wf());
        assert(self@.regs[slot as int].chars[ch as int] < 16);
        self.banks[slot].characters[ch]
    }

    /// Writes the low nibble of `value` to the selected main character.
    pub fn write(&mut self, value: u8)
        requires
            old(self)@.wf(),
        ensures
            final(self)@ == old(self)@.with_main(value),
            final(self)@.wf(),
            final(self).spec_port() == old(self).spec_port(),
    {
        let (chip, reg, ch) = self.decode_addr8();
        let slot = self.bank as usize * 16 + chip * 4 + reg;
        let mut r = self.banks[slot];
        r.characters[ch] = value % 16;
        self.banks[slot] = r;
        proof {
            let old_v = old(self)@;
            assert(final(self)@.regs =~= old_v.with_main(value).regs);
        }
    }

    /// Reads status character `idx` of the selected register.
    pub fn read_status(&self, idx: usize) -> (r: u8)
        requires
            self@.wf(),
            idx < 4,
        ensures
            r == self@.status_char(idx as int),
            r < 16,
    {
        let (chip, reg, _) = self.decode_addr8();
        let slot = self.bank as usize * 16 + chip * 4 + reg;
        self.banks[slot].status_characters[idx]
    }

    /// Writes the low nibble of `value` to status character `idx` of the
    /// selected register.
    pub fn write_status(&mut self, idx: usize, value: u8)
        requires
            old(self)@.wf(),
            idx < 4,
        ensures
            final(self)@ == old(self)@.with_status(idx as int, value),
            final(self)@.wf(),
            final(self).spec_port() == old(self).spec_port(),
    {
        let (chip, reg, _) = self.decode_addr8();
        let slot = self.bank as usize * 16 + chip * 4 + reg;
        let mut r = self.banks[slot];
        r.status_characters[idx] = value % 16;
        self.banks[slot] = r;
        proof {
            let old_v = old(self)@;
            assert(final(self)@.regs =~= old_v.with_status(idx as int, value).regs);
        }
    }

    /// Writes the low nibble of `value` to the output port.
    pub fn write_port(&mut self, value: u8)
        ensures
            final(self)@ == old(self)@,
            old(self).spec_port().delivered(value, final(self).spec_port()),
            final(self).port_attached() == old(self).port_attached(),
    {
        self.port.write4(value);
    }

    /// Plugs a device into the output port.
    pub fn attach_port(&mut self, dev: D)
        requires
            !old(self).port_attached(),
        ensures
            final(self)@ == old(self)@,
            final(self).spec_port().spec_device() == Some(dev),
    {
        self.port.attach(dev);
    }

    /// The output port.
    pub fn port(&self) -> (r: &Port<D>)
        ensures
            *r == self.spec_port(),
    {
        &self.port
    }
}

impl Default for Register {
    fn default() -> (r: Register)
        ensures
            r@ == RegisterView::zeroed(),
    {
        Register::new()
    }
}

impl<D: IoDevice> Default for DataRam4002<D> {
    fn default() -> (r: Self)
        ensures
            r@ == RamView::zeroed(),
            r@.wf(),
            !r.port_attached(),
    {
        DataRam4002::new()
    }
}

} // verus!
