use vstd::prelude::*;

use crate::bus::{bus_ok, Bus};
use crate::isa::{lemma_encode_decode, spec_decode, Instruction};
use crate::ram::{lemma_ram_updates_wf, RamView};

verus! {

/// The processor's registers as values.
pub struct CpuView {
    /// 4-bit accumulator.
    pub acc: u8,
    /// Carry/borrow flag.
    pub cy: bool,
    /// The sixteen 4-bit index registers; pair `k` is registers `2k` (high
    /// nibble) and `2k + 1` (low nibble).
    pub r: Seq<u8>,
    /// 12-bit program counter.
    pub pc: u16,
    /// Three 12-bit return-address slots.
    pub stack: Seq<u16>,
    /// The slot the next call writes.
    pub sp: usize,
    /// Level of the TEST input pin.
    pub test_pin: bool,
    /// How many unknown opcodes were executed (saturating).
    pub unknown: u64,
}

/// `1` for a set flag, `0` otherwise.
pub open spec fn bit(b: bool) -> int {
    if b {
        1
    } else {
        0
    }
}

/// The page (upper four bits) of a branch target for an instruction of
/// `size` bytes fetched at `pc_at_fetch`: the page of the instruction, or the
/// next one (modulo 16) when the instruction occupies the last bytes of its
/// page.
pub open spec fn branch_page(pc_at_fetch: int, size: int) -> int {
    let page = pc_at_fetch / 256;
    if pc_at_fetch % 256 >= 256 - size {
        (page + 1) % 16
    } else {
        page
    }
}

/// The address an instruction of `size` bytes was fetched from, given the
/// program counter after it was advanced past the instruction.
pub open spec fn fetch_address(pc: u16, size: usize) -> int {
    (pc + 4096 - size) % 4096
}

/// The keyboard-process table: a one-hot nibble becomes the position of its
/// bit (1 to 4), 0 stays 0, anything else becomes 0xF.
pub open spec fn kbp_table(a: u8) -> u8 {
    if a == 0 {
        0
    } else if a == 1 {
        1
    } else if a == 2 {
        2
    } else if a == 4 {
        3
    } else if a == 8 {
        4
    } else {
        15
    }
}

/// Whether JCN with condition `cond` jumps: the raw predicate is
/// `(bit 2 and acc == 0) or (bit 1 and cy) or (bit 0 and TEST inactive)`,
/// inverted when bit 3 is set.
pub open spec fn jcn_taken(s: CpuView, cond: u8) -> bool {
    let invert = (cond as int / 8) % 2 == 1;
    let test_acc = (cond as int / 4) % 2 == 1;
    let test_cy = (cond as int / 2) % 2 == 1;
    let test_sig = cond as int % 2 == 1;
    let raw = (test_acc && s.acc == 0) || (test_cy && s.cy) || (test_sig && !s.test_pin);
    raw != invert
}

impl CpuView {
    /// Every 4-bit field is a nibble, addresses have 12 bits, and the stack
    /// pointer names one of the three slots.
    pub open spec fn wf(self) -> bool {
        &&& self.acc < 16
        &&& self.r.len() == 16
        &&& forall|i: int| 0 <= i < 16 ==> #[trigger] self.r[i] < 16
        &&& self.pc < 4096
        &&& self.stack.len() == 3
        &&& forall|i: int| 0 <= i < 3 ==> #[trigger] self.stack[i] < 4096
        &&& self.sp < 3
    }

    /// The processor as built or reset: everything 0, TEST inactive.
    pub open spec fn zeroed() -> CpuView {
        CpuView {
            acc: 0,
            cy: false,
            r: Seq::new(16, |i: int| 0u8),
            pc: 0,
            stack: Seq::new(3, |i: int| 0u16),
            sp: 0,
            test_pin: false,
            unknown: 0,
        }
    }

    /// The 8-bit value of pair `k`.
    pub open spec fn pair(self, k: int) -> int {
        self.r[2 * k] * 16 + self.r[2 * k + 1]
    }

    /// The state with pair `k` set to the 8-bit value `v`.
    pub open spec fn with_pair(self, k: int, v: int) -> CpuView {
        CpuView { r: self.r.update(2 * k, (v / 16) as u8).update(2 * k + 1, (v % 16) as u8), ..self }
    }

    /// The state after an addition whose full sum is `sum`: the low nibble
    /// goes to the accumulator, the carry out to `cy`.
    pub open spec fn with_sum(self, sum: int) -> CpuView {
        CpuView { acc: (sum % 16) as u8, cy: sum > 15, ..self }
    }

    /// The state with the program counter moved `size` bytes on (modulo 4096).
    pub open spec fn advance(self, size: usize) -> CpuView {
        CpuView { pc: ((self.pc + size) % 4096) as u16, ..self }
    }
}

/// The instruction at the program counter, with the byte after it (the
/// address wrapping at 4096) as its trailing byte.
pub open spec fn fetch(s: CpuView, rom: Seq<u8>) -> Instruction {
    spec_decode(rom[s.pc as int], rom[(s.pc + 1) % 4096])
}

/// The processor's state after executing `i`, whose bytes the program
/// counter has already passed. `ram` is data memory before the instruction,
/// `rom` program memory, and `input` the nibble that RDR reads from the port.
pub open spec fn exec(s: CpuView, i: Instruction, ram: RamView, rom: Seq<u8>, input: u8) -> CpuView {
    let pc_at_fetch = fetch_address(s.pc, i.spec_size());
    match i {
        Instruction::Nop => s,
        Instruction::Jcn { cond, addr8 } => if jcn_taken(s, cond) {
            CpuView { pc: ((s.pc as int / 256) * 256 + addr8) as u16, ..s }
        } else {
            s
        },
        Instruction::Fim { pair, imm8 } => s.with_pair(pair as int, imm8 as int),
        Instruction::Src { .. } => s,
        Instruction::Fin { pair } => s.with_pair(
            pair as int,
            rom[branch_page(pc_at_fetch, 1) * 256 + s.pair(0)] as int,
        ),
        Instruction::Jin { pair } => CpuView {
            pc: (branch_page(pc_at_fetch, 1) * 256 + s.pair(pair as int)) as u16,
            ..s
        },
        Instruction::Jun { addr12 } => CpuView { pc: addr12, ..s },
        Instruction::Jms { addr12 } => CpuView {
            stack: s.stack.update(s.sp as int, s.pc),
            sp: ((s.sp + 1) % 3) as usize,
            pc: addr12,
            ..s
        },
        Instruction::Inc { reg } => CpuView {
            r: s.r.update(reg as int, ((s.r[reg as int] + 1) % 16) as u8),
            ..s
        },
        Instruction::Isz { reg, addr8 } => {
            let v = (s.r[reg as int] + 1) % 16;
            let t = CpuView { r: s.r.update(reg as int, v as u8), ..s };
            if v != 0 {
                CpuView { pc: (branch_page(pc_at_fetch, 2) * 256 + addr8) as u16, ..t }
            } else {
                t
            }
        },
        Instruction::Add { reg } => s.with_sum(s.acc + s.r[reg as int] + bit(s.cy)),
        Instruction::Sub { reg } => s.with_sum(s.acc + (15 - s.r[reg as int]) + bit(s.cy)),
        Instruction::Ld { reg } => CpuView { acc: s.r[reg as int], ..s },
        Instruction::Xch { reg } => CpuView {
            acc: s.r[reg as int],
            r: s.r.update(reg as int, s.acc),
            ..s
        },
        Instruction::Bbl { imm4 } => {
            let sp = ((s.sp + 2) % 3) as usize;
            CpuView { sp, pc: s.stack[sp as int], acc: imm4, ..s }
        },
        Instruction::Ldm { imm4 } => CpuView { acc: imm4, ..s },
        Instruction::Sbm => s.with_sum(s.acc + (15 - ram.main_char()) + bit(s.cy)),
        Instruction::Rdm => CpuView { acc: ram.main_char(), ..s },
        Instruction::Rdr => CpuView { acc: input, ..s },
        Instruction::Adm => s.with_sum(s.acc + ram.main_char() + bit(s.cy)),
        Instruction::Rd0 => CpuView { acc: ram.status_char(0), ..s },
        Instruction::Rd1 => CpuView { acc: ram.status_char(1), ..s },
        Instruction::Rd2 => CpuView { acc: ram.status_char(2), ..s },
        Instruction::Rd3 => CpuView { acc: ram.status_char(3), ..s },
        Instruction::Clb => CpuView { acc: 0, cy: false, ..s },
        Instruction::Clc => CpuView { cy: false, ..s },
        Instruction::Iac => s.with_sum(s.acc + 1),
        Instruction::Cmc => CpuView { cy: !s.cy, ..s },
        Instruction::Cma => CpuView { acc: (15 - s.acc) as u8, ..s },
        Instruction::Ral => CpuView {
            acc: ((s.acc * 2) % 16 + bit(s.cy)) as u8,
            cy: s.acc >= 8,
            ..s
        },
        Instruction::Rar => CpuView {
            acc: (s.acc / 2 + 8 * bit(s.cy)) as u8,
            cy: s.acc % 2 == 1,
            ..s
        },
        Instruction::Tcc => CpuView { acc: bit(s.cy) as u8, cy: false, ..s },
        Instruction::Dac => CpuView { acc: ((s.acc + 15) % 16) as u8, cy: s.acc != 0, ..s },
        Instruction::Tcs => CpuView { acc: (9 + bit(s.cy)) as u8, cy: false, ..s },
        Instruction::Stc => CpuView { cy: true, ..s },
        Instruction::Daa => if s.cy || s.acc > 9 {
            CpuView { acc: ((s.acc + 6) % 16) as u8, cy: s.cy || s.acc + 6 >= 16, ..s }
        } else {
            s
        },
        Instruction::Kbp => CpuView { acc: kbp_table(s.acc), ..s },
        Instruction::Unknown(_) => CpuView {
            unknown: if s.unknown < u64::MAX {
                (s.unknown + 1) as u64
            } else {
                s.unknown
            },
            ..s
        },
        // WRM, WMP, WRR, WPM, WR0..WR3 and DCL leave the processor as it is.
        _ => s,
    }
}

/// Data memory after the processor in state `s` executed `i`.
pub open spec fn exec_ram(s: CpuView, i: Instruction, ram: RamView) -> RamView {
    match i {
        Instruction::Src { pair } => ram.with_address(s.pair(pair as int) as u8),
        Instruction::Wrm => ram.with_main(s.acc),
        Instruction::Wr0 => ram.with_status(0, s.acc),
        Instruction::Wr1 => ram.with_status(1, s.acc),
        Instruction::Wr2 => ram.with_status(2, s.acc),
        Instruction::Wr3 => ram.with_status(3, s.acc),
        Instruction::Dcl => ram.with_bank(s.acc),
        _ => ram,
    }
}

/// What executing `i` in state `s` does to the ports of a bus that was `b0`
/// before and is `b1` after; `acc` is the accumulator afterwards. WMP hands
/// the accumulator to data memory's port and WRR to program memory's port;
/// RDR loads what program memory's port answered. Instructions that address
/// data memory keep the ports as they are, and all others leave the bus
/// untouched.
pub open spec fn io_effect<B: Bus>(s: CpuView, i: Instruction, b0: B, b1: B, acc: u8) -> bool {
    match i {
        Instruction::Wmp => b0.ram_port_wrote(s.acc, &b1),
        Instruction::Wrr => b0.rom_port_wrote(s.acc, &b1),
        Instruction::Rdr => b0.rom_port_answered(acc, &b1),
        Instruction::Src { .. } | Instruction::Wrm | Instruction::Wr0 | Instruction::Wr1
        | Instruction::Wr2 | Instruction::Wr3 | Instruction::Dcl => b0.ports_kept(&b1),
        _ => b1 == b0,
    }
}

/// One fetch-decode-execute step takes processor state `c0` on bus `b0` to
/// `c1` on `b1`: the instruction at the program counter is decoded, the
/// counter moves past it, and the instruction executes. Program memory is
/// left as it is.
pub open spec fn step_rel<B: Bus>(c0: CpuView, b0: B, c1: CpuView, b1: B) -> bool {
    let i = fetch(c0, b0.rom());
    let a = c0.advance(i.spec_size());
    &&& b1.rom() == b0.rom()
    &&& b1.ram() == exec_ram(a, i, b0.ram())
    &&& c1 == exec(a, i, b0.ram(), b0.rom(), c1.acc)
    &&& io_effect(a, i, b0, b1, c1.acc)
}

/// Executing a canonical instruction from a well-formed state keeps the
/// processor and data memory well-formed.
#[verifier::rlimit(40)]
pub proof fn lemma_exec_wf(s: CpuView, i: Instruction, ram: RamView, rom: Seq<u8>, input: u8)
    requires
        s.wf(),
        i.wf(),
        bus_ok(rom, ram),
        input < 16,
    ensures
        exec(s, i, ram, rom, input).wf(),
        exec_ram(s, i, ram).wf(),
{
    let n = exec(s, i, ram, rom, input);
    match i {
        Instruction::Src { pair } => {
            lemma_ram_updates_wf(ram, s.pair(pair as int) as u8, 0);
        },
        Instruction::Wrm => {
            lemma_ram_updates_wf(ram, s.acc, 0);
        },
        Instruction::Wr0 => {
            lemma_ram_updates_wf(ram, s.acc, 0);
        },
        Instruction::Wr1 => {
            lemma_ram_updates_wf(ram, s.acc, 1);
        },
        Instruction::Wr2 => {
            lemma_ram_updates_wf(ram, s.acc, 2);
        },
        Instruction::Wr3 => {
            lemma_ram_updates_wf(ram, s.acc, 3);
        },
        Instruction::Dcl => {
            lemma_ram_updates_wf(ram, s.acc, 0);
        },
        Instruction::Sbm | Instruction::Rdm | Instruction::Adm | Instruction::Rd0
        | Instruction::Rd1 | Instruction::Rd2 | Instruction::Rd3 => {
            assert(0 <= ram.slot() < 128);
            assert(ram.regs[ram.slot()].wf());
        },
        Instruction::Fim { .. } | Instruction::Fin { .. } | Instruction::Inc { .. }
        | Instruction::Isz { .. } | Instruction::Xch { .. } => {
            assert(forall|j: int| 0 <= j < 16 ==> #[trigger] n.r[j] < 16);
        },
        Instruction::Jms { .. } => {
            assert(forall|j: int| 0 <= j < 3 ==> #[trigger] n.stack[j] < 4096);
        },
        _ => {},
    }
}

/// The processor: accumulator, carry, sixteen index registers, program
/// counter and a three-slot return stack.
pub struct Cpu {
    acc: u8,
    cy: bool,
    r: [u8; 16],
    pc: u16,
    stack: [u16; 3],
    sp: usize,
    test_pin: bool,
    unknown: u64,
}

impl View for Cpu {
    type V = CpuView;

    closed spec fn view(&self) -> CpuView {
        CpuView {
            acc: self.acc,
            cy: self.cy,
            r: self.r@,
            pc: self.pc,
            stack: self.stack@,
            sp: self.sp,
            test_pin: self.test_pin,
            unknown: self.unknown,
        }
    }
}

impl Cpu {
    /// A processor with every register 0.
    pub fn new() -> (r: Cpu)
        ensures
            r@ == CpuView::zeroed(),
            r@.wf(),
    {
        let c = Cpu {
            acc: 0,
            cy: false,
            r: [0u8; 16],
            pc: 0,
            stack: [0u16; 3],
            sp: 0,
            test_pin: false,
            unknown: 0,
        };
        assert(c@.r =~= CpuView::zeroed().r);
        assert(c@.stack =~= CpuView::zeroed().stack);
        assert(forall|i: int| 0 <= i < 16 ==> #[trigger] c@.r[i] < 16);
        assert(forall|i: int| 0 <= i < 3 ==> #[trigger] c@.stack[i] < 4096);
        c
    }

    /// Sets every register back to 0.
    pub fn reset(&mut self)
        ensures
            final(self)@ == CpuView::zeroed(),
            final(self)@.wf(),
    {
        *self = Cpu::new();
    }

    /// The accumulator.
    pub fn acc(&self) -> (r: u8)
        ensures
            r == self@.acc,
    {
        self.acc
    }

    /// The carry flag.
    pub fn cy(&self) -> (r: bool)
        ensures
            r == self@.cy,
    {
        self.cy
    }

    /// The program counter.
    pub fn pc(&self) -> (r: u16)
        ensures
            r == self@.pc,
    {
        self.pc
    }

    /// Index register `i`.
    pub fn reg(&self, i: usize) -> (r: u8)
        requires
            i < 16,
        ensures
            r == self@.r[i as int],
    {
        self.r[i]
    }

    /// The stack slot the next call writes.
    pub fn sp(&self) -> (r: usize)
        ensures
            r == self@.sp,
    {
        self.sp
    }

    /// Return-address slot `i`.
    pub fn stack_slot(&self, i: usize) -> (r: u16)
        requires
            i < 3,
        ensures
            r == self@.stack[i as int],
    {
        self.stack[i]
    }

    /// How many unknown opcodes were executed.
    pub fn unknown_count(&self) -> (r: u64)
        ensures
            r == self@.unknown,
    {
        self.unknown
    }

    /// Drives the TEST input pin; `true` is active. JCN's signal test jumps
    /// while the pin is inactive.
    pub fn set_test_pin(&mut self, level: bool)
        ensures
            final(self)@ == (CpuView { test_pin: level, ..old(self)@ }),
    {
        self.test_pin = level;
    }

    /// Fetches the instruction at the program counter, moves the counter past
    /// it, and executes it.
    pub fn step<B: Bus>(&mut self, bus: &mut B)
        requires
            old(self)@.wf(),
            bus_ok(old(bus).rom(), old(bus).ram()),
        ensures
            final(self)@.wf(),
            final(bus).rom() == old(bus).rom(),
            bus_ok(final(bus).rom(), final(bus).ram()),
            step_rel(old(self)@, *old(bus), final(self)@, *final(bus)),
    {
        let ghost s0 = self@;
        let ghost b0 = *bus;
        let ghost rom0 = bus.rom();
        let ghost ram0 = bus.ram();
        let opcode = bus.prog_read(self.pc);
        let next = bus.prog_read((self.pc + 1) % 4096);
        let instr = Instruction::decode(opcode, Some(next));
        proof {
            lemma_encode_decode(opcode, next);
            assert(instr == fetch(s0, rom0));
        }
        self.pc = (self.pc + instr.size() as u16) % 4096;
        let ghost a = self@;
        proof {
            assert(a == s0.advance(instr.spec_size()));
        }
        self.execute(bus, instr);
        proof {
            assert(step_rel(s0, b0, self@, *bus));
        }
    }

    /// Executes an instruction whose bytes the program counter has already
    /// passed.
    pub fn execute<B: Bus>(&mut self, bus: &mut B, instr: Instruction)
        requires
            old(self)@.wf(),
            instr.wf(),
            bus_ok(old(bus).rom(), old(bus).ram()),
        ensures
            final(self)@.wf(),
            final(bus).rom() == old(bus).rom(),
            final(bus).ram() == exec_ram(old(self)@, instr, old(bus).ram()),
            bus_ok(final(bus).rom(), final(bus).ram()),
            final(self)@ == exec(old(self)@, instr, old(bus).ram(), old(bus).rom(), final(self)@.acc),
            io_effect(old(self)@, instr, *old(bus), *final(bus), final(self)@.acc),
    {
        let ghost s0 = self@;
        let ghost b0 = *bus;
        let ghost ram0 = bus.ram();
        let ghost rom0 = bus.rom();
        let mut input: u8 = 0;
        let pc_at_fetch = self.pc_at_fetch(&instr);
        proof {
            assert(0 <= ram0.slot() < 128);
            assert(ram0.regs[ram0.slot()].wf());
        }
        match instr {
            Instruction::Nop => {},
            Instruction::Jcn { cond, addr8 } => {
                let invert = cond / 8 % 2 == 1;
                let test_acc = cond / 4 % 2 == 1;
                let test_cy = cond / 2 % 2 == 1;
                let test_sig = cond % 2 == 1;
                let raw = (test_acc && self.acc == 0) || (test_cy && self.cy) || (test_sig
                    && !self.test_pin);
                if raw != invert {
                    self.pc = (self.pc / 256) * 256 + addr8 as u16;
                }
            },
            Instruction::Fim { pair, imm8 } => {
                self.set_pair(pair, imm8);
            },
            Instruction::Src { pair } => {
                bus.data_set_address(self.get_pair_content(pair));
            },
            Instruction::Fin { pair } => {
                let page = Self::branch_page(pc_at_fetch, 1);
                let addr12 = page * 256 + self.get_pair_content(0) as u16;
                let data = bus.prog_read(addr12);
                self.set_pair(pair, data);
            },
            Instruction::Jin { pair } => {
                let page = Self::branch_page(pc_at_fetch, 1);
                self.pc = page * 256 + self.get_pair_content(pair) as u16;
            },
            Instruction::Jun { addr12 } => {
                self.pc = addr12;
            },
            Instruction::Jms { addr12 } => {
                self.stack_write(self.pc);
                self.pc = addr12;
            },
            Instruction::Inc { reg } => {
                self.r[reg] = (self.r[reg] + 1) % 16;
            },
            Instruction::Isz { reg, addr8 } => {
                self.r[reg] = (self.r[reg] + 1) % 16;
                if self.r[reg] != 0 {
                    let page = Self::branch_page(pc_at_fetch, 2);
                    self.pc = page * 256 + addr8 as u16;
                }
            },
            Instruction::Add { reg } => {
                let sum = self.acc + self.r[reg] + self.carry_in();
                self.set_sum(sum);
            },
            Instruction::Sub { reg } => {
                let sum = self.acc + (15 - self.r[reg]) + self.carry_in();
                self.set_sum(sum);
            },
            Instruction::Ld { reg } => {
                self.acc = self.r[reg];
            },
            Instruction::Xch { reg } => {
                let t = self.r[reg];
                self.r[reg] = self.acc;
                self.acc = t;
            },
            Instruction::Bbl { imm4 } => {
                self.pc = self.stack_read();
                self.acc = imm4;
            },
            Instruction::Ldm { imm4 } => {
                self.acc = imm4;
            },
            Instruction::Wrm => {
                bus.data_write(self.acc);
            },
            Instruction::Wmp => {
                bus.ram_port_write(self.acc);
            },
            Instruction::Wrr => {
                bus.rom_port_write(self.acc);
            },
            Instruction::Wpm => {},
            Instruction::Wr0 => {
                bus.data_write_status(0, self.acc);
            },
            Instruction::Wr1 => {
                bus.data_write_status(1, self.acc);
            },
            Instruction::Wr2 => {
                bus.data_write_status(2, self.acc);
            },
            Instruction::Wr3 => {
                bus.data_write_status(3, self.acc);
            },
            Instruction::Sbm => {
                let m = bus.data_read();
                let sum = self.acc + (15 - m) + self.carry_in();
                self.set_sum(sum);
            },
            Instruction::Rdm => {
                self.acc = bus.data_read();
            },
            Instruction::Rdr => {
                input = bus.rom_port_read();
                self.acc = input;
            },
            Instruction::Adm => {
                let m = bus.data_read();
                let sum = self.acc + m + self.carry_in();
                self.set_sum(sum);
            },
            Instruction::Rd0 => {
                self.acc = bus.data_read_status(0);
            },
            Instruction::Rd1 => {
                self.acc = bus.data_read_status(1);
            },
            Instruction::Rd2 => {
                self.acc = bus.data_read_status(2);
            },
            Instruction::Rd3 => {
                self.acc = bus.data_read_status(3);
            },
            Instruction::Clb => {
                self.acc = 0;
                self.cy = false;
            },
            Instruction::Clc => {
                self.cy = false;
            },
            Instruction::Iac => {
                let sum = self.acc + 1;
                self.set_sum(sum);
            },
            Instruction::Cmc => {
                self.cy = !self.cy;
            },
            Instruction::Cma => {
                self.acc = 15 - self.acc;
            },
            Instruction::Ral => {
                let high = self.acc >= 8;
                self.acc = (self.acc * 2) % 16 + self.carry_in();
                self.cy = high;
            },
            Instruction::Rar => {
                let low = self.acc % 2 == 1;
                self.acc = self.acc / 2 + 8 * self.carry_in();
                self.cy = low;
            },
            Instruction::Tcc => {
                self.acc = self.carry_in();
                self.cy = false;
            },
            Instruction::Dac => {
                self.cy = self.acc != 0;
                self.acc = (self.acc + 15) % 16;
            },
            Instruction::Tcs => {
                self.acc = 9 + self.carry_in();
                self.cy = false;
            },
            Instruction::Stc => {
                self.cy = true;
            },
            Instruction::Daa => {
                if self.cy || self.acc > 9 {
                    let sum = self.acc + 6;
                    self.cy = self.cy || sum > 15;
                    self.acc = sum % 16;
                }
            },
            Instruction::Kbp => {
                self.acc = match self.acc {
                    0 => 0,
                    1 => 1,
                    2 => 2,
                    4 => 3,
                    8 => 4,
                    _ => 15,
                };
            },
            Instruction::Dcl => {
                bus.data_select_bank(self.acc);
            },
            Instruction::Unknown(_) => {
                if self.unknown < u64::MAX {
                    self.unknown = self.unknown + 1;
                }
            },
        }
        proof {
            lemma_exec_wf(s0, instr, ram0, rom0, input);
            assert(self@ == exec(s0, instr, ram0, rom0, input));
            assert(instr is Rdr ==> input == self@.acc);
            assert(self@ == exec(s0, instr, ram0, rom0, self@.acc));
            assert(io_effect(s0, instr, b0, *bus, self@.acc));
        }
    }

    /// The address the instruction just passed was fetched from.
    fn pc_at_fetch(&self, instr: &Instruction) -> (r: u16)
        requires
            self@.pc < 4096,
        ensures
            r == fetch_address(self@.pc, instr.spec_size()),
    {
        (self.pc + 4096 - instr.size() as u16) % 4096
    }

    /// The page of a branch target; see `branch_page`.
    fn branch_page(pc_at_fetch: u16, size: u16) -> (r: u16)
        requires
            pc_at_fetch < 4096,
            1 <= size <= 2,
        ensures
            r == branch_page(pc_at_fetch as int, size as int),
            r < 16,
    {
        let page = pc_at_fetch / 256;
        if pc_at_fetch % 256 >= 256 - size {
            (page + 1) % 16
        } else {
            page
        }
    }

    /// The carry flag as 0 or 1.
    fn carry_in(&self) -> (r: u8)
        ensures
            r == bit(self@.cy),
    {
        if self.cy {
            1
        } else {
            0
        }
    }

    /// Stores the low nibble of a sum in the accumulator and its carry out.
    fn set_sum(&mut self, sum: u8)
        ensures
            final(self)@ == old(self)@.with_sum(sum as int),
    {
        self.acc = sum % 16;
        self.cy = sum > 15;
    }

    /// Pushes a return address; a fourth push overwrites the oldest.
    fn stack_write(&mut self, addr12: u16)
        requires
            old(self)@.sp < 3,
        ensures
            final(self)@ == (CpuView {
                stack: old(self)@.stack.update(old(self)@.sp as int, addr12),
                sp: ((old(self)@.sp + 1) % 3) as usize,
                ..old(self)@
            }),
    {
        self.stack[self.sp] = addr12;
        self.sp = (self.sp + 1) % 3;
    }

    /// Pops a return address.
    fn stack_read(&mut self) -> (r: u16)
        requires
            old(self)@.sp < 3,
        ensures
            final(self)@ == (CpuView { sp: ((old(self)@.sp + 2) % 3) as usize, ..old(self)@ }),
            r == old(self)@.stack[final(self)@.sp as int],
    {
        self.sp = (self.sp + 2) % 3;
        self.stack[self.sp]
    }

    /// The registers that make up pair `pair`: high nibble first.
    fn get_pair(pair: usize) -> (r: (usize, usize))
        requires
            pair < 8,
        ensures
            r.0 == 2 * pair,
            r.1 == 2 * pair + 1,
    {
        let ra = pair * 2;
        let rb = ra + 1;
        (ra, rb)
    }

    /// The 8-bit value of pair `pair`.
    fn get_pair_content(&self, pair: usize) -> (r: u8)
        requires
            self@.wf(),
            pair < 8,
        ensures
            r == self@.pair(pair as int),
    {
        let (ra, rb) = Self::get_pair(pair);
        assert(self@.r[ra as int] < 16 && self@.r[rb as int] < 16);
        self.r[ra] * 16 + self.r[rb]
    }

    /// Sets pair `pair` to an 8-bit value.
    fn set_pair(&mut self, pair: usize, value: u8)
        requires
            pair < 8,
        ensures
            final(self)@ == old(self)@.with_pair(pair as int, value as int),
    {
        let (ra, rb) = Self::get_pair(pair);
        self.r[ra] = value / 16;
        self.r[rb] = value % 16;
    }
}

impl Default for Cpu {
    fn default() -> (r: Cpu)
        ensures
            r@ == CpuView::zeroed(),
            r@.wf(),
    {
        Cpu::new()
    }
}

} // verus!
