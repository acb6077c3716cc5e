use std::cell::RefCell;
use std::rc::Rc;

use msc4::bus::{Bus, SimpleBus};
use msc4::cli::{wants_terminal, Device};
use msc4::cpu::Cpu;
use msc4::dev::{IoDevice, Terminal};
use msc4::isa::Instruction;
use msc4::port::Port;
use msc4::ram::DataRam4002;
use msc4::rom::Rom4001;

/// Records what is written and answers reads from a fixed value.
struct Probe {
    written: Rc<RefCell<Vec<u8>>>,
    answer: u8,
}

impl IoDevice for Probe {
    fn wrote(&self, _value4: u8, next: &Self) -> bool {
        next.answer == self.answer && Rc::ptr_eq(&next.written, &self.written)
    }

    fn answered(&self, r: u8, next: &Self) -> bool {
        r == self.answer && next.answer == self.answer
    }

    fn write4(&mut self, value4: u8) {
        self.written.borrow_mut().push(value4);
    }

    fn read4(&mut self) -> u8 {
        self.answer
    }
}

#[test]
fn rom_pads_and_truncates() {
    let rom: Rom4001<Terminal> = Rom4001::from_bytes(&[1, 2, 3]);
    assert_eq!(rom.read_byte(0), 1);
    assert_eq!(rom.read_byte(2), 3);
    assert_eq!(rom.read_byte(3), 0);
    assert_eq!(rom.read_byte(4095), 0);
    // upper address bits are ignored
    assert_eq!(rom.read_byte(0x1001), 2);
    let long: Vec<u8> = (0..5000u32).map(|i| (i % 251) as u8).collect();
    let rom: Rom4001<Terminal> = Rom4001::from_bytes(&long);
    assert_eq!(rom.read_byte(4095), (4095 % 251) as u8);
    assert_eq!(rom.read_byte(4096), 0);
}

#[test]
fn ram_main_and_status_characters() {
    let mut ram: DataRam4002<Terminal> = DataRam4002::new();
    ram.set_address(0b10_01_0111); // chip 2, register 1, character 7
    ram.write(0x1C); // masked to 0xC
    assert_eq!(ram.read(), 0xC);
    ram.write_status(3, 0x5);
    assert_eq!(ram.read_status(3), 0x5);
    // another character of the same register shares its status characters
    ram.set_address(0b10_01_0000);
    assert_eq!(ram.read(), 0);
    assert_eq!(ram.read_status(3), 0x5);
    // another bank holds other registers
    ram.select_bank(0b1011); // bank 3
    ram.set_address(0b10_01_0111);
    assert_eq!(ram.read(), 0);
    assert_eq!(ram.read_status(3), 0);
    ram.select_bank(0);
    assert_eq!(ram.read(), 0xC);
}

#[test]
fn cpu_drives_data_memory() {
    let mut bus: SimpleBus<Terminal, Terminal> = SimpleBus::new(Rom4001::from_bytes(&[]), DataRam4002::new());
    let mut cpu = Cpu::new();
    for i in [
        Instruction::Fim { pair: 1, imm8: 0x35 }, // chip 0, register 3, character 5
        Instruction::Src { pair: 1 },
        Instruction::Ldm { imm4: 9 },
        Instruction::Wrm,
        Instruction::Ldm { imm4: 4 },
        Instruction::Wr2,
        Instruction::Ldm { imm4: 1 },
        Instruction::Dcl,
        Instruction::Ldm { imm4: 7 },
        Instruction::Wrm,
        Instruction::Ldm { imm4: 0 },
        Instruction::Dcl,
        Instruction::Clb,
        Instruction::Rdm,
    ] {
        cpu.execute(&mut bus, i);
    }
    assert_eq!(cpu.acc(), 9);
    cpu.execute(&mut bus, Instruction::Rd2);
    assert_eq!(cpu.acc(), 4);
    // ADM: 4 + 9 + 0 = 13
    cpu.execute(&mut bus, Instruction::Adm);
    assert_eq!((cpu.acc(), cpu.cy()), (13, false));
    // SBM: 13 + (15 - 9) + 0 = 19 -> 3, carry
    cpu.execute(&mut bus, Instruction::Sbm);
    assert_eq!((cpu.acc(), cpu.cy()), (3, true));
    assert_eq!(bus.data.read(), 9);
    bus.data.select_bank(1);
    assert_eq!(bus.data.read(), 7);
    assert_eq!(bus.data_read_status(2), 0);
}

#[test]
fn rom_port_reads_and_writes() {
    let written = Rc::new(RefCell::new(Vec::new()));
    let mut rom = Rom4001::from_bytes(&[]);
    rom.attach_port(Probe { written: written.clone(), answer: 0x1B });
    let mut bus: SimpleBus<Probe, Terminal> = SimpleBus::new(rom, DataRam4002::new());
    let mut cpu = Cpu::new();
    cpu.execute(&mut bus, Instruction::Ldm { imm4: 6 });
    cpu.execute(&mut bus, Instruction::Wrr);
    cpu.execute(&mut bus, Instruction::Clb);
    cpu.execute(&mut bus, Instruction::Rdr);
    assert_eq!(cpu.acc(), 0xB);
    assert_eq!(*written.borrow(), vec![6]);
}

#[test]
fn empty_ports_read_zero() {
    let mut bus: SimpleBus<Terminal, Terminal> = SimpleBus::new(Rom4001::from_bytes(&[]), DataRam4002::new());
    let mut cpu = Cpu::new();
    cpu.execute(&mut bus, Instruction::Ldm { imm4: 6 });
    cpu.execute(&mut bus, Instruction::Wmp);
    cpu.execute(&mut bus, Instruction::Wrr);
    cpu.execute(&mut bus, Instruction::Rdr);
    assert_eq!(cpu.acc(), 0);
    let mut port: Port<Terminal> = Port::new();
    assert!(!port.has_device());
    port.write4(3);
    assert_eq!(port.read4(), 0);
    port.attach(Terminal::new());
    assert!(port.has_device());
}

#[test]
fn port_masks_values() {
    let written = Rc::new(RefCell::new(Vec::new()));
    let mut port = Port::new();
    port.attach(Probe { written: written.clone(), answer: 0xF7 });
    port.write4(0xAB);
    assert_eq!(*written.borrow(), vec![0xB]);
    assert_eq!(port.read4(), 0x7);
}

#[test]
fn terminal_pairs_nibbles() {
    let mut t = Terminal::new();
    assert_eq!(t.feed(0x4), None);
    assert_eq!(t.feed(0x8), Some(0x48));
    assert_eq!(t.feed(0x16), None);
    assert_eq!(t.feed(0x9), Some(0x69));
    t.write4(0x2);
    assert!(t.output().is_empty());
    t.write4(0x1);
    assert_eq!(t.output(), b"!");
}

#[test]
fn terminal_selection() {
    assert!(!wants_terminal(&[]));
    assert!(wants_terminal(&[Device::Terminal]));
    assert!(wants_terminal(&[Device::Terminal, Device::Terminal]));
}

/// Counts reads as well as writes.
struct Tally {
    written: Rc<RefCell<Vec<u8>>>,
    reads: Rc<RefCell<usize>>,
}

impl IoDevice for Tally {
    fn wrote(&self, _value4: u8, next: &Self) -> bool {
        Rc::ptr_eq(&next.written, &self.written)
    }

    fn answered(&self, r: u8, next: &Self) -> bool {
        r == 0x2 && Rc::ptr_eq(&next.reads, &self.reads)
    }

    fn write4(&mut self, value4: u8) {
        self.written.borrow_mut().push(value4);
    }

    fn read4(&mut self) -> u8 {
        *self.reads.borrow_mut() += 1;
        0x2
    }
}

#[test]
fn only_port_instructions_reach_devices() {
    let rom_w = Rc::new(RefCell::new(Vec::new()));
    let rom_r = Rc::new(RefCell::new(0usize));
    let ram_w = Rc::new(RefCell::new(Vec::new()));
    let ram_r = Rc::new(RefCell::new(0usize));
    let mut rom = Rom4001::from_bytes(&[]);
    rom.attach_port(Tally { written: rom_w.clone(), reads: rom_r.clone() });
    let mut data = DataRam4002::new();
    data.attach_port(Tally { written: ram_w.clone(), reads: ram_r.clone() });
    let mut bus = SimpleBus::new(rom, data);
    let mut cpu = Cpu::new();
    for i in [
        Instruction::Ldm { imm4: 0xA },
        Instruction::Unknown(0xFE),
        Instruction::Src { pair: 0 },
        Instruction::Wrm,
        Instruction::Wr1,
        Instruction::Rdm,
        Instruction::Ldm { imm4: 0xA },
        Instruction::Dcl,
        Instruction::Wpm,
    ] {
        cpu.execute(&mut bus, i);
    }
    assert!(rom_w.borrow().is_empty() && ram_w.borrow().is_empty());
    assert_eq!((*rom_r.borrow(), *ram_r.borrow()), (0, 0));
    cpu.execute(&mut bus, Instruction::Wmp);
    assert_eq!(*ram_w.borrow(), vec![0xA]);
    assert!(rom_w.borrow().is_empty());
    cpu.execute(&mut bus, Instruction::Ldm { imm4: 0x5 });
    cpu.execute(&mut bus, Instruction::Wrr);
    assert_eq!(*rom_w.borrow(), vec![0x5]);
    assert_eq!(*ram_w.borrow(), vec![0xA]);
    cpu.execute(&mut bus, Instruction::Rdr);
    assert_eq!(cpu.acc(), 0x2);
    assert_eq!((*rom_r.borrow(), *ram_r.borrow()), (1, 0));
}

#[test]
fn terminal_has_no_input() {
    let mut t = Terminal::new();
    t.write4(0x4);
    assert_eq!(t.read4(), 0);
    t.write4(0x8);
    assert_eq!(t.output(), b"H");
}
