use msc4::bus::SimpleBus;
use msc4::cli::demo_rom;
use msc4::dev::Terminal;
use msc4::ram::DataRam4002;
use msc4::rom::Rom4001;
use msc4::Msc4;

type System = Msc4<SimpleBus<Terminal, Terminal>>;

fn system(image: &[u8]) -> System {
    Msc4::new(SimpleBus::new(Rom4001::from_bytes(image), DataRam4002::new()))
}

fn image_at(parts: &[(usize, &[u8])]) -> Vec<u8> {
    let mut img = vec![0u8; 4096];
    for (addr, bytes) in parts {
        img[*addr..*addr + bytes.len()].copy_from_slice(bytes);
    }
    img
}

#[test]
fn empty_program_runs_nops() {
    let mut m = system(&[0u8; 4096]);
    m.run_steps(100);
    let cpu = m.cpu();
    assert_eq!(cpu.pc(), 100);
    assert_eq!(cpu.acc(), 0);
    assert!(!cpu.cy());
    for i in 0..16 {
        assert_eq!(cpu.reg(i), 0);
    }
}

#[test]
fn increment_and_wrap() {
    // LDM 0xF; IAC
    let mut m = system(&[0xDF, 0xF2]);
    m.run_steps(2);
    assert_eq!(m.cpu().acc(), 0);
    assert!(m.cpu().cy());
    assert_eq!(m.cpu().pc(), 2);
}

#[test]
fn call_and_return() {
    let img = image_at(&[
        (0x000, &[0xD0]),       // LDM 0
        (0x001, &[0x50, 0x10]), // JMS 0x010
        (0x003, &[0x40, 0x20]), // JUN 0x020
        (0x010, &[0xF2]),       // IAC
        (0x011, &[0xC0]),       // BBL 0
        (0x020, &[0xD5]),       // LDM 5
    ]);
    let mut m = system(&img);
    m.run_steps(6);
    assert_eq!(m.cpu().acc(), 5);
    assert_eq!(m.cpu().pc(), 0x021);
}

#[test]
fn hi_through_the_ram_port() {
    let img = [0xD4, 0xE1, 0xD8, 0xE1, 0xD6, 0xE1, 0xD9, 0xE1];
    let mut data = DataRam4002::new();
    data.attach_port(Terminal::new());
    let mut m: System = Msc4::new(SimpleBus::new(Rom4001::from_bytes(&img), data));
    m.run_steps(8);
    let term = m.bus().data.port().device().expect("terminal attached");
    assert_eq!(term.output(), b"Hi");
    assert_eq!(term.output(), &[0x48, 0x69]);
}

#[test]
fn isz_loop_counts_sixteen() {
    let img = image_at(&[
        (0x000, &[0x40, 0x10]), // JUN 0x010
        (0x010, &[0x73, 0x10]), // ISZ 3, 0x10
    ]);
    let mut m = system(&img);
    m.run_steps(1);
    assert_eq!(m.cpu().pc(), 0x010);
    for k in 1..16u8 {
        m.run_steps(1);
        assert_eq!(m.cpu().reg(3), k);
        assert_eq!(m.cpu().pc(), 0x010);
    }
    m.run_steps(1);
    assert_eq!(m.cpu().reg(3), 0);
    assert_eq!(m.cpu().pc(), 0x012);
}

#[test]
fn jin_crosses_page() {
    let img = image_at(&[
        (0x000, &[0x20, 0xAB]), // FIM pair 0, 0xAB
        (0x002, &[0x40, 0xFF]), // JUN 0x0FF
        (0x0FF, &[0x31]),       // JIN pair 0
    ]);
    let mut m = system(&img);
    m.run_steps(2);
    assert_eq!(m.cpu().reg(0), 0xA);
    assert_eq!(m.cpu().reg(1), 0xB);
    assert_eq!(m.cpu().pc(), 0x0FF);
    m.run_steps(1);
    assert_eq!(m.cpu().pc(), 0x1AB);
}

#[test]
fn demo_program_prints_and_returns() {
    let mut data = DataRam4002::new();
    data.attach_port(Terminal::new());
    let mut m: System = Msc4::new(SimpleBus::new(Rom4001::from_bytes(&demo_rom()), data));
    // 8 port writes, LDM 0, JMS, IAC, BBL, JUN, LDM 5
    m.run_steps(14);
    assert_eq!(m.bus().data.port().device().unwrap().output(), b"Hi");
    assert_eq!(m.cpu().acc(), 5);
    assert_eq!(m.cpu().pc(), 0x029);
}

#[test]
fn invariants_hold_on_every_step() {
    let mut img: Vec<u8> = (0..4096u32).map(|i| (i.wrapping_mul(2654435761) >> 13) as u8).collect();
    img[0] = 0xD7;
    let mut m = system(&img);
    for _ in 0..2000 {
        m.run_steps(1);
        let cpu = m.cpu();
        assert!(cpu.acc() < 16);
        assert!(cpu.pc() < 4096);
        assert!(cpu.sp() < 3);
        for i in 0..16 {
            assert!(cpu.reg(i) < 16);
        }
        for i in 0..3 {
            assert!(cpu.stack_slot(i) < 4096);
        }
    }
    for a in 0..4096u16 {
        assert_eq!(m.bus().prog.read_byte(a), img[a as usize]);
    }
}
