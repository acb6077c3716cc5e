//! Command-line choices that the emulator itself interprets.

use vstd::prelude::*;

verus! {

/// A device that can be plugged in at start-up.
#[derive(Clone, Copy, Debug, PartialEq, Eq, Structural)]
pub enum Device {
    /// A character sink on the data memory's output port.
    Terminal,
}

/// Whether a terminal was asked for.
pub fn wants_terminal(devices: &[Device]) -> (r: bool)
    ensures
        r == exists|i: int| 0 <= i < devices@.len() && devices@[i] == Device::Terminal,
{
    let mut i: usize = 0;
    while i < devices.len()
        invariant
            i <= devices@.len(),
            forall|j: int| 0 <= j < i ==> devices@[j] != Device::Terminal,
        decreases devices@.len() - i,
    {
        if devices[i] == Device::Terminal {
            return true;
        }
        i = i + 1;
    }
    false
}

/// The built-in program: print "Hi" through the data memory's port, then call
/// a subroutine at 0x018 that increments the accumulator, and jump to 0x028,
/// which loads 5.
pub open spec fn demo_image() -> Seq<u8> {
    seq![
        0xD4u8, 0xE1, 0xD8, 0xE1, 0xD6, 0xE1, 0xD9, 0xE1,  // LDM 4, WMP, LDM 8, WMP, LDM 6, WMP, LDM 9, WMP
        0xD0, 0x50, 0x18, 0x40, 0x28,  // 008: LDM 0; 009: JMS 0x018; 00B: JUN 0x028
        0x00, 0x00, 0x00, 0x00, 0x00, 0x00, 0x00, 0x00, 0x00, 0x00, 0x00,
        0xF2, 0xC0,  // 018: IAC; 019: BBL 0
        0x00, 0x00, 0x00, 0x00, 0x00, 0x00, 0x00, 0x00, 0x00, 0x00, 0x00, 0x00, 0x00, 0x00,
        0xD5,  // 028: LDM 5
    ]
}

/// The built-in program image; see `demo_image`.
pub fn demo_rom() -> (r: Vec<u8>)
    ensures
        r@ == demo_image(),
{
    let r = vec![
        0xD4u8, 0xE1, 0xD8, 0xE1, 0xD6, 0xE1, 0xD9, 0xE1,
        0xD0, 0x50, 0x18, 0x40, 0x28,
        0x00, 0x00, 0x00, 0x00, 0x00, 0x00, 0x00, 0x00, 0x00, 0x00, 0x00,
        0xF2, 0xC0,
        0x00, 0x00, 0x00, 0x00, 0x00, 0x00, 0x00, 0x00, 0x00, 0x00, 0x00, 0x00, 0x00, 0x00,
        0xD5,
    ];
    assert(r@ =~= demo_image());
    r
}

} // verus!
