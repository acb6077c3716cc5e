use vstd::prelude::*;

verus! {

/// A peripheral plugged into a 4-bit I/O port.
///
/// Devices see only nibbles: the port masks every value before handing it on,
/// and masks what a device returns. Each device states what a write and a
/// read do to it through `wrote` and `answered`.
pub trait IoDevice {
    /// `next` is this device after it received the nibble `value4`.
    spec fn wrote(&self, value4: u8, next: &Self) -> bool;

    /// `next` is this device after a read that returned `r`.
    spec fn answered(&self, r: u8, next: &Self) -> bool;

    /// Receives a nibble written to the port.
    fn write4(&mut self, value4: u8)
        requires
            value4 < 16,
        ensures
            old(self).wrote(value4, final(self)),
    ;

    /// Supplies a nibble when the port is read; a device without input
    /// answers 0.
    fn read4(&mut self) -> (r: u8)
        ensures
            old(self).answered(r, final(self)),
    ;
}

/// A character sink that pairs nibbles into bytes: the first nibble written
/// is held as the high half, the second completes the byte.
pub struct Terminal {
    half: Option<u8>,
    out: Vec<u8>,
}

/// What a terminal holds: the pending high nibble, if any, and every byte it
/// has assembled so far.
pub struct TerminalView {
    pub half: Option<u8>,
    pub out: Seq<u8>,
}

/// The byte assembled from a high and a low nibble.
pub open spec fn assemble(hi: u8, lo: u8) -> u8 {
    ((hi as int % 16) * 16 + lo as int % 16) as u8
}

impl View for Terminal {
    type V = TerminalView;

    closed spec fn view(&self) -> TerminalView {
        TerminalView { half: self.half, out: self.out@ }
    }
}

impl Terminal {
    /// A terminal with no pending nibble and no output.
    pub fn new() -> (r: Terminal)
        ensures
            r@.half is None,
            r@.out == Seq::<u8>::empty(),
    {
        Terminal { half: None, out: Vec::new() }
    }

    /// Takes one nibble. The first of a pair is latched and nothing is
    /// returned; the second returns the assembled byte and clears the latch.
    pub fn feed(&mut self, value4: u8) -> (r: Option<u8>)
        ensures
            final(self)@.out == old(self)@.out,
            match old(self)@.half {
                None => r is None && final(self)@.half == Some((value4 % 16) as u8),
                Some(hi) => r == Some(assemble(hi, value4)) && final(self)@.half is None,
            },
    {
        let lo = value4 % 16;
        match self.half {
            None => {
                self.half = Some(lo);
                None
            },
            Some(hi) => {
                self.half = None;
                Some((hi % 16) * 16 + lo)
            },
        }
    }

    /// Every byte assembled so far, oldest first.
    pub fn output(&self) -> (r: &[u8])
        ensures
            r@ == self@.out,
    {
        self.out.as_slice()
    }
}

impl IoDevice for Terminal {
    /// The first nibble of a pair is latched; the second appends the
    /// assembled byte to the output and clears the latch.
    open spec fn wrote(&self, value4: u8, next: &Self) -> bool {
        match self@.half {
            None => next@.half == Some(value4) && next@.out == self@.out,
            Some(hi) => next@.half is None && next@.out == self@.out.push(assemble(hi, value4)),
        }
    }

    /// A terminal has no input: it reads as 0 and is left as it was.
    open spec fn answered(&self, r: u8, next: &Self) -> bool {
        r == 0 && next@ == self@
    }

    fn write4(&mut self, value4: u8) {
        if let Some(byte) = self.feed(value4) {
            self.out.push(byte);
        }
    }

    fn read4(&mut self) -> (r: u8) {
        0
    }
}

impl Default for Terminal {
    fn default() -> (r: Terminal)
        ensures
            r@.half is None,
            r@.out == Seq::<u8>::empty(),
    {
        Terminal::new()
    }
}

} // verus!
