use vstd::prelude::*;

verus! {

/// One decoded instruction of the 4-bit processor.
///
/// Register operands (`reg`) name one of the sixteen index registers; pair
/// operands (`pair`) name one of the eight register pairs.
#[derive(Debug, Clone, Copy, PartialEq, Eq, Structural)]
pub enum Instruction {
    Nop,
    Jcn { cond: u8, addr8: u8 },
    Fim { pair: usize, imm8: u8 },
    Src { pair: usize },
    Fin { pair: usize },
    Jin { pair: usize },
    Jun { addr12: u16 },
    Jms { addr12: u16 },
    Inc { reg: usize },
    Isz { reg: usize, addr8: u8 },
    Add { reg: usize },
    Sub { reg: usize },
    Ld { reg: usize },
    Xch { reg: usize },
    Bbl { imm4: u8 },
    Ldm { imm4: u8 },
    Wrm,
    Wmp,
    Wrr,
    Wpm,
    Wr0,
    Wr1,
    Wr2,
    Wr3,
    Sbm,
    Rdm,
    Rdr,
    Adm,
    Rd0,
    Rd1,
    Rd2,
    Rd3,
    Clb,
    Clc,
    Iac,
    Cmc,
    Cma,
    Ral,
    Rar,
    Tcc,
    Dac,
    Tcs,
    Stc,
    Daa,
    Kbp,
    Dcl,
    Unknown(u8),
}

/// Whether an opcode byte starts a two-byte instruction (JCN, FIM, JUN, JMS, ISZ).
pub open spec fn is_two_byte(byte: u8) -> bool {
    let opr = byte as int / 16;
    opr == 1 || opr == 4 || opr == 5 || opr == 7 || (opr == 2 && byte as int % 2 == 0)
}

/// The trailing byte handed to the decoder, or 0 where none was given.
pub open spec fn operand(next_byte: Option<u8>) -> u8 {
    match next_byte {
        Some(b) => b,
        None => 0,
    }
}

/// The instruction encoded by `byte`, with `next` as its trailing byte where
/// the instruction has one.
pub open spec fn spec_decode(byte: u8, next: u8) -> Instruction {
    let opr = byte as int / 16;
    let opa = byte as int % 16;
    if opr == 0 {
        if opa == 0 { Instruction::Nop } else { Instruction::Unknown(byte) }
    } else if opr == 1 {
        Instruction::Jcn { cond: opa as u8, addr8: next }
    } else if opr == 2 {
        if opa % 2 == 0 {
            Instruction::Fim { pair: (opa / 2) as usize, imm8: next }
        } else {
            Instruction::Src { pair: (opa / 2) as usize }
        }
    } else if opr == 3 {
        if opa % 2 == 0 {
            Instruction::Fin { pair: (opa / 2) as usize }
        } else {
            Instruction::Jin { pair: (opa / 2) as usize }
        }
    } else if opr == 4 {
        Instruction::Jun { addr12: (opa * 256 + next) as u16 }
    } else if opr == 5 {
        Instruction::Jms { addr12: (opa * 256 + next) as u16 }
    } else if opr == 6 {
        Instruction::Inc { reg: opa as usize }
    } else if opr == 7 {
        Instruction::Isz { reg: opa as usize, addr8: next }
    } else if opr == 8 {
        Instruction::Add { reg: opa as usize }
    } else if opr == 9 {
        Instruction::Sub { reg: opa as usize }
    } else if opr == 10 {
        Instruction::Ld { reg: opa as usize }
    } else if opr == 11 {
        Instruction::Xch { reg: opa as usize }
    } else if opr == 12 {
        Instruction::Bbl { imm4: opa as u8 }
    } else if opr == 13 {
        Instruction::Ldm { imm4: opa as u8 }
    } else if opr == 14 {
        spec_decode_io(opa)
    } else {
        spec_decode_acc(byte)
    }
}

/// The I/O and RAM group, opcodes 0xE0 to 0xEF, by their low nibble.
pub open spec fn spec_decode_io(opa: int) -> Instruction {
    if opa == 0 {
        Instruction::Wrm
    } else if opa == 1 {
        Instruction::Wmp
    } else if opa == 2 {
        Instruction::Wrr
    } else if opa == 3 {
        Instruction::Wpm
    } else if opa == 4 {
        Instruction::Wr0
    } else if opa == 5 {
        Instruction::Wr1
    } else if opa == 6 {
        Instruction::Wr2
    } else if opa == 7 {
        Instruction::Wr3
    } else if opa == 8 {
        Instruction::Sbm
    } else if opa == 9 {
        Instruction::Rdm
    } else if opa == 10 {
        Instruction::Rdr
    } else if opa == 11 {
        Instruction::Adm
    } else if opa == 12 {
        Instruction::Rd0
    } else if opa == 13 {
        Instruction::Rd1
    } else if opa == 14 {
        Instruction::Rd2
    } else {
        Instruction::Rd3
    }
}

/// The accumulator group, opcodes 0xF0 to 0xFD; 0xFE and 0xFF are unknown.
pub open spec fn spec_decode_acc(byte: u8) -> Instruction {
    let opa = byte as int % 16;
    if opa == 0 {
        Instruction::Clb
    } else if opa == 1 {
        Instruction::Clc
    } else if opa == 2 {
        Instruction::Iac
    } else if opa == 3 {
        Instruction::Cmc
    } else if opa == 4 {
        Instruction::Cma
    } else if opa == 5 {
        Instruction::Ral
    } else if opa == 6 {
        Instruction::Rar
    } else if opa == 7 {
        Instruction::Tcc
    } else if opa == 8 {
        Instruction::Dac
    } else if opa == 9 {
        Instruction::Tcs
    } else if opa == 10 {
        Instruction::Stc
    } else if opa == 11 {
        Instruction::Daa
    } else if opa == 12 {
        Instruction::Kbp
    } else if opa == 13 {
        Instruction::Dcl
    } else {
        Instruction::Unknown(byte)
    }
}

impl Instruction {
    /// Encoded size in bytes.
    pub open spec fn spec_size(self) -> usize {
        match self {
            Instruction::Jcn { .. } => 2,
            Instruction::Fim { .. } => 2,
            Instruction::Jun { .. } => 2,
            Instruction::Jms { .. } => 2,
            Instruction::Isz { .. } => 2,
            _ => 1,
        }
    }

    /// Every operand lies in its canonical range: conditions, registers and
    /// immediates are nibbles, pairs are below 8, addresses have 12 bits, and
    /// `Unknown` holds an opcode that no mnemonic uses.
    pub open spec fn wf(self) -> bool {
        match self {
            Instruction::Jcn { cond, .. } => cond < 16,
            Instruction::Fim { pair, .. } => pair < 8,
            Instruction::Src { pair } => pair < 8,
            Instruction::Fin { pair } => pair < 8,
            Instruction::Jin { pair } => pair < 8,
            Instruction::Jun { addr12 } => addr12 < 4096,
            Instruction::Jms { addr12 } => addr12 < 4096,
            Instruction::Inc { reg } => reg < 16,
            Instruction::Isz { reg, .. } => reg < 16,
            Instruction::Add { reg } => reg < 16,
            Instruction::Sub { reg } => reg < 16,
            Instruction::Ld { reg } => reg < 16,
            Instruction::Xch { reg } => reg < 16,
            Instruction::Bbl { imm4 } => imm4 < 16,
            Instruction::Ldm { imm4 } => imm4 < 16,
            Instruction::Unknown(b) => (1 <= b < 16) || b >= 0xFE,
            _ => true,
        }
    }

    /// The first byte of the instruction's encoding.
    pub open spec fn spec_opcode(self) -> int {
        match self {
            Instruction::Nop => 0x00,
            Instruction::Jcn { cond, .. } => 0x10 + cond,
            Instruction::Fim { pair, .. } => 0x20 + 2 * pair,
            Instruction::Src { pair } => 0x21 + 2 * pair,
            Instruction::Fin { pair } => 0x30 + 2 * pair,
            Instruction::Jin { pair } => 0x31 + 2 * pair,
            Instruction::Jun { addr12 } => 0x40 + addr12 as int / 256,
            Instruction::Jms { addr12 } => 0x50 + addr12 as int / 256,
            Instruction::Inc { reg } => 0x60 + reg,
            Instruction::Isz { reg, .. } => 0x70 + reg,
            Instruction::Add { reg } => 0x80 + reg,
            Instruction::Sub { reg } => 0x90 + reg,
            Instruction::Ld { reg } => 0xA0 + reg,
            Instruction::Xch { reg } => 0xB0 + reg,
            Instruction::Bbl { imm4 } => 0xC0 + imm4,
            Instruction::Ldm { imm4 } => 0xD0 + imm4,
            Instruction::Wrm => 0xE0,
            Instruction::Wmp => 0xE1,
            Instruction::Wrr => 0xE2,
            Instruction::Wpm => 0xE3,
            Instruction::Wr0 => 0xE4,
            Instruction::Wr1 => 0xE5,
            Instruction::Wr2 => 0xE6,
            Instruction::Wr3 => 0xE7,
            Instruction::Sbm => 0xE8,
            Instruction::Rdm => 0xE9,
            Instruction::Rdr => 0xEA,
            Instruction::Adm => 0xEB,
            Instruction::Rd0 => 0xEC,
            Instruction::Rd1 => 0xED,
            Instruction::Rd2 => 0xEE,
            Instruction::Rd3 => 0xEF,
            Instruction::Clb => 0xF0,
            Instruction::Clc => 0xF1,
            Instruction::Iac => 0xF2,
            Instruction::Cmc => 0xF3,
            Instruction::Cma => 0xF4,
            Instruction::Ral => 0xF5,
            Instruction::Rar => 0xF6,
            Instruction::Tcc => 0xF7,
            Instruction::Dac => 0xF8,
            Instruction::Tcs => 0xF9,
            Instruction::Stc => 0xFA,
            Instruction::Daa => 0xFB,
            Instruction::Kbp => 0xFC,
            Instruction::Dcl => 0xFD,
            Instruction::Unknown(b) => b as int,
        }
    }

    /// The trailing byte of a two-byte instruction's encoding (0 for the others).
    pub open spec fn spec_operand(self) -> int {
        match self {
            Instruction::Jcn { addr8, .. } => addr8 as int,
            Instruction::Fim { imm8, .. } => imm8 as int,
            Instruction::Jun { addr12 } => addr12 as int % 256,
            Instruction::Jms { addr12 } => addr12 as int % 256,
            Instruction::Isz { addr8, .. } => addr8 as int,
            _ => 0,
        }
    }

    /// Decodes the instruction whose first byte is `byte`; `next_byte` is the
    /// byte that follows it in program memory and must be present for the
    /// two-byte forms.
    pub fn decode(byte: u8, next_byte: Option<u8>) -> (r: Instruction)
        requires
            is_two_byte(byte) ==> next_byte is Some,
        ensures
            r == spec_decode(byte, operand(next_byte)),
    {
        let opr: u8 = byte / 16;
        let opa: u8 = byte % 16;
        let next: u8 = match next_byte {
            Some(b) => b,
            None => 0,
        };
        match opr {
            0x0 => if opa == 0 {
                Instruction::Nop
            } else {
                Instruction::Unknown(byte)
            },
            0x1 => Instruction::Jcn { cond: opa, addr8: next },
            0x2 => {
                let pair = (opa / 2) as usize;
                if opa % 2 == 0 {
                    Instruction::Fim { pair, imm8: next }
                } else {
                    Instruction::Src { pair }
                }
            },
            0x3 => {
                let pair = (opa / 2) as usize;
                if opa % 2 == 0 {
                    Instruction::Fin { pair }
                } else {
                    Instruction::Jin { pair }
                }
            },
            0x4 => Instruction::Jun { addr12: (opa as u16) * 256 + next as u16 },
            0x5 => Instruction::Jms { addr12: (opa as u16) * 256 + next as u16 },
            0x6 => Instruction::Inc { reg: opa as usize },
            0x7 => Instruction::Isz { reg: opa as usize, addr8: next },
            0x8 => Instruction::Add { reg: opa as usize },
            0x9 => Instruction::Sub { reg: opa as usize },
            0xA => Instruction::Ld { reg: opa as usize },
            0xB => Instruction::Xch { reg: opa as usize },
            0xC => Instruction::Bbl { imm4: opa },
            0xD => Instruction::Ldm { imm4: opa },
            0xE => match byte {
                0xE0 => Instruction::Wrm,
                0xE1 => Instruction::Wmp,
                0xE2 => Instruction::Wrr,
                0xE3 => Instruction::Wpm,
                0xE4 => Instruction::Wr0,
                0xE5 => Instruction::Wr1,
                0xE6 => Instruction::Wr2,
                0xE7 => Instruction::Wr3,
                0xE8 => Instruction::Sbm,
                0xE9 => Instruction::Rdm,
                0xEA => Instruction::Rdr,
                0xEB => Instruction::Adm,
                0xEC => Instruction::Rd0,
                0xED => Instruction::Rd1,
                0xEE => Instruction::Rd2,
                _ => Instruction::Rd3,
            },
            _ => match byte {
                0xF0 => Instruction::Clb,
                0xF1 => Instruction::Clc,
                0xF2 => Instruction::Iac,
                0xF3 => Instruction::Cmc,
                0xF4 => Instruction::Cma,
                0xF5 => Instruction::Ral,
                0xF6 => Instruction::Rar,
                0xF7 => Instruction::Tcc,
                0xF8 => Instruction::Dac,
                0xF9 => Instruction::Tcs,
                0xFA => Instruction::Stc,
                0xFB => Instruction::Daa,
                0xFC => Instruction::Kbp,
                0xFD => Instruction::Dcl,
                _ => Instruction::Unknown(byte),
            },
        }
    }

    /// Encoded size in bytes: 2 for JCN, FIM, JUN, JMS and ISZ, else 1.
    pub fn size(&self) -> (r: usize)
        ensures
            r == self.spec_size(),
    {
        match self {
            Instruction::Jcn { .. } => 2,
            Instruction::Fim { .. } => 2,
            Instruction::Jun { .. } => 2,
            Instruction::Jms { .. } => 2,
            Instruction::Isz { .. } => 2,
            _ => 1,
        }
    }
    /// Encodes a canonical instruction: its opcode byte, and its trailing
    /// byte for the two-byte forms.
    pub fn encode(&self) -> (r: (u8, Option<u8>))
        requires
            self.wf(),
        ensures
            r.0 == self.spec_opcode(),
            r.1 == (if self.spec_size() == 2 {
                Some(self.spec_operand() as u8)
            } else {
                None
            }),
    {
        match *self {
            Instruction::Nop => (0x00, None),
            Instruction::Jcn { cond, addr8 } => (0x10 + cond, Some(addr8)),
            Instruction::Fim { pair, imm8 } => (0x20 + 2 * pair as u8, Some(imm8)),
            Instruction::Src { pair } => (0x21 + 2 * pair as u8, None),
            Instruction::Fin { pair } => (0x30 + 2 * pair as u8, None),
            Instruction::Jin { pair } => (0x31 + 2 * pair as u8, None),
            Instruction::Jun { addr12 } => (0x40 + (addr12 / 256) as u8, Some((addr12 % 256) as u8)),
            Instruction::Jms { addr12 } => (0x50 + (addr12 / 256) as u8, Some((addr12 % 256) as u8)),
            Instruction::Inc { reg } => (0x60 + reg as u8, None),
            Instruction::Isz { reg, addr8 } => (0x70 + reg as u8, Some(addr8)),
            Instruction::Add { reg } => (0x80 + reg as u8, None),
            Instruction::Sub { reg } => (0x90 + reg as u8, None),
            Instruction::Ld { reg } => (0xA0 + reg as u8, None),
            Instruction::Xch { reg } => (0xB0 + reg as u8, None),
            Instruction::Bbl { imm4 } => (0xC0 + imm4, None),
            Instruction::Ldm { imm4 } => (0xD0 + imm4, None),
            Instruction::Wrm => (0xE0, None),
            Instruction::Wmp => (0xE1, None),
            Instruction::Wrr => (0xE2, None),
            Instruction::Wpm => (0xE3, None),
            Instruction::Wr0 => (0xE4, None),
            Instruction::Wr1 => (0xE5, None),
            Instruction::Wr2 => (0xE6, None),
            Instruction::Wr3 => (0xE7, None),
            Instruction::Sbm => (0xE8, None),
            Instruction::Rdm => (0xE9, None),
            Instruction::Rdr => (0xEA, None),
            Instruction::Adm => (0xEB, None),
            Instruction::Rd0 => (0xEC, None),
            Instruction::Rd1 => (0xED, None),
            Instruction::Rd2 => (0xEE, None),
            Instruction::Rd3 => (0xEF, None),
            Instruction::Clb => (0xF0, None),
            Instruction::Clc => (0xF1, None),
            Instruction::Iac => (0xF2, None),
            Instruction::Cmc => (0xF3, None),
            Instruction::Cma => (0xF4, None),
            Instruction::Ral => (0xF5, None),
            Instruction::Rar => (0xF6, None),
            Instruction::Tcc => (0xF7, None),
            Instruction::Dac => (0xF8, None),
            Instruction::Tcs => (0xF9, None),
            Instruction::Stc => (0xFA, None),
            Instruction::Daa => (0xFB, None),
            Instruction::Kbp => (0xFC, None),
            Instruction::Dcl => (0xFD, None),
            Instruction::Unknown(b) => (b, None),
        }
    }
}

/// Decoding the encoding of a canonical instruction gives the instruction
/// back, and the decoder asks for a trailing byte exactly when the
/// instruction has one.
pub proof fn lemma_decode_encode(i: Instruction)
    requires
        i.wf(),
    ensures
        0 <= i.spec_opcode() < 256,
        0 <= i.spec_operand() < 256,
        is_two_byte(i.spec_opcode() as u8) == (i.spec_size() == 2),
        spec_decode(i.spec_opcode() as u8, i.spec_operand() as u8) == i,
{
}

/// Every decoded instruction is canonical and encodes back to the bytes it
/// was decoded from (the trailing byte only where it was used).
pub proof fn lemma_encode_decode(byte: u8, next: u8)
    ensures
        spec_decode(byte, next).wf(),
        spec_decode(byte, next).spec_opcode() == byte,
        (spec_decode(byte, next).spec_size() == 2) == is_two_byte(byte),
        is_two_byte(byte) ==> spec_decode(byte, next).spec_operand() == next,
{
}

} // verus!
