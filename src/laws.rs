//! Algebraic facts about single instructions and short instruction
//! sequences, stated over the processor model that `Cpu::execute` follows.

use vstd::prelude::*;

use crate::cpu::{bit, exec, exec_ram, CpuView};
use crate::isa::Instruction;
use crate::ram::RamView;

verus! {

/// CLB twice has the effect of CLB once, on the processor and on data memory.
pub proof fn lemma_clb_idempotent(s: CpuView, ram: RamView, rom: Seq<u8>, input: u8)
    ensures
        exec(exec(s, Instruction::Clb, ram, rom, input), Instruction::Clb, ram, rom, input) == exec(
            s,
            Instruction::Clb,
            ram,
            rom,
            input,
        ),
        exec_ram(s, Instruction::Clb, ram) == ram,
{
}

/// CLC twice has the effect of CLC once, on the processor and on data memory.
pub proof fn lemma_clc_idempotent(s: CpuView, ram: RamView, rom: Seq<u8>, input: u8)
    ensures
        exec(exec(s, Instruction::Clc, ram, rom, input), Instruction::Clc, ram, rom, input) == exec(
            s,
            Instruction::Clc,
            ram,
            rom,
            input,
        ),
        exec_ram(s, Instruction::Clc, ram) == ram,
{
}

/// CMC twice leaves the processor as it was.
pub proof fn lemma_cmc_involution(s: CpuView, ram: RamView, rom: Seq<u8>, input: u8)
    ensures
        exec(exec(s, Instruction::Cmc, ram, rom, input), Instruction::Cmc, ram, rom, input) == s,
{
}

/// CMA twice leaves the processor as it was.
pub proof fn lemma_cma_involution(s: CpuView, ram: RamView, rom: Seq<u8>, input: u8)
    requires
        s.acc < 16,
    ensures
        exec(exec(s, Instruction::Cma, ram, rom, input), Instruction::Cma, ram, rom, input) == s,
{
}

/// XCH with the same register twice leaves the processor as it was.
pub proof fn lemma_xch_involution(s: CpuView, reg: usize, ram: RamView, rom: Seq<u8>, input: u8)
    requires
        s.wf(),
        reg < 16,
    ensures
        exec(
            exec(s, Instruction::Xch { reg }, ram, rom, input),
            Instruction::Xch { reg },
            ram,
            rom,
            input,
        ) == s,
{
    let t = exec(s, Instruction::Xch { reg }, ram, rom, input);
    let u = exec(t, Instruction::Xch { reg }, ram, rom, input);
    assert(u.r =~= s.r);
}

/// RAR right after RAL restores the accumulator and the carry, and with them
/// the whole processor.
pub proof fn lemma_ral_rar_inverse(s: CpuView, ram: RamView, rom: Seq<u8>, input: u8)
    requires
        s.acc < 16,
    ensures
        exec(exec(s, Instruction::Ral, ram, rom, input), Instruction::Rar, ram, rom, input) == s,
{
    let a = s.acc as int;
    let c = bit(s.cy);
    let h: int = if a >= 8 {
        1
    } else {
        0
    };
    assert((a * 2) % 16 == 2 * a - 16 * h);
    let rotated = 2 * a - 16 * h + c;
    assert(rotated / 2 == a - 8 * h);
    assert(rotated % 2 == c);
    let t = exec(s, Instruction::Ral, ram, rom, input);
    assert(t.acc == rotated);
    assert(t.cy == (h == 1));
}

/// ADD of nibbles `a` (accumulator) and `b` (register) with carry-in `c`
/// leaves `(a + b + c) mod 16` in the accumulator and sets the carry exactly
/// when `a + b + c >= 16`.
pub proof fn lemma_add_arith(s: CpuView, reg: usize, ram: RamView, rom: Seq<u8>, input: u8)
    requires
        s.wf(),
        reg < 16,
    ensures
        ({
            let a = s.acc as int;
            let b = s.r[reg as int] as int;
            let c = bit(s.cy);
            let n = exec(s, Instruction::Add { reg }, ram, rom, input);
            &&& n.acc == (a + b + c) % 16
            &&& n.cy == (a + b + c >= 16)
        }),
{
}

/// SUB of register `b` from accumulator `a` with carry-in `c` adds the
/// complement: it leaves `(a + (15 - b) + c) mod 16` in the accumulator and
/// sets the carry (no borrow) exactly when `a + (15 - b) + c >= 16`.
pub proof fn lemma_sub_arith(s: CpuView, reg: usize, ram: RamView, rom: Seq<u8>, input: u8)
    requires
        s.wf(),
        reg < 16,
    ensures
        ({
            let a = s.acc as int;
            let b = s.r[reg as int] as int;
            let c = bit(s.cy);
            let n = exec(s, Instruction::Sub { reg }, ram, rom, input);
            &&& n.acc == (a + (15 - b) + c) % 16
            &&& n.cy == (a + (15 - b) + c >= 16)
        }),
{
}

/// KBP maps 0, 1, 2, 4 and 8 to 0, 1, 2, 3 and 4, and every other nibble to
/// 0xF.
pub proof fn lemma_kbp_mapping(s: CpuView, ram: RamView, rom: Seq<u8>, input: u8)
    ensures
        ({
            let a = s.acc;
            let r = exec(s, Instruction::Kbp, ram, rom, input).acc;
            &&& a == 0 ==> r == 0
            &&& a == 1 ==> r == 1
            &&& a == 2 ==> r == 2
            &&& a == 4 ==> r == 3
            &&& a == 8 ==> r == 4
            &&& (a != 0 && a != 1 && a != 2 && a != 4 && a != 8) ==> r == 15
        }),
{
}

/// DAA adds 6 to the accumulator (modulo 16) when the carry is set or the
/// accumulator exceeds 9, and then sets the carry if the addition overflowed
/// (it never clears it); otherwise it changes nothing.
pub proof fn lemma_daa(s: CpuView, ram: RamView, rom: Seq<u8>, input: u8)
    ensures
        ({
            let n = exec(s, Instruction::Daa, ram, rom, input);
            if s.cy || s.acc > 9 {
                &&& n.acc == (s.acc + 6) % 16
                &&& n.cy == (s.cy || s.acc + 6 >= 16)
            } else {
                n == s
            }
        }),
{
}

/// The return stack holds three addresses. After three calls, a return goes
/// back to the address saved by the third call; after a fourth call, which
/// overwrites the oldest slot, the next return goes back to the address saved
/// by the fourth.
///
/// Each call is a two-byte JMS and the return a one-byte BBL, so the program
/// counter moves past each instruction before it executes.
pub proof fn lemma_stack_wrap(
    s: CpuView,
    a: u16,
    b: u16,
    c: u16,
    d: u16,
    ram: RamView,
    rom: Seq<u8>,
    input: u8,
)
    requires
        s.wf(),
    ensures
        ({
            let s1 = exec(s.advance(2), Instruction::Jms { addr12: a }, ram, rom, input);
            let s2 = exec(s1.advance(2), Instruction::Jms { addr12: b }, ram, rom, input);
            let s3 = exec(s2.advance(2), Instruction::Jms { addr12: c }, ram, rom, input);
            let s4 = exec(s3.advance(2), Instruction::Jms { addr12: d }, ram, rom, input);
            &&& exec(s3.advance(1), Instruction::Bbl { imm4: 0 }, ram, rom, input).pc == s2.advance(
                2,
            ).pc
            &&& exec(s4.advance(1), Instruction::Bbl { imm4: 0 }, ram, rom, input).pc == s3.advance(
                2,
            ).pc
        }),
{
}

} // verus!
