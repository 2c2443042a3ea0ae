//! Builders for classic BPF filter instructions: each returns exactly
//! the opcode, branch offsets and operand that a BSD packet filter
//! expects for that operation.
#![allow(non_camel_case_types)]

use vstd::prelude::*;

verus! {

/// One classic BPF filter instruction, as the kernel's packet filter
/// takes it: an opcode, two branch offsets and an immediate operand.
#[derive(PartialEq, Eq, Structural, Copy, Clone, Debug)]
pub struct bpf_insn {
    pub code: u16,
    pub jt: u8,
    pub jf: u8,
    pub k: u32,
}

pub fn ldaw_abs(pktaddr: u32) -> (r: bpf_insn)
    ensures
        r == (bpf_insn { code: 0x20, jt: 0, jf: 0, k: pktaddr }),
{
    bpf_insn { code: 0x20, jt: 0, jf: 0, k: pktaddr }
}

pub fn ldah_abs(pktaddr: u32) -> (r: bpf_insn)
    ensures
        r == (bpf_insn { code: 0x28, jt: 0, jf: 0, k: pktaddr }),
{
    bpf_insn { code: 0x28, jt: 0, jf: 0, k: pktaddr }
}

pub fn ldab_abs(pktaddr: u32) -> (r: bpf_insn)
    ensures
        r == (bpf_insn { code: 0x30, jt: 0, jf: 0, k: pktaddr }),
{
    bpf_insn { code: 0x30, jt: 0, jf: 0, k: pktaddr }
}

pub fn ldaw_ind(pktaddr: u32) -> (r: bpf_insn)
    ensures
        r == (bpf_insn { code: 0x40, jt: 0, jf: 0, k: pktaddr }),
{
    bpf_insn { code: 0x40, jt: 0, jf: 0, k: pktaddr }
}

pub fn ldah_ind(pktaddr: u32) -> (r: bpf_insn)
    ensures
        r == (bpf_insn { code: 0x48, jt: 0, jf: 0, k: pktaddr }),
{
    bpf_insn { code: 0x48, jt: 0, jf: 0, k: pktaddr }
}

pub fn ldab_ind(pktaddr: u32) -> (r: bpf_insn)
    ensures
        r == (bpf_insn { code: 0x50, jt: 0, jf: 0, k: pktaddr }),
{
    bpf_insn { code: 0x50, jt: 0, jf: 0, k: pktaddr }
}

pub fn lda_len() -> (r: bpf_insn)
    ensures
        r == (bpf_insn { code: 0x80, jt: 0, jf: 0, k: 0 }),
{
    bpf_insn { code: 0x80, jt: 0, jf: 0, k: 0 }
}

pub fn lda_imm(k: u32) -> (r: bpf_insn)
    ensures
        r == (bpf_insn { code: 0x00, jt: 0, jf: 0, k: k }),
{
    bpf_insn { code: 0x00, jt: 0, jf: 0, k: k }
}

pub fn lda_mem(memaddr: u32) -> (r: bpf_insn)
    ensures
        r == (bpf_insn { code: 0x60, jt: 0, jf: 0, k: memaddr }),
{
    bpf_insn { code: 0x60, jt: 0, jf: 0, k: memaddr }
}

pub fn ldx_len() -> (r: bpf_insn)
    ensures
        r == (bpf_insn { code: 0x81, jt: 0, jf: 0, k: 0 }),
{
    bpf_insn { code: 0x81, jt: 0, jf: 0, k: 0 }
}

pub fn ldx_imm(imm: u32) -> (r: bpf_insn)
    ensures
        r == (bpf_insn { code: 0x01, jt: 0, jf: 0, k: imm }),
{
    bpf_insn { code: 0x01, jt: 0, jf: 0, k: imm }
}

pub fn ldx_mem(memaddr: u32) -> (r: bpf_insn)
    ensures
        r == (bpf_insn { code: 0x61, jt: 0, jf: 0, k: memaddr }),
{
    bpf_insn { code: 0x61, jt: 0, jf: 0, k: memaddr }
}

pub fn ldx_msh(pktaddr: u32) -> (r: bpf_insn)
    ensures
        r == (bpf_insn { code: 0xb1, jt: 0, jf: 0, k: pktaddr }),
{
    bpf_insn { code: 0xb1, jt: 0, jf: 0, k: pktaddr }
}

pub fn sta_mem(memaddr: u32) -> (r: bpf_insn)
    ensures
        r == (bpf_insn { code: 0x00, jt: 0, jf: 0, k: memaddr }),
{
    bpf_insn { code: 0x00, jt: 0, jf: 0, k: memaddr }
}

pub fn stx_mem(memaddr: u32) -> (r: bpf_insn)
    ensures
        r == (bpf_insn { code: 0x03, jt: 0, jf: 0, k: memaddr }),
{
    bpf_insn { code: 0x03, jt: 0, jf: 0, k: memaddr }
}

pub fn add(k: u32) -> (r: bpf_insn)
    ensures
        r == (bpf_insn { code: 0x04, jt: 0, jf: 0, k: k }),
{
    bpf_insn { code: 0x04, jt: 0, jf: 0, k: k }
}

pub fn sub(k: u32) -> (r: bpf_insn)
    ensures
        r == (bpf_insn { code: 0x14, jt: 0, jf: 0, k: k }),
{
    bpf_insn { code: 0x14, jt: 0, jf: 0, k: k }
}

pub fn mul(k: u32) -> (r: bpf_insn)
    ensures
        r == (bpf_insn { code: 0x24, jt: 0, jf: 0, k: k }),
{
    bpf_insn { code: 0x24, jt: 0, jf: 0, k: k }
}

pub fn div(k: u32) -> (r: bpf_insn)
    ensures
        r == (bpf_insn { code: 0x34, jt: 0, jf: 0, k: k }),
{
    bpf_insn { code: 0x34, jt: 0, jf: 0, k: k }
}

pub fn or(k: u32) -> (r: bpf_insn)
    ensures
        r == (bpf_insn { code: 0x44, jt: 0, jf: 0, k: k }),
{
    bpf_insn { code: 0x44, jt: 0, jf: 0, k: k }
}

pub fn and(k: u32) -> (r: bpf_insn)
    ensures
        r == (bpf_insn { code: 0x54, jt: 0, jf: 0, k: k }),
{
    bpf_insn { code: 0x54, jt: 0, jf: 0, k: k }
}

pub fn lsh(k: u32) -> (r: bpf_insn)
    ensures
        r == (bpf_insn { code: 0x64, jt: 0, jf: 0, k: k }),
{
    bpf_insn { code: 0x64, jt: 0, jf: 0, k: k }
}

pub fn rsh(k: u32) -> (r: bpf_insn)
    ensures
        r == (bpf_insn { code: 0x74, jt: 0, jf: 0, k: k }),
{
    bpf_insn { code: 0x74, jt: 0, jf: 0, k: k }
}

pub fn addx() -> (r: bpf_insn)
    ensures
        r == (bpf_insn { code: 0x0c, jt: 0, jf: 0, k: 0 }),
{
    bpf_insn { code: 0x0c, jt: 0, jf: 0, k: 0 }
}

pub fn subx() -> (r: bpf_insn)
    ensures
        r == (bpf_insn { code: 0x1c, jt: 0, jf: 0, k: 0 }),
{
    bpf_insn { code: 0x1c, jt: 0, jf: 0, k: 0 }
}

pub fn mulx() -> (r: bpf_insn)
    ensures
        r == (bpf_insn { code: 0x2c, jt: 0, jf: 0, k: 0 }),
{
    bpf_insn { code: 0x2c, jt: 0, jf: 0, k: 0 }
}

pub fn divx() -> (r: bpf_insn)
    ensures
        r == (bpf_insn { code: 0x3c, jt: 0, jf: 0, k: 0 }),
{
    bpf_insn { code: 0x3c, jt: 0, jf: 0, k: 0 }
}

pub fn orx() -> (r: bpf_insn)
    ensures
        r == (bpf_insn { code: 0x4c, jt: 0, jf: 0, k: 0 }),
{
    bpf_insn { code: 0x4c, jt: 0, jf: 0, k: 0 }
}

pub fn andx() -> (r: bpf_insn)
    ensures
        r == (bpf_insn { code: 0x5c, jt: 0, jf: 0, k: 0 }),
{
    bpf_insn { code: 0x5c, jt: 0, jf: 0, k: 0 }
}

pub fn lshx() -> (r: bpf_insn)
    ensures
        r == (bpf_insn { code: 0x6c, jt: 0, jf: 0, k: 0 }),
{
    bpf_insn { code: 0x6c, jt: 0, jf: 0, k: 0 }
}

pub fn rshx() -> (r: bpf_insn)
    ensures
        r == (bpf_insn { code: 0x7c, jt: 0, jf: 0, k: 0 }),
{
    bpf_insn { code: 0x7c, jt: 0, jf: 0, k: 0 }
}

pub fn neg() -> (r: bpf_insn)
    ensures
        r == (bpf_insn { code: 0x84, jt: 0, jf: 0, k: 0 }),
{
    bpf_insn { code: 0x84, jt: 0, jf: 0, k: 0 }
}

pub fn jmp(k: u32) -> (r: bpf_insn)
    ensures
        r == (bpf_insn { code: 0x05, jt: 0, jf: 0, k: k }),
{
    bpf_insn { code: 0x05, jt: 0, jf: 0, k: k }
}

pub fn jeq(jt: u8, jf: u8, k: u32) -> (r: bpf_insn)
    ensures
        r == (bpf_insn { code: 0x15, jt, jf, k }),
{
    bpf_insn { code: 0x15, jt, jf, k }
}

pub fn jgt(jt: u8, jf: u8, k: u32) -> (r: bpf_insn)
    ensures
        r == (bpf_insn { code: 0x25, jt, jf, k }),
{
    bpf_insn { code: 0x25, jt, jf, k }
}

pub fn jge(jt: u8, jf: u8, k: u32) -> (r: bpf_insn)
    ensures
        r == (bpf_insn { code: 0x35, jt, jf, k }),
{
    bpf_insn { code: 0x35, jt, jf, k }
}

pub fn jset(jt: u8, jf: u8, k: u32) -> (r: bpf_insn)
    ensures
        r == (bpf_insn { code: 0x45, jt, jf, k }),
{
    bpf_insn { code: 0x45, jt, jf, k }
}

pub fn jeqx(jt: u8, jf: u8) -> (r: bpf_insn)
    ensures
        r == (bpf_insn { code: 0x1d, jt, jf, k: 0 }),
{
    bpf_insn { code: 0x1d, jt, jf, k: 0 }
}

pub fn jgtx(jt: u8, jf: u8) -> (r: bpf_insn)
    ensures
        r == (bpf_insn { code: 0x2d, jt, jf, k: 0 }),
{
    bpf_insn { code: 0x2d, jt, jf, k: 0 }
}

pub fn jgex(jt: u8, jf: u8) -> (r: bpf_insn)
    ensures
        r == (bpf_insn { code: 0x3d, jt, jf, k: 0 }),
{
    bpf_insn { code: 0x3d, jt, jf, k: 0 }
}

pub fn jsetx(jt: u8, jf: u8) -> (r: bpf_insn)
    ensures
        r == (bpf_insn { code: 0x4d, jt, jf, k: 0 }),
{
    bpf_insn { code: 0x4d, jt, jf, k: 0 }
}

pub fn ret(k: u32) -> (r: bpf_insn)
    ensures
        r == (bpf_insn { code: 0x06, jt: 0, jf: 0, k: k }),
{
    bpf_insn { code: 0x06, jt: 0, jf: 0, k: k }
}

pub fn reta() -> (r: bpf_insn)
    ensures
        r == (bpf_insn { code: 0x16, jt: 0, jf: 0, k: 0 }),
{
    bpf_insn { code: 0x16, jt: 0, jf: 0, k: 0 }
}

pub fn tax() -> (r: bpf_insn)
    ensures
        r == (bpf_insn { code: 0x07, jt: 0, jf: 0, k: 0 }),
{
    bpf_insn { code: 0x07, jt: 0, jf: 0, k: 0 }
}

pub fn txa() -> (r: bpf_insn)
    ensures
        r == (bpf_insn { code: 0x0f, jt: 0, jf: 0, k: 0 }),
{
    bpf_insn { code: 0x0f, jt: 0, jf: 0, k: 0 }
}

} // verus!
