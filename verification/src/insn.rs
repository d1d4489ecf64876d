//! Classic filter bytecode instructions and their bit-exact wire layout.
//!
//! The native compiler consumes instructions as packed 8-byte records:
//! opcode (two bytes, least significant first), the two branch
//! displacements (one byte each), then the 32-bit operand (four bytes,
//! least significant first), with no padding. The functions here pin
//! that layout down exactly.

use vstd::prelude::*;

verus! {

/// One classic filter bytecode instruction: an opcode, the displacements
/// of the branch taken when the comparison holds (`jt`) and when it
/// fails (`jf`), and a 32-bit immediate operand. Instructions are plain
/// immutable records; this crate never interprets their semantics.
#[allow(non_camel_case_types)]
#[derive(Clone, Copy)]
pub struct bpf_insn {
    /// Opcode.
    pub code: u16,
    /// Branch displacement taken when the comparison holds.
    pub jt: u8,
    /// Branch displacement taken when the comparison fails.
    pub jf: u8,
    /// Immediate operand.
    pub k: u32,
}

impl bpf_insn {
    /// The 8-byte record in which the native compiler expects this
    /// instruction: opcode low byte, opcode high byte, `jt`, `jf`, then
    /// the operand's four bytes from least to most significant.
    pub open spec fn layout(self) -> Seq<u8> {
        seq![
            (self.code % 256) as u8,
            (self.code / 256) as u8,
            self.jt,
            self.jf,
            (self.k % 256) as u8,
            ((self.k / 256) % 256) as u8,
            ((self.k / 65536) % 256) as u8,
            (self.k / 16777216) as u8,
        ]
    }

    /// Build one instruction from its four fields.
    pub fn new(code: u16, jt: u8, jf: u8, k: u32) -> (r: bpf_insn)
        ensures
            r.code == code,
            r.jt == jt,
            r.jf == jf,
            r.k == k,
    {
        bpf_insn { code, jt, jf, k }
    }

    /// Encode this instruction into its 8-byte record.
    pub fn encode(&self) -> (r: Vec<u8>)
        ensures
            r@ == self.layout(),
    {
        let mut out: Vec<u8> = Vec::new();
        out.push((self.code % 256) as u8);
        out.push((self.code / 256) as u8);
        out.push(self.jt);
        out.push(self.jf);
        out.push((self.k % 256) as u8);
        out.push(((self.k / 256) % 256) as u8);
        out.push(((self.k / 65536) % 256) as u8);
        out.push((self.k / 16777216) as u8);
        proof {
            assert(out@ =~= self.layout());
        }
        out
    }
}

/// The wire form of a whole program: each instruction's 8-byte record,
/// in program order.
pub open spec fn program_layout(prog: Seq<bpf_insn>) -> Seq<u8>
    decreases prog.len(),
{
    if prog.len() == 0 {
        Seq::empty()
    } else {
        prog.first().layout() + program_layout(prog.drop_first())
    }
}

/// Every instruction occupies exactly eight bytes on the wire.
pub proof fn lemma_program_layout_len(prog: Seq<bpf_insn>)
    ensures
        program_layout(prog).len() == 8 * prog.len(),
    decreases prog.len(),
{
    if prog.len() > 0 {
        lemma_program_layout_len(prog.drop_first());
    }
}

/// The wire form of two programs laid end to end is the two wire forms
/// laid end to end.
proof fn lemma_program_layout_app(a: Seq<bpf_insn>, b: Seq<bpf_insn>)
    ensures
        program_layout(a + b) == program_layout(a) + program_layout(b),
    decreases a.len(),
{
    if a.len() == 0 {
        assert(a + b =~= b);
        assert(program_layout(a) + program_layout(b) =~= program_layout(b));
    } else {
        lemma_program_layout_app(a.drop_first(), b);
        assert((a + b).drop_first() =~= a.drop_first() + b);
        assert((a + b).first() == a.first());
        assert(program_layout(a + b) =~= program_layout(a) + program_layout(b));
    }
}

/// A one-instruction program's wire form is that instruction's record.
proof fn lemma_program_layout_one(x: bpf_insn)
    ensures
        program_layout(seq![x]) == x.layout(),
{
    assert(seq![x].drop_first() =~= Seq::<bpf_insn>::empty());
    assert(program_layout(Seq::<bpf_insn>::empty()) =~= Seq::<u8>::empty());
    assert(seq![x].first() == x);
    assert(program_layout(seq![x]) =~= x.layout() + Seq::<u8>::empty());
    assert(program_layout(seq![x]) =~= x.layout());
}

/// Encode a whole instruction sequence for the native compiler: eight
/// bytes per instruction, in program order, nothing between records.
pub fn encode_program(prog: &Vec<bpf_insn>) -> (r: Vec<u8>)
    ensures
        r@ == program_layout(prog@),
        r@.len() == 8 * prog@.len(),
{
    let mut out: Vec<u8> = Vec::new();
    let mut i: usize = 0;
    while i < prog.len()
        invariant
            i <= prog@.len(),
            out@ == program_layout(prog@.take(i as int)),
        decreases prog@.len() - i,
    {
        let mut enc = prog[i].encode();
        proof {
            assert(prog@.take(i + 1) =~= prog@.take(i as int) + seq![prog@[i as int]]);
            lemma_program_layout_app(prog@.take(i as int), seq![prog@[i as int]]);
            lemma_program_layout_one(prog@[i as int]);
        }
        out.append(&mut enc);
        i += 1;
    }
    proof {
        assert(prog@.take(prog@.len() as int) =~= prog@);
        lemma_program_layout_len(prog@);
    }
    out
}

} // verus!
