//! aarch64 instructions, their register uses and definitions, and their
//! control-flow successors.
use vstd::prelude::*;

use std::collections::HashSet;
pub use vstd::hash_map::StringHashMap;

use crate::backend::aarch64::types::{
    Addr, BinOp, Cond, FBinOp, IndexOperand, Operand, RegSize, Register,
};

verus! {

broadcast use vstd::std_specs::hash::group_hash_axioms;

/// An aarch64 instruction or a label; registers may still be virtual.
#[derive(Debug, Clone, PartialEq, Eq)]
pub enum Inst {
    Label(String),
    Mov { size: RegSize, dst: Register, src: Operand },
    BinOp { op: BinOp, size: RegSize, dst: Register, lhs: Register, rhs: Operand },
    /// Single-precision floating-point binary operation, e.g.
    /// `fadd s_d, s_n, s_m`.  Both operands and the destination live in
    /// the Fpr bank; the result is always 32-bit (`RegSize::S32`).
    FBinOp { op: FBinOp, dst: Register, lhs: Register, rhs: Register },
    Ldr { size: RegSize, dst: Register, addr: Addr },
    Str { size: RegSize, src: Register, addr: Addr },
    Lea { dst: Register, addr: Addr },
    Gep { dst: Register, base: Register, index: IndexOperand, scale: i64 },
    Cmp { size: RegSize, lhs: Register, rhs: Operand },
    /// Single-precision floating-point comparison `fcmp s_n, s_m`.
    /// Sets NZCV, which is later consumed by a `B { Cond, label }` arm.
    FCmp { lhs: Register, rhs: Register },
    /// `scvtf s_d, w_n` — convert a signed 32-bit integer to a
    /// single-precision float.
    Scvtf { dst: Register, src: Register },
    /// `fcvtzs w_d, s_n` — convert a single-precision float to a signed
    /// 32-bit integer, rounding toward zero.
    Fcvtzs { dst: Register, src: Register },
    /// `fmov s_d, s_n` (Fpr-to-Fpr) or `fmov s_d, w_n` (Gpr-to-Fpr).
    /// Used in phi lowering, in the AAPCS64 entry/exit shims for `f32`
    /// arguments and return values, and to materialise a float constant
    /// from a literal `Operand::Immediate`.
    Fmov { dst: Register, src: Operand },
    B { label: String },
    BCond { cond: Cond, label: String },
    Bl { func: String },
    SaveCallerRegs,
    RestoreCallerRegs,
    SubSp { imm: i64 },
    AddSp { imm: i64 },
    Ret,
}

/// The virtual register numbers that a register names: its own if it is virtual.
pub open spec fn reg_vregs(r: Register) -> Set<usize> {
    match r {
        Register::Virtual(v) => set![v],
        _ => Set::empty(),
    }
}

/// The virtual register numbers that an operand reads.
pub open spec fn operand_vregs(op: Operand) -> Set<usize> {
    match op {
        Operand::Register(r) => reg_vregs(r),
        Operand::Immediate(_) => Set::empty(),
    }
}

/// The virtual register numbers that an address reads: its base register.
pub open spec fn addr_vregs(addr: Addr) -> Set<usize> {
    match addr {
        Addr::BaseOff { base, .. } => reg_vregs(base),
        Addr::Global(_) => Set::empty(),
    }
}

/// The virtual register numbers that an index reads.
pub open spec fn index_vregs(index: IndexOperand) -> Set<usize> {
    match index {
        IndexOperand::Reg(r) => reg_vregs(r),
        IndexOperand::Imm(_) => Set::empty(),
    }
}

/// The virtual registers that an instruction reads.
pub open spec fn spec_used_vregs(inst: Inst) -> Set<usize> {
    match inst {
        Inst::Mov { src, .. } => operand_vregs(src),
        Inst::BinOp { lhs, rhs, .. } => reg_vregs(lhs) + operand_vregs(rhs),
        Inst::FBinOp { lhs, rhs, .. } => reg_vregs(lhs) + reg_vregs(rhs),
        Inst::Ldr { addr, .. } => addr_vregs(addr),
        Inst::Str { src, addr, .. } => reg_vregs(src) + addr_vregs(addr),
        Inst::Lea { addr, .. } => addr_vregs(addr),
        Inst::Gep { base, index, .. } => reg_vregs(base) + index_vregs(index),
        Inst::Cmp { lhs, rhs, .. } => reg_vregs(lhs) + operand_vregs(rhs),
        Inst::FCmp { lhs, rhs } => reg_vregs(lhs) + reg_vregs(rhs),
        Inst::Scvtf { src, .. } => reg_vregs(src),
        Inst::Fcvtzs { src, .. } => reg_vregs(src),
        Inst::Fmov { src, .. } => operand_vregs(src),
        _ => Set::empty(),
    }
}

/// The register an instruction writes, if it writes one.
pub open spec fn spec_dst(inst: Inst) -> Option<Register> {
    match inst {
        Inst::Mov { dst, .. } => Some(dst),
        Inst::BinOp { dst, .. } => Some(dst),
        Inst::FBinOp { dst, .. } => Some(dst),
        Inst::Ldr { dst, .. } => Some(dst),
        Inst::Lea { dst, .. } => Some(dst),
        Inst::Gep { dst, .. } => Some(dst),
        Inst::Scvtf { dst, .. } => Some(dst),
        Inst::Fcvtzs { dst, .. } => Some(dst),
        Inst::Fmov { dst, .. } => Some(dst),
        _ => None,
    }
}

/// The virtual registers that an instruction writes.
pub open spec fn spec_defined_vregs(inst: Inst) -> Set<usize> {
    match spec_dst(inst) {
        Some(dst) => reg_vregs(dst),
        None => Set::empty(),
    }
}

/// The label an instruction defines.
pub open spec fn spec_label(inst: Inst) -> Option<String> {
    match inst {
        Inst::Label(name) => Some(name),
        _ => None,
    }
}

/// The node a label maps to, if the label is known.
pub open spec fn label_target(labels: Map<Seq<char>, usize>, label: String) -> Seq<usize> {
    if labels.contains_key(label@) {
        seq![labels[label@]]
    } else {
        Seq::empty()
    }
}

/// The next node in program order, if there is one.
pub open spec fn fall_through(idx: usize, num_nodes: usize) -> Seq<usize> {
    if idx + 1 < num_nodes {
        seq![(idx + 1) as usize]
    } else {
        Seq::empty()
    }
}

/// Whether control can continue with the next instruction: everything but
/// a return and an unconditional branch.
pub open spec fn may_fall_through(inst: Inst) -> bool {
    !(inst is Ret || inst is B)
}

/// The control-flow successors of the instruction at node `idx` of
/// `num_nodes`: none after a return, the target after an unconditional
/// branch, the target then the next node after a conditional branch, and
/// the next node after anything else.
pub open spec fn spec_successors(
    inst: Inst,
    idx: usize,
    num_nodes: usize,
    labels: Map<Seq<char>, usize>,
) -> Seq<usize> {
    match inst {
        Inst::Ret => Seq::empty(),
        Inst::B { label } => label_target(labels, label),
        Inst::BCond { label, .. } => label_target(labels, label) + fall_through(idx, num_nodes),
        _ => fall_through(idx, num_nodes),
    }
}

fn add_reg(s: &mut HashSet<usize>, r: &Register)
    ensures
        final(s)@ == old(s)@ + reg_vregs(*r),
{
    if let Register::Virtual(v) = r {
        s.insert(*v);
    }
}

fn add_operand(s: &mut HashSet<usize>, op: &Operand)
    ensures
        final(s)@ == old(s)@ + operand_vregs(*op),
{
    if let Operand::Register(Register::Virtual(v)) = op {
        s.insert(*v);
    }
}

fn add_addr(s: &mut HashSet<usize>, addr: &Addr)
    ensures
        final(s)@ == old(s)@ + addr_vregs(*addr),
{
    if let Addr::BaseOff { base: Register::Virtual(v), .. } = addr {
        s.insert(*v);
    }
}

impl Inst {
    /// The label this instruction defines, if it is a label.
    pub fn label(&self) -> (res: Option<String>)
        ensures
            res == spec_label(*self),
    {
        if let Inst::Label(name) = self {
            Some(name.clone())
        } else {
            None
        }
    }

    /// The control-flow successors of this instruction at node `idx` of a
    /// sequence of `num_nodes`, with branch targets looked up in `label_map`.
    pub fn successors(&self, idx: usize, num_nodes: usize, label_map: &StringHashMap<usize>) -> (res:
        Vec<usize>)
        requires
            may_fall_through(*self) ==> idx < usize::MAX,
        ensures
            res@ == spec_successors(*self, idx, num_nodes, label_map@),
    {
        match self {
            Inst::Ret => Vec::new(),
            Inst::B { label } => {
                let mut succs = Vec::new();
                if let Some(target) = label_map.get(label.as_str()) {
                    succs.push(*target);
                }
                succs
            },
            Inst::BCond { label, .. } => {
                let mut succs = Vec::new();
                if let Some(target) = label_map.get(label.as_str()) {
                    succs.push(*target);
                }
                if idx + 1 < num_nodes {
                    succs.push(idx + 1);
                }
                succs
            },
            _ => {
                if idx + 1 < num_nodes {
                    vec![idx + 1]
                } else {
                    vec![]
                }
            },
        }
    }

    /// The virtual registers this instruction reads.
    pub fn used_vregs(&self) -> (used: HashSet<usize>)
        ensures
            used@ == spec_used_vregs(*self),
    {
        let mut used = HashSet::new();
        match self {
            Inst::Mov { src, .. } => add_operand(&mut used, src),
            Inst::BinOp { lhs, rhs, .. } => {
                add_reg(&mut used, lhs);
                add_operand(&mut used, rhs);
            },
            Inst::FBinOp { lhs, rhs, .. } => {
                add_reg(&mut used, lhs);
                add_reg(&mut used, rhs);
            },
            Inst::Ldr { addr, .. } => add_addr(&mut used, addr),
            Inst::Str { src, addr, .. } => {
                add_reg(&mut used, src);
                add_addr(&mut used, addr);
            },
            Inst::Lea { addr, .. } => add_addr(&mut used, addr),
            Inst::Gep { base, index, .. } => {
                add_reg(&mut used, base);
                if let IndexOperand::Reg(r) = index {
                    add_reg(&mut used, r);
                }
            },
            Inst::Cmp { lhs, rhs, .. } => {
                add_reg(&mut used, lhs);
                add_operand(&mut used, rhs);
            },
            Inst::FCmp { lhs, rhs } => {
                add_reg(&mut used, lhs);
                add_reg(&mut used, rhs);
            },
            Inst::Scvtf { src, .. } | Inst::Fcvtzs { src, .. } => add_reg(&mut used, src),
            Inst::Fmov { src, .. } => add_operand(&mut used, src),
            Inst::Label(_)
            | Inst::B { .. }
            | Inst::BCond { .. }
            | Inst::Bl { .. }
            | Inst::SaveCallerRegs
            | Inst::RestoreCallerRegs
            | Inst::SubSp { .. }
            | Inst::AddSp { .. }
            | Inst::Ret => {},
        }
        used
    }

    /// The virtual registers this instruction writes.
    pub fn defined_vregs(&self) -> (defined: HashSet<usize>)
        ensures
            defined@ == spec_defined_vregs(*self),
    {
        let mut defined = HashSet::new();
        match self {
            Inst::Mov { dst, .. }
            | Inst::BinOp { dst, .. }
            | Inst::FBinOp { dst, .. }
            | Inst::Ldr { dst, .. }
            | Inst::Lea { dst, .. }
            | Inst::Gep { dst, .. }
            | Inst::Scvtf { dst, .. }
            | Inst::Fcvtzs { dst, .. }
            | Inst::Fmov { dst, .. } => {
                if let Register::Virtual(v) = dst {
                    defined.insert(*v);
                }
            },
            _ => {},
        }
        defined
    }
}

/// An instruction writes at most one virtual register.
pub proof fn lemma_defined_vregs_at_most_one(inst: Inst)
    ensures
        spec_defined_vregs(inst).finite(),
        spec_defined_vregs(inst).len() <= 1,
{
    match spec_dst(inst) {
        Some(Register::Virtual(v)) => {
            assert(spec_defined_vregs(inst) =~= Set::empty().insert(v));
        },
        _ => {},
    }
}

/// Labels, branches, calls, caller-save markers, stack adjustments and
/// returns neither read nor write a virtual register.
pub proof fn lemma_control_insts_touch_no_vregs(inst: Inst)
    requires
        inst is Label || inst is B || inst is BCond || inst is Bl || inst is SaveCallerRegs
            || inst is RestoreCallerRegs || inst is SubSp || inst is AddSp || inst is Ret,
    ensures
        spec_used_vregs(inst) == Set::<usize>::empty(),
        spec_defined_vregs(inst) == Set::<usize>::empty(),
{
}

/// When every label maps to a node of the sequence, every successor is a
/// node of the sequence, and there are at most two of them.
pub proof fn lemma_successors_in_range(
    inst: Inst,
    idx: usize,
    num_nodes: usize,
    labels: Map<Seq<char>, usize>,
)
    requires
        forall|k: Seq<char>| labels.contains_key(k) ==> #[trigger] labels[k] < num_nodes,
    ensures
        spec_successors(inst, idx, num_nodes, labels).len() <= 2,
        forall|i: int|
            0 <= i < spec_successors(inst, idx, num_nodes, labels).len() ==> #[trigger] spec_successors(
                inst,
                idx,
                num_nodes,
                labels,
            )[i] < num_nodes,
{
}

/// Control flow: a return has no successor; every other instruction except
/// an unconditional branch continues with the next node whenever there is
/// one; a branch to a known label has that label's node as a successor; and
/// an instruction that is not a branch has no successor but the next node.
pub proof fn lemma_successors_follow_control_flow(
    inst: Inst,
    idx: usize,
    num_nodes: usize,
    labels: Map<Seq<char>, usize>,
)
    ensures
        inst is Ret ==> spec_successors(inst, idx, num_nodes, labels).len() == 0,
        !(inst is Ret || inst is B) && idx + 1 < num_nodes ==> spec_successors(
            inst,
            idx,
            num_nodes,
            labels,
        ).contains((idx + 1) as usize),
        inst matches Inst::B { label } ==> (spec_successors(inst, idx, num_nodes, labels).contains(
            labels[label@],
        ) <== labels.contains_key(label@)),
        inst matches Inst::B { label } ==> (spec_successors(inst, idx, num_nodes, labels).len()
            == if labels.contains_key(label@) {
            1int
        } else {
            0int
        }),
        inst matches Inst::BCond { label, .. } ==> (labels.contains_key(label@)
            ==> spec_successors(inst, idx, num_nodes, labels).contains(labels[label@])),
        inst matches Inst::BCond { label, .. } ==> (forall|i: int|
            0 <= i < spec_successors(inst, idx, num_nodes, labels).len() ==> {
                let t = #[trigger] spec_successors(inst, idx, num_nodes, labels)[i];
                t == idx + 1 || (labels.contains_key(label@) && t == labels[label@])
            }),
        !(inst is Ret || inst is B || inst is BCond) ==> (forall|i: int|
            0 <= i < spec_successors(inst, idx, num_nodes, labels).len()
                ==> #[trigger] spec_successors(inst, idx, num_nodes, labels)[i] == idx + 1),
        !(inst is Ret || inst is B || inst is BCond) ==> spec_successors(
            inst,
            idx,
            num_nodes,
            labels,
        ).len() <= 1,
{
    let succ = spec_successors(inst, idx, num_nodes, labels);
    if !(inst is Ret || inst is B) && idx + 1 < num_nodes {
        let k = succ.len() - 1;
        assert(succ[k] == idx + 1);
    }
    if let Inst::B { label } = inst {
        if labels.contains_key(label@) {
            assert(succ[0] == labels[label@]);
        }
    }
    if let Inst::BCond { label, .. } = inst {
        if labels.contains_key(label@) {
            assert(succ[0] == labels[label@]);
        }
    }
}

/// Reads: every virtual register that an instruction takes as a source
/// operand (a `lhs`, a register `rhs`, a `src`, an address base or an index
/// register) is read, and nothing else is; the destination is read only when
/// it is also a source.
pub proof fn lemma_used_vregs_are_the_sources(inst: Inst, v: usize)
    ensures
        spec_used_vregs(inst).finite(),
        spec_used_vregs(inst).contains(v) <==> match inst {
            Inst::Mov { src, .. } => src == Operand::Register(Register::Virtual(v)),
            Inst::BinOp { lhs, rhs, .. } => lhs == Register::Virtual(v) || rhs == Operand::Register(
                Register::Virtual(v),
            ),
            Inst::FBinOp { lhs, rhs, .. } => lhs == Register::Virtual(v) || rhs == Register::Virtual(v),
            Inst::Ldr { addr, .. } => addr matches Addr::BaseOff { base, .. } && base
                == Register::Virtual(v),
            Inst::Str { src, addr, .. } => src == Register::Virtual(v) || (addr matches Addr::BaseOff {
                base,
                ..
            } && base == Register::Virtual(v)),
            Inst::Lea { addr, .. } => addr matches Addr::BaseOff { base, .. } && base
                == Register::Virtual(v),
            Inst::Gep { base, index, .. } => base == Register::Virtual(v) || index == IndexOperand::Reg(
                Register::Virtual(v),
            ),
            Inst::Cmp { lhs, rhs, .. } => lhs == Register::Virtual(v) || rhs == Operand::Register(
                Register::Virtual(v),
            ),
            Inst::FCmp { lhs, rhs } => lhs == Register::Virtual(v) || rhs == Register::Virtual(v),
            Inst::Scvtf { src, .. } => src == Register::Virtual(v),
            Inst::Fcvtzs { src, .. } => src == Register::Virtual(v),
            Inst::Fmov { src, .. } => src == Operand::Register(Register::Virtual(v)),
            _ => false,
        },
{
}

/// Writes: an instruction with a destination register writes exactly that
/// register when it is virtual; stores, comparisons and control instructions
/// write no register.
pub proof fn lemma_defined_vregs_are_the_destination(inst: Inst, v: usize)
    ensures
        spec_defined_vregs(inst).finite(),
        spec_defined_vregs(inst).contains(v) <==> match inst {
            Inst::Mov { dst, .. } => dst == Register::Virtual(v),
            Inst::BinOp { dst, .. } => dst == Register::Virtual(v),
            Inst::FBinOp { dst, .. } => dst == Register::Virtual(v),
            Inst::Ldr { dst, .. } => dst == Register::Virtual(v),
            Inst::Lea { dst, .. } => dst == Register::Virtual(v),
            Inst::Gep { dst, .. } => dst == Register::Virtual(v),
            Inst::Scvtf { dst, .. } => dst == Register::Virtual(v),
            Inst::Fcvtzs { dst, .. } => dst == Register::Virtual(v),
            Inst::Fmov { dst, .. } => dst == Register::Virtual(v),
            _ => false,
        },
        inst is Str || inst is Cmp || inst is FCmp ==> spec_defined_vregs(inst) == Set::<usize>::empty(),
{
    lemma_defined_vregs_at_most_one(inst);
    if inst is Str || inst is Cmp || inst is FCmp {
        assert(spec_defined_vregs(inst) =~= Set::<usize>::empty());
    }
}

/// Exactly label instructions define a label, namely their own name.
pub proof fn lemma_label_of_labels(inst: Inst)
    ensures
        spec_label(inst) is Some <==> inst is Label,
        inst matches Inst::Label(name) ==> spec_label(inst) == Some(name),
{
}

} // verus!
