use std::collections::HashSet;

use teac::backend::aarch64::inst::{Inst, StringHashMap};
use teac::backend::aarch64::types::{
    dtype_to_regsize, Addr, BinOp, Cond, FBinOp, IndexOperand, Operand, RegClass, RegSize,
    Register,
};
use teac::backend::Error;
use teac::ir::Dtype;

fn set(v: &[usize]) -> HashSet<usize> {
    v.iter().copied().collect()
}

#[test]
fn reg_size_classes() {
    assert_eq!(RegSize::W32.class(), RegClass::Gpr);
    assert_eq!(RegSize::X64.class(), RegClass::Gpr);
    assert_eq!(RegSize::S32.class(), RegClass::Fpr);
}

#[test]
fn dtype_register_sizes() {
    assert_eq!(dtype_to_regsize(&Dtype::I1), Ok(RegSize::W32));
    assert_eq!(dtype_to_regsize(&Dtype::I32), Ok(RegSize::W32));
    let p = Dtype::Pointer { pointee: Box::new(Dtype::I32) };
    assert_eq!(dtype_to_regsize(&p), Ok(RegSize::X64));
    assert_eq!(
        dtype_to_regsize(&Dtype::F32),
        Err(Error::UnsupportedDtype { dtype: Dtype::F32 })
    );
    let s = Dtype::Struct { struct_name: "S".to_string() };
    assert_eq!(
        dtype_to_regsize(&s),
        Err(Error::UnsupportedDtype { dtype: Dtype::Struct { struct_name: "S".to_string() } })
    );
    let a = Dtype::Array { element: Box::new(Dtype::I32), length: Some(3) };
    assert!(matches!(dtype_to_regsize(&a), Err(Error::UnsupportedDtype { .. })));
}

#[test]
fn every_register_size_of_a_dtype_is_general_purpose() {
    let ds = [Dtype::I1, Dtype::I32, Dtype::Pointer { pointee: Box::new(Dtype::F32) }];
    for d in ds.iter() {
        assert_eq!(dtype_to_regsize(d).unwrap().class(), RegClass::Gpr);
    }
}

#[test]
fn used_and_defined_vregs() {
    let v = Register::Virtual;
    let mov = Inst::Mov { size: RegSize::W32, dst: v(1), src: Operand::Register(v(2)) };
    assert_eq!(mov.used_vregs(), set(&[2]));
    assert_eq!(mov.defined_vregs(), set(&[1]));

    let mov_imm = Inst::Mov { size: RegSize::W32, dst: Register::Physical(0), src: Operand::Immediate(7) };
    assert_eq!(mov_imm.used_vregs(), set(&[]));
    assert_eq!(mov_imm.defined_vregs(), set(&[]));

    let add = Inst::BinOp { op: BinOp::Add, size: RegSize::X64, dst: v(3), lhs: v(4), rhs: Operand::Register(v(5)) };
    assert_eq!(add.used_vregs(), set(&[4, 5]));
    assert_eq!(add.defined_vregs(), set(&[3]));

    let add_same = Inst::BinOp { op: BinOp::Sub, size: RegSize::W32, dst: v(6), lhs: v(6), rhs: Operand::Register(v(6)) };
    assert_eq!(add_same.used_vregs(), set(&[6]));
    assert_eq!(add_same.defined_vregs(), set(&[6]));

    let fadd = Inst::FBinOp { op: FBinOp::FAdd, dst: v(7), lhs: v(8), rhs: Register::Physical(1) };
    assert_eq!(fadd.used_vregs(), set(&[8]));
    assert_eq!(fadd.defined_vregs(), set(&[7]));

    let ldr = Inst::Ldr { size: RegSize::W32, dst: v(9), addr: Addr::BaseOff { base: v(10), offset: 8 } };
    assert_eq!(ldr.used_vregs(), set(&[10]));
    assert_eq!(ldr.defined_vregs(), set(&[9]));

    let str_ = Inst::Str { size: RegSize::W32, src: v(11), addr: Addr::BaseOff { base: v(12), offset: 0 } };
    assert_eq!(str_.used_vregs(), set(&[11, 12]));
    assert_eq!(str_.defined_vregs(), set(&[]));

    let str_global = Inst::Str { size: RegSize::W32, src: v(13), addr: Addr::Global("g".to_string()) };
    assert_eq!(str_global.used_vregs(), set(&[13]));

    let lea = Inst::Lea { dst: v(14), addr: Addr::BaseOff { base: Register::StackPointer, offset: 16 } };
    assert_eq!(lea.used_vregs(), set(&[]));
    assert_eq!(lea.defined_vregs(), set(&[14]));

    let gep = Inst::Gep { dst: v(15), base: v(16), index: IndexOperand::Reg(v(17)), scale: 4 };
    assert_eq!(gep.used_vregs(), set(&[16, 17]));
    assert_eq!(gep.defined_vregs(), set(&[15]));
    let gep_imm = Inst::Gep { dst: v(15), base: v(16), index: IndexOperand::Imm(3), scale: 4 };
    assert_eq!(gep_imm.used_vregs(), set(&[16]));

    let cmp = Inst::Cmp { size: RegSize::W32, lhs: v(18), rhs: Operand::Immediate(0) };
    assert_eq!(cmp.used_vregs(), set(&[18]));
    assert_eq!(cmp.defined_vregs(), set(&[]));

    let fcmp = Inst::FCmp { lhs: v(19), rhs: v(20) };
    assert_eq!(fcmp.used_vregs(), set(&[19, 20]));

    let scvtf = Inst::Scvtf { dst: v(21), src: v(22) };
    assert_eq!(scvtf.used_vregs(), set(&[22]));
    assert_eq!(scvtf.defined_vregs(), set(&[21]));
    let fcvtzs = Inst::Fcvtzs { dst: v(23), src: v(24) };
    assert_eq!(fcvtzs.used_vregs(), set(&[24]));
    assert_eq!(fcvtzs.defined_vregs(), set(&[23]));
    let fmov = Inst::Fmov { dst: v(25), src: Operand::Register(v(26)) };
    assert_eq!(fmov.used_vregs(), set(&[26]));
    assert_eq!(fmov.defined_vregs(), set(&[25]));
}

#[test]
fn control_instructions_touch_no_vregs() {
    let insts = vec![
        Inst::Label("L".to_string()),
        Inst::B { label: "L".to_string() },
        Inst::BCond { cond: Cond::Eq, label: "L".to_string() },
        Inst::Bl { func: "f".to_string() },
        Inst::SaveCallerRegs,
        Inst::RestoreCallerRegs,
        Inst::SubSp { imm: 16 },
        Inst::AddSp { imm: 16 },
        Inst::Ret,
    ];
    for i in insts.iter() {
        assert!(i.used_vregs().is_empty());
        assert!(i.defined_vregs().is_empty());
    }
}

#[test]
fn labels() {
    assert_eq!(Inst::Label("entry".to_string()).label(), Some("entry".to_string()));
    assert_eq!(Inst::Ret.label(), None);
    assert_eq!(Inst::B { label: "entry".to_string() }.label(), None);
}

#[test]
fn successors_follow_control_flow() {
    let mut labels = StringHashMap::new();
    labels.insert("loop".to_string(), 2);
    labels.insert("exit".to_string(), 7);

    assert_eq!(Inst::Ret.successors(3, 10, &labels), Vec::<usize>::new());
    assert_eq!(Inst::B { label: "loop".to_string() }.successors(5, 10, &labels), vec![2]);
    assert_eq!(Inst::B { label: "nowhere".to_string() }.successors(5, 10, &labels), Vec::<usize>::new());
    assert_eq!(
        Inst::BCond { cond: Cond::Lt, label: "exit".to_string() }.successors(4, 10, &labels),
        vec![7, 5]
    );
    assert_eq!(
        Inst::BCond { cond: Cond::Lt, label: "exit".to_string() }.successors(9, 10, &labels),
        vec![7]
    );
    assert_eq!(
        Inst::BCond { cond: Cond::Ne, label: "nowhere".to_string() }.successors(4, 10, &labels),
        vec![5]
    );
    assert_eq!(Inst::SaveCallerRegs.successors(0, 10, &labels), vec![1]);
    assert_eq!(Inst::Label("x".to_string()).successors(9, 10, &labels), Vec::<usize>::new());
}

#[test]
fn successors_stay_in_range() {
    let mut labels = StringHashMap::new();
    labels.insert("a".to_string(), 0);
    labels.insert("b".to_string(), 3);
    let n = 4;
    let insts = vec![
        Inst::B { label: "a".to_string() },
        Inst::BCond { cond: Cond::Ge, label: "b".to_string() },
        Inst::Ret,
        Inst::AddSp { imm: 8 },
    ];
    for (idx, inst) in insts.iter().enumerate() {
        let succs = inst.successors(idx, n, &labels);
        assert!(succs.len() <= 2);
        assert!(succs.iter().all(|&s| s < n));
    }
}
