use nak::ir::{BasicBlock, DebugFlags, Dst, Function, Instr, Op, OpIAdd3, RegFile, RegRef, Shader, Src};
use nak::opt_zero::{opt_zero_instrs, try_zero, SR_ZERO};

fn gpr(idx: u32) -> RegRef {
    RegRef::new(RegFile::GPR, idx, 1)
}

fn mov(dst: RegRef, src: Src) -> Instr {
    Instr::new_mov(Dst::Reg(dst), src)
}

fn mov_zero(idx: u32) -> Instr {
    mov(gpr(idx), Src::Zero)
}

fn zero_read(idx: u32) -> Instr {
    Instr::new_cs2r(Dst::Reg(RegRef::new(RegFile::GPR, idx, 2)), SR_ZERO)
}

fn note() -> Instr {
    Instr::new_annotate("combined by opt_zero".to_string())
}

fn iadd3(idx: u32) -> Instr {
    Instr::new(Op::IAdd3(OpIAdd3 {
        dst: Dst::Reg(gpr(idx)),
        srcs: [Src::Reg(gpr(0)), Src::Imm32(1), Src::Zero],
    }))
}

fn shader_of(blocks: Vec<Vec<Instr>>) -> Shader {
    Shader {
        functions: vec![Function {
            blocks: blocks.into_iter().map(|instrs| BasicBlock { instrs }).collect(),
        }],
    }
}

fn run(instrs: Vec<Instr>, annotate: bool) -> Vec<Instr> {
    let mut sh = shader_of(vec![instrs]);
    sh.opt_zero(&DebugFlags::new(annotate));
    sh.functions.remove(0).blocks.remove(0).instrs
}

#[test]
fn aligned_zero_pair_becomes_one_read() {
    let out = run(vec![mov_zero(0), mov_zero(1)], false);
    assert_eq!(out, vec![zero_read(0)]);
}

#[test]
fn odd_first_register_is_not_fused() {
    let input = vec![mov_zero(1), mov_zero(2)];
    assert_eq!(run(input.clone(), false), input);
}

#[test]
fn registers_not_adjacent_are_not_fused() {
    let input = vec![mov_zero(0), mov_zero(3)];
    assert_eq!(run(input.clone(), false), input);
}

#[test]
fn nonzero_source_is_not_fused() {
    let input = vec![mov(gpr(0), Src::Imm32(5)), mov_zero(1)];
    assert_eq!(run(input.clone(), false), input);
}

#[test]
fn four_zero_moves_annotated() {
    let out = run(vec![mov_zero(0), mov_zero(1), mov_zero(2), mov_zero(3)], true);
    assert_eq!(out, vec![zero_read(0), note(), zero_read(2), note()]);
}

#[test]
fn four_zero_moves_without_notes() {
    let out = run(vec![mov_zero(0), mov_zero(1), mov_zero(2), mov_zero(3)], false);
    assert_eq!(out, vec![zero_read(0), zero_read(2)]);
}

#[test]
fn three_zero_moves_fuse_first_pair_only() {
    let out = run(vec![mov_zero(0), mov_zero(1), mov_zero(2)], false);
    assert_eq!(out, vec![zero_read(0), mov_zero(2)]);
}

#[test]
fn odd_start_chain_fuses_the_aligned_pair() {
    let out = run(vec![mov_zero(1), mov_zero(2), mov_zero(3)], false);
    assert_eq!(out, vec![mov_zero(1), zero_read(2)]);
}

#[test]
fn note_text_and_special_index() {
    let out = run(vec![mov_zero(6), mov_zero(7)], true);
    assert_eq!(out.len(), 2);
    match &out[0].op {
        Op::CS2R(c) => {
            assert_eq!(c.idx, 255);
            assert_eq!(c.dst, Dst::Reg(RegRef::new(RegFile::GPR, 6, 2)));
        }
        _ => panic!("expected a special-register read"),
    }
    match &out[1].op {
        Op::Annotate(a) => assert_eq!(a.annotation, "combined by opt_zero"),
        _ => panic!("expected an annotation"),
    }
}

#[test]
fn untouched_instructions_keep_their_order() {
    let input = vec![
        iadd3(9),
        mov_zero(0),
        mov_zero(1),
        Instr::new(Op::Nop),
        mov_zero(5),
        mov_zero(4),
        mov_zero(4),
        mov_zero(5),
        iadd3(8),
    ];
    let out = run(input, false);
    assert_eq!(
        out,
        vec![
            iadd3(9),
            zero_read(0),
            Instr::new(Op::Nop),
            mov_zero(5),
            mov_zero(4),
            zero_read(4),
            iadd3(8),
        ]
    );
}

#[test]
fn pair_split_by_other_instruction_is_not_fused() {
    let input = vec![mov_zero(0), Instr::new(Op::Nop), mov_zero(1)];
    assert_eq!(run(input.clone(), true), input);
}

#[test]
fn no_notes_when_annotations_are_off() {
    let out = run(vec![mov_zero(0), mov_zero(1), iadd3(3), mov_zero(2), mov_zero(3)], false);
    assert!(out.iter().all(|i| !matches!(i.op, Op::Annotate(_))));
    assert_eq!(out, vec![zero_read(0), iadd3(3), zero_read(2)]);
}

#[test]
fn second_run_changes_nothing() {
    let input = vec![
        mov_zero(0),
        mov_zero(1),
        mov_zero(2),
        mov_zero(3),
        mov_zero(3),
        mov_zero(8),
        mov_zero(9),
    ];
    for annotate in [false, true] {
        let once = run(input.clone(), annotate);
        let twice = run(once.clone(), annotate);
        assert_eq!(once, twice);
        let other = run(once.clone(), !annotate);
        assert_eq!(once, other);
    }
}

#[test]
fn empty_and_single_blocks_are_unchanged() {
    assert_eq!(run(vec![], true), vec![]);
    assert_eq!(run(vec![mov_zero(0)], true), vec![mov_zero(0)]);
}

#[test]
fn every_block_of_every_function_is_rewritten() {
    let mut sh = Shader {
        functions: vec![
            Function {
                blocks: vec![
                    BasicBlock { instrs: vec![mov_zero(0), mov_zero(1)] },
                    BasicBlock { instrs: vec![iadd3(2)] },
                ],
            },
            Function { blocks: vec![] },
            Function {
                blocks: vec![BasicBlock { instrs: vec![iadd3(0), mov_zero(10), mov_zero(11)] }],
            },
        ],
    };
    sh.opt_zero(&DebugFlags::new(true));
    assert_eq!(sh.functions.len(), 3);
    assert_eq!(sh.functions[0].blocks[0].instrs, vec![zero_read(0), note()]);
    assert_eq!(sh.functions[0].blocks[1].instrs, vec![iadd3(2)]);
    assert!(sh.functions[1].blocks.is_empty());
    assert_eq!(sh.functions[2].blocks[0].instrs, vec![iadd3(0), zero_read(10), note()]);
}

#[test]
fn pairs_across_blocks_are_not_fused() {
    let mut sh = shader_of(vec![vec![mov_zero(0)], vec![mov_zero(1)]]);
    sh.opt_zero(&DebugFlags::new(false));
    assert_eq!(sh.functions[0].blocks[0].instrs, vec![mov_zero(0)]);
    assert_eq!(sh.functions[0].blocks[1].instrs, vec![mov_zero(1)]);
}

#[test]
fn block_and_instruction_list_entry_points() {
    let out = opt_zero_instrs(vec![mov_zero(2), mov_zero(3)], true);
    assert_eq!(out, vec![zero_read(2), note()]);
    let mut b = BasicBlock { instrs: vec![mov_zero(4), mov_zero(5)] };
    b.opt_zero(false);
    assert_eq!(b.instrs, vec![zero_read(4)]);
    let mut f = Function { blocks: vec![BasicBlock { instrs: vec![mov_zero(0), mov_zero(1)] }] };
    f.opt_zero(false);
    assert_eq!(f.blocks[0].instrs, vec![zero_read(0)]);
}

#[test]
fn matcher_accepts_aligned_zero_pair() {
    assert_eq!(
        try_zero(&mov_zero(4), &mov(gpr(5), Src::Imm32(0))),
        Some(RegRef::new(RegFile::GPR, 4, 2))
    );
}

#[test]
fn matcher_rejects_other_operations() {
    assert_eq!(try_zero(&iadd3(0), &mov_zero(1)), None);
    assert_eq!(try_zero(&mov_zero(0), &Instr::new(Op::Nop)), None);
    assert_eq!(try_zero(&zero_read(0), &mov_zero(1)), None);
    assert_eq!(try_zero(&note(), &mov_zero(1)), None);
}

#[test]
fn matcher_rejects_nonzero_sources() {
    assert_eq!(try_zero(&mov_zero(0), &mov(gpr(1), Src::Imm32(7))), None);
    assert_eq!(try_zero(&mov(gpr(0), Src::True), &mov_zero(1)), None);
    assert_eq!(try_zero(&mov(gpr(0), Src::Reg(gpr(8))), &mov_zero(1)), None);
}

#[test]
fn matcher_rejects_non_register_destinations() {
    assert_eq!(try_zero(&Instr::new_mov(Dst::SSA(3), Src::Zero), &mov_zero(1)), None);
    assert_eq!(try_zero(&mov_zero(0), &Instr::new_mov(Dst::Nothing, Src::Zero)), None);
}

#[test]
fn matcher_rejects_other_register_files() {
    let u0 = RegRef::new(RegFile::UGPR, 0, 1);
    let u1 = RegRef::new(RegFile::UGPR, 1, 1);
    assert_eq!(try_zero(&mov(u0, Src::Zero), &mov(u1, Src::Zero)), None);
    assert_eq!(try_zero(&mov(u0, Src::Zero), &mov_zero(1)), None);
    assert_eq!(try_zero(&mov_zero(0), &mov(u1, Src::Zero)), None);
}

#[test]
fn matcher_rejects_misaligned_or_distant_registers() {
    assert_eq!(try_zero(&mov_zero(3), &mov_zero(4)), None);
    assert_eq!(try_zero(&mov_zero(2), &mov_zero(2)), None);
    assert_eq!(try_zero(&mov_zero(2), &mov_zero(5)), None);
    assert_eq!(try_zero(&mov_zero(1), &mov_zero(0)), None);
    assert_eq!(try_zero(&mov_zero(0), &mov_zero(0)), None);
}

#[test]
fn zero_tests_and_register_accessors() {
    assert!(Src::Zero.is_zero());
    assert!(Src::Imm32(0).is_zero());
    assert!(!Src::Imm32(1).is_zero());
    assert!(!Src::False.is_zero());
    assert!(!Src::SSA(0).is_zero());
    assert_eq!(Dst::Reg(gpr(3)).as_reg(), Some(gpr(3)));
    assert_eq!(Dst::SSA(3).as_reg(), None);
    assert_eq!(Dst::from(gpr(2)), Dst::Reg(gpr(2)));
    let r = RegRef::new(RegFile::Pred, 7, 1);
    assert_eq!((r.file(), r.base_idx(), r.comps()), (RegFile::Pred, 7, 1));
    assert!(DebugFlags::new(true).annotate());
    assert!(!DebugFlags::new(false).annotate());
}
