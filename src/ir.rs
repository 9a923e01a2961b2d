//! The instruction representation that the pass reads and rewrites.

use vstd::prelude::*;

verus! {

/// The register files of the machine.
#[derive(Clone, Copy, Debug, PartialEq, Eq, Structural)]
pub enum RegFile {
    /// General-purpose registers.
    GPR,
    /// Uniform general-purpose registers.
    UGPR,
    /// Predicate registers.
    Pred,
    /// Uniform predicate registers.
    UPred,
    /// The carry flag.
    Carry,
    /// Barrier registers.
    Bar,
    /// Memory-backed registers.
    Mem,
}

/// A run of `comps` consecutive registers of one file, starting at `base_idx`.
#[derive(Clone, Copy, Debug, PartialEq, Eq, Structural)]
pub struct RegRef {
    pub file: RegFile,
    pub base_idx: u32,
    pub comps: u8,
}

impl RegRef {
    pub fn new(file: RegFile, base_idx: u32, comps: u8) -> (r: RegRef)
        ensures
            r == (RegRef { file, base_idx, comps }),
    {
        RegRef { file, base_idx, comps }
    }

    pub fn file(&self) -> (r: RegFile)
        ensures
            r == self.file,
    {
        self.file
    }

    pub fn base_idx(&self) -> (r: u32)
        ensures
            r == self.base_idx,
    {
        self.base_idx
    }

    pub fn comps(&self) -> (r: u8)
        ensures
            r == self.comps,
    {
        self.comps
    }
}

/// A source operand.
#[derive(Clone, Copy, Debug, PartialEq, Eq, Structural)]
pub enum Src {
    /// The zero register, which always reads as zero.
    Zero,
    True,
    False,
    /// A 32-bit immediate.
    Imm32(u32),
    /// An SSA value, by number.
    SSA(u32),
    /// A hardware register.
    Reg(RegRef),
}

impl Src {
    pub open spec fn spec_is_zero(&self) -> bool {
        self matches Src::Zero || self matches Src::Imm32(0)
    }

    /// Whether this source reads as the value zero.
    #[verifier::when_used_as_spec(spec_is_zero)]
    pub fn is_zero(&self) -> (r: bool)
        ensures
            r == self.spec_is_zero(),
    {
        match self {
            Src::Zero => true,
            Src::Imm32(v) => *v == 0,
            _ => false,
        }
    }
}

/// A destination operand.
#[derive(Clone, Copy, Debug, PartialEq, Eq, Structural)]
pub enum Dst {
    /// No value is written.
    Nothing,
    /// An SSA value, by number.
    SSA(u32),
    /// A hardware register.
    Reg(RegRef),
}

impl Dst {
    pub open spec fn spec_as_reg(&self) -> Option<RegRef> {
        match self {
            Dst::Reg(r) => Some(*r),
            _ => None,
        }
    }

    /// The register written, when this destination is a plain register.
    #[verifier::when_used_as_spec(spec_as_reg)]
    pub fn as_reg(&self) -> (r: Option<RegRef>)
        ensures
            r == self.spec_as_reg(),
    {
        match self {
            Dst::Reg(r) => Some(*r),
            _ => None,
        }
    }
}

impl From<RegRef> for Dst {
    fn from(r: RegRef) -> (d: Dst) {
        Dst::Reg(r)
    }
}

impl vstd::std_specs::convert::FromSpecImpl<RegRef> for Dst {
    open spec fn obeys_from_spec() -> bool {
        true
    }

    open spec fn from_spec(r: RegRef) -> Dst {
        Dst::Reg(r)
    }
}

/// Copies `src` into `dst`.
#[derive(Clone, Copy, Debug, PartialEq, Eq, Structural)]
pub struct OpMov {
    pub dst: Dst,
    pub src: Src,
}

/// Reads the special register `idx` into `dst`.
#[derive(Clone, Copy, Debug, PartialEq, Eq, Structural)]
pub struct OpCS2R {
    pub dst: Dst,
    pub idx: u8,
}

/// Writes the sum of three sources into `dst`.
#[derive(Clone, Copy, Debug, PartialEq, Eq)]
pub struct OpIAdd3 {
    pub dst: Dst,
    pub srcs: [Src; 3],
}

/// An instruction with no effect that carries a note for listings.
#[derive(Clone, Debug, PartialEq, Eq)]
pub struct OpAnnotate {
    pub annotation: String,
}

/// The operation of an instruction.
#[derive(Clone, Debug, PartialEq, Eq)]
pub enum Op {
    Mov(OpMov),
    CS2R(OpCS2R),
    IAdd3(OpIAdd3),
    Annotate(OpAnnotate),
    Nop,
}

/// What an instruction is, with the text of an annotation as characters.
pub enum OpModel {
    Mov(OpMov),
    CS2R(OpCS2R),
    IAdd3(OpIAdd3),
    Annotate(Seq<char>),
    Nop,
}

#[derive(Clone, Debug, PartialEq, Eq)]
pub struct Instr {
    pub op: Op,
}

impl View for Instr {
    type V = OpModel;

    open spec fn view(&self) -> OpModel {
        match self.op {
            Op::Mov(m) => OpModel::Mov(m),
            Op::CS2R(c) => OpModel::CS2R(c),
            Op::IAdd3(a) => OpModel::IAdd3(a),
            Op::Annotate(a) => OpModel::Annotate(a.annotation@),
            Op::Nop => OpModel::Nop,
        }
    }
}

impl Instr {
    pub fn new(op: Op) -> (r: Instr)
        ensures
            r.op == op,
    {
        Instr { op }
    }

    pub fn new_mov(dst: Dst, src: Src) -> (r: Instr)
        ensures
            r@ == OpModel::Mov(OpMov { dst, src }),
    {
        Instr { op: Op::Mov(OpMov { dst, src }) }
    }

    pub fn new_cs2r(dst: Dst, idx: u8) -> (r: Instr)
        ensures
            r@ == OpModel::CS2R(OpCS2R { dst, idx }),
    {
        Instr { op: Op::CS2R(OpCS2R { dst, idx }) }
    }

    pub fn new_annotate(annotation: String) -> (r: Instr)
        ensures
            r@ == OpModel::Annotate(annotation@),
    {
        Instr { op: Op::Annotate(OpAnnotate { annotation }) }
    }
}

/// The models of a sequence of instructions, in order.
pub open spec fn instrs_model(s: Seq<Instr>) -> Seq<OpModel> {
    s.map_values(|i: Instr| i@)
}

/// A straight-line run of instructions.
#[derive(Clone, Debug, PartialEq, Eq)]
pub struct BasicBlock {
    pub instrs: Vec<Instr>,
}

impl View for BasicBlock {
    type V = Seq<OpModel>;

    open spec fn view(&self) -> Seq<OpModel> {
        instrs_model(self.instrs@)
    }
}

#[derive(Clone, Debug, PartialEq, Eq)]
pub struct Function {
    pub blocks: Vec<BasicBlock>,
}

impl View for Function {
    type V = Seq<Seq<OpModel>>;

    open spec fn view(&self) -> Seq<Seq<OpModel>> {
        self.blocks@.map_values(|b: BasicBlock| b@)
    }
}

/// A compilation unit: its functions, in order.
#[derive(Clone, Debug, PartialEq, Eq)]
pub struct Shader {
    pub functions: Vec<Function>,
}

impl View for Shader {
    type V = Seq<Seq<Seq<OpModel>>>;

    open spec fn view(&self) -> Seq<Seq<Seq<OpModel>>> {
        self.functions@.map_values(|f: Function| f@)
    }
}

/// The diagnostic switches that passes consult.
#[derive(Clone, Copy, Debug, PartialEq, Eq, Structural)]
pub struct DebugFlags {
    pub annotate: bool,
}

impl DebugFlags {
    pub fn new(annotate: bool) -> (r: DebugFlags)
        ensures
            r.annotate == annotate,
    {
        DebugFlags { annotate }
    }

    /// Whether passes leave notes in the instruction stream.
    pub fn annotate(&self) -> (r: bool)
        ensures
            r == self.annotate,
    {
        self.annotate
    }
}

} // verus!
