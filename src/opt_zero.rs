//! Fusion of adjacent zero moves into a read of the zero special register.

use vstd::prelude::*;

use crate::ir::{
    instrs_model, BasicBlock, DebugFlags, Dst, Function, Instr, Op, OpCS2R, OpModel, RegFile,
    RegRef, Shader,
};

verus! {

/// The index of the special register that always reads as zero.
pub const SR_ZERO: u8 = 255;

/// The note placed after each fused instruction when annotations are on.
pub open spec fn zero_note() -> Seq<char> {
    "combined by opt_zero"@
}

/// The register pair that two instructions can be fused into, if any: both
/// move zero into plain general-purpose registers, the first at an even
/// index and the second right after it.
pub open spec fn zero_pair(prev: OpModel, this: OpModel) -> Option<RegRef> {
    match (prev, this) {
        (OpModel::Mov(p), OpModel::Mov(t)) => {
            if p.src.is_zero() && t.src.is_zero() && p.dst is Reg && t.dst is Reg {
                let pr = p.dst->Reg_0;
                let tr = t.dst->Reg_0;
                if tr.file == RegFile::GPR && pr.file == tr.file && pr.base_idx % 2 == 0
                    && pr.base_idx + 1 == tr.base_idx {
                    Some(RegRef { file: pr.file, base_idx: pr.base_idx, comps: 2 })
                } else {
                    None
                }
            } else {
                None
            }
        },
        _ => None,
    }
}

/// What a fused pair becomes: the special-register read, then the note when
/// annotations are on.
pub open spec fn fused_instrs(r: RegRef, annotate: bool) -> Seq<OpModel> {
    let read = OpModel::CS2R(OpCS2R { dst: Dst::Reg(r), idx: SR_ZERO });
    if annotate {
        seq![read, OpModel::Annotate(zero_note())]
    } else {
        seq![read]
    }
}

/// A block after the pass: scanning left to right, each pair that can be
/// fused is replaced, and every other instruction is kept.
pub open spec fn fuse_block(s: Seq<OpModel>, annotate: bool) -> Seq<OpModel>
    decreases s.len(),
{
    if s.len() < 2 {
        s
    } else {
        match zero_pair(s[0], s[1]) {
            Some(r) => fused_instrs(r, annotate) + fuse_block(s.skip(2), annotate),
            None => seq![s[0]] + fuse_block(s.skip(1), annotate),
        }
    }
}

/// A function after the pass: each block rewritten on its own.
pub open spec fn fuse_function(f: Seq<Seq<OpModel>>, annotate: bool) -> Seq<Seq<OpModel>> {
    f.map_values(|b: Seq<OpModel>| fuse_block(b, annotate))
}

/// A shader after the pass: each function rewritten on its own.
pub open spec fn fuse_shader(sh: Seq<Seq<Seq<OpModel>>>, annotate: bool) -> Seq<
    Seq<Seq<OpModel>>,
> {
    sh.map_values(|f: Seq<Seq<OpModel>>| fuse_function(f, annotate))
}

/// Decides whether `prev` and `this` can be fused, and into which register
/// pair.
pub fn try_zero(prev: &Instr, this: &Instr) -> (r: Option<RegRef>)
    ensures
        r == zero_pair(prev@, this@),
{
    let prev_op = match &prev.op {
        Op::Mov(m) => m,
        _ => {
            return None;
        },
    };
    let this_op = match &this.op {
        Op::Mov(m) => m,
        _ => {
            return None;
        },
    };

    if !prev_op.src.is_zero() || !this_op.src.is_zero() {
        return None;
    }

    let prev_reg = match prev_op.dst.as_reg() {
        Some(r) => r,
        None => {
            return None;
        },
    };
    let this_reg = match this_op.dst.as_reg() {
        Some(r) => r,
        None => {
            return None;
        },
    };

    if this_reg.file() != RegFile::GPR {
        return None;
    }
    if prev_reg.file() != this_reg.file() {
        return None;
    }
    if prev_reg.base_idx() % 2 == 1 {
        return None;
    }
    if this_reg.base_idx() == 0 || prev_reg.base_idx() != this_reg.base_idx() - 1 {
        return None;
    }

    Some(RegRef::new(prev_reg.file(), prev_reg.base_idx(), 2))
}

/// Rewrites one block's instructions: each instruction is compared with the
/// last one kept so far, and a pair that can be fused is replaced.
pub fn opt_zero_instrs(instrs: Vec<Instr>, annotate: bool) -> (out: Vec<Instr>)
    ensures
        instrs_model(out@) == fuse_block(instrs_model(instrs@), annotate),
{
    let ghost input = instrs@;
    let ghost s = instrs_model(input);
    let mut out: Vec<Instr> = Vec::new();
    // Whether the last kept instruction is the input's previous one, still
    // free to pair with the next.
    let ghost mut open: bool = false;
    proof {
        assert(s.skip(0) =~= s);
        assert(instrs_model(out@) + fuse_block(s, annotate) =~= fuse_block(s, annotate));
    }
    for instr in it: instrs.into_iter()
        invariant
            it.seq() == input,
            s == instrs_model(input),
            open ==> {
                &&& 0 < it.index()
                &&& 0 < out.len()
                &&& out@.last()@ == s[it.index() - 1]
                &&& fuse_block(s, annotate) == instrs_model(out@).drop_last() + fuse_block(
                    s.skip(it.index() - 1),
                    annotate,
                )
            },
            !open ==> {
                &&& fuse_block(s, annotate) == instrs_model(out@) + fuse_block(
                    s.skip(it.index()),
                    annotate,
                )
                &&& 0 < out.len() ==> out@.last()@ !is Mov
            },
    {
        let ghost i = it.index();
        let ghost before = out@;
        let mut fused: Option<RegRef> = None;
        if out.len() > 0 {
            fused = try_zero(&out[out.len() - 1], &instr);
        }
        match fused {
            Some(regref) => {
                out.pop();
                out.push(Instr::new_cs2r(Dst::from(regref), SR_ZERO));
                if annotate {
                    out.push(Instr::new_annotate("combined by opt_zero".to_owned()));
                }
                proof {
                    let t = s.skip(i - 1);
                    assert(t[0] == s[i - 1] && t[1] == s[i]);
                    assert(t.skip(2) =~= s.skip(i + 1));
                    assert(instrs_model(out@) =~= instrs_model(before).drop_last() + fused_instrs(
                        regref,
                        annotate,
                    ));
                    open = false;
                }
            },
            None => {
                out.push(instr);
                proof {
                    if open {
                        let t = s.skip(i - 1);
                        assert(t[0] == s[i - 1] && t[1] == s[i]);
                        assert(t.skip(1) =~= s.skip(i));
                        assert(instrs_model(before).drop_last() + seq![s[i - 1]] =~= instrs_model(
                            before,
                        ));
                    }
                    assert(instrs_model(out@).drop_last() =~= instrs_model(before));
                    open = true;
                }
            },
        }
    }
    proof {
        if open {
            assert(s.skip(s.len() - 1) =~= seq![s[s.len() - 1]]);
            assert(instrs_model(out@).drop_last() + seq![s[s.len() - 1]] =~= instrs_model(out@));
        } else {
            assert(s.skip(s.len() as int) =~= Seq::<OpModel>::empty());
            assert(instrs_model(out@) + Seq::<OpModel>::empty() =~= instrs_model(out@));
        }
    }
    out
}

impl BasicBlock {
    /// Runs the fusion over this block's instructions.
    pub fn opt_zero(&mut self, annotate: bool)
        ensures
            final(self)@ == fuse_block(old(self)@, annotate),
    {
        let mut instrs: Vec<Instr> = Vec::new();
        std::mem::swap(&mut instrs, &mut self.instrs);
        self.instrs = opt_zero_instrs(instrs, annotate);
    }
}

impl Function {
    /// Runs the fusion over every block of this function.
    pub fn opt_zero(&mut self, annotate: bool)
        ensures
            final(self)@ == fuse_function(old(self)@, annotate),
    {
        let n = self.blocks.len();
        for i in 0..n
            invariant
                self.blocks.len() == n,
                n == old(self).blocks.len(),
                forall|k: int|
                    0 <= k < i ==> #[trigger] self.blocks@[k]@ == fuse_block(
                        old(self).blocks@[k]@,
                        annotate,
                    ),
                forall|k: int| i <= k < n ==> #[trigger] self.blocks@[k] == old(self).blocks@[k],
        {
            self.blocks[i].opt_zero(annotate);
        }
        assert(self@ =~= fuse_function(old(self)@, annotate));
    }
}

impl Shader {
    /// Fuses, in every block of every function, each pair of adjacent zero
    /// moves into an aligned general-purpose register pair into one read of
    /// the zero special register; when `debug` asks for annotations, a note
    /// follows each such read.
    pub fn opt_zero(&mut self, debug: &DebugFlags)
        ensures
            final(self)@ == fuse_shader(old(self)@, debug.annotate),
    {
        let annotate = debug.annotate();
        let n = self.functions.len();
        for i in 0..n
            invariant
                annotate == debug.annotate,
                self.functions.len() == n,
                n == old(self).functions.len(),
                forall|k: int|
                    0 <= k < i ==> #[trigger] self.functions@[k]@ == fuse_function(
                        old(self).functions@[k]@,
                        annotate,
                    ),
                forall|k: int|
                    i <= k < n ==> #[trigger] self.functions@[k] == old(self).functions@[k],
        {
            self.functions[i].opt_zero(annotate);
        }
        assert(self@ =~= fuse_shader(old(self)@, annotate));
    }
}

} // verus!
