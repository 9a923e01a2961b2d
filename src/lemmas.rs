//! What the fusion of a block guarantees, proved over `fuse_block`.

use vstd::prelude::*;

use crate::ir::OpModel;
use crate::opt_zero::{fuse_block, fuse_shader, fused_instrs, zero_note, zero_pair};

verus! {

/// A fusable pair never overlaps another: its first instruction writes an
/// even register, so it cannot end a pair, and its second writes an odd one,
/// so it cannot start one.
pub proof fn lemma_pairs_disjoint(a: OpModel, b: OpModel, c: OpModel)
    requires
        zero_pair(a, b) is Some,
    ensures
        zero_pair(c, a) is None,
        zero_pair(b, c) is None,
{
}

/// Where the last instruction of `x` does not pair with the first of `y`,
/// the pass treats the two halves independently.
pub proof fn lemma_fuse_split(x: Seq<OpModel>, y: Seq<OpModel>, annotate: bool)
    requires
        x.len() == 0 || y.len() == 0 || zero_pair(x.last(), y[0]) is None,
    ensures
        fuse_block(x + y, annotate) == fuse_block(x, annotate) + fuse_block(y, annotate),
    decreases x.len(),
{
    if x.len() == 0 {
        assert(x + y =~= y);
        assert(fuse_block(x, annotate) + fuse_block(y, annotate) =~= fuse_block(y, annotate));
    } else if y.len() == 0 {
        assert(x + y =~= x);
        assert(fuse_block(x, annotate) + fuse_block(y, annotate) =~= fuse_block(x, annotate));
    } else if x.len() == 1 {
        let s = x + y;
        assert(s[0] == x[0] && s[1] == y[0]);
        assert(s.skip(1) =~= y);
    } else {
        let s = x + y;
        assert(s[0] == x[0] && s[1] == x[1]);
        match zero_pair(x[0], x[1]) {
            Some(r) => {
                let rest = x.skip(2);
                assert(s.skip(2) =~= rest + y);
                if rest.len() > 0 {
                    assert(rest.last() == x.last());
                }
                lemma_fuse_split(rest, y, annotate);
                assert(fused_instrs(r, annotate) + (fuse_block(rest, annotate) + fuse_block(
                    y,
                    annotate,
                )) =~= (fused_instrs(r, annotate) + fuse_block(rest, annotate)) + fuse_block(
                    y,
                    annotate,
                ));
            },
            None => {
                let rest = x.skip(1);
                assert(s.skip(1) =~= rest + y);
                assert(rest.last() == x.last());
                lemma_fuse_split(rest, y, annotate);
                assert(seq![x[0]] + (fuse_block(rest, annotate) + fuse_block(y, annotate)) =~= (
                seq![x[0]] + fuse_block(rest, annotate)) + fuse_block(y, annotate));
            },
        }
    }
}

/// Two adjacent moves of zero into an even general-purpose register and the
/// one after it become one read of the zero special register into the pair
/// (followed by the note when annotations are on), whatever surrounds them.
pub proof fn lemma_zero_pair_fused(
    pre: Seq<OpModel>,
    a: OpModel,
    b: OpModel,
    post: Seq<OpModel>,
    annotate: bool,
)
    requires
        zero_pair(a, b) is Some,
    ensures
        zero_pair(a, b)->0.base_idx == a->Mov_0.dst->Reg_0.base_idx,
        zero_pair(a, b)->0.comps == 2,
        fuse_block(pre + seq![a, b] + post, annotate) == fuse_block(pre, annotate) + fused_instrs(
            zero_pair(a, b)->0,
            annotate,
        ) + fuse_block(post, annotate),
{
    let r = zero_pair(a, b)->0;
    let mid = seq![a, b] + post;
    assert(pre + seq![a, b] + post =~= pre + mid);
    if pre.len() > 0 {
        lemma_pairs_disjoint(a, b, pre.last());
    }
    lemma_fuse_split(pre, mid, annotate);
    assert(mid.skip(2) =~= post);
    assert(fuse_block(mid, annotate) == fused_instrs(r, annotate) + fuse_block(post, annotate));
    assert(fuse_block(pre, annotate) + (fused_instrs(r, annotate) + fuse_block(post, annotate))
        =~= fuse_block(pre, annotate) + fused_instrs(r, annotate) + fuse_block(post, annotate));
}

/// Two adjacent instructions that cannot be fused are never merged: alone
/// they come out as they went in, and in any block the pass treats what
/// precedes the cut between them independently of what follows it.
pub proof fn lemma_unfusable_pair_kept(
    pre: Seq<OpModel>,
    a: OpModel,
    b: OpModel,
    post: Seq<OpModel>,
    annotate: bool,
)
    requires
        zero_pair(a, b) is None,
    ensures
        fuse_block(seq![a, b], annotate) == seq![a, b],
        fuse_block(pre + seq![a, b] + post, annotate) == fuse_block(pre.push(a), annotate)
            + fuse_block(seq![b] + post, annotate),
{
    let two = seq![a, b];
    assert(two[0] == a && two[1] == b);
    assert(two.skip(1) =~= seq![b]);
    assert(fuse_block(seq![b], annotate) == seq![b]);
    assert(seq![a] + seq![b] =~= two);
    assert(pre + seq![a, b] + post =~= pre.push(a) + (seq![b] + post));
    lemma_fuse_split(pre.push(a), seq![b] + post, annotate);
}

/// No two adjacent instructions of `t` can be fused.
pub open spec fn no_zero_pairs(t: Seq<OpModel>) -> bool {
    forall|i: int, j: int|
        0 <= i && j == i + 1 && j < t.len() ==> #[trigger] zero_pair(t[i], t[j]) is None
}

/// A block with nothing to fuse is left as it is.
pub proof fn lemma_no_zero_pairs_unchanged(t: Seq<OpModel>, annotate: bool)
    requires
        no_zero_pairs(t),
    ensures
        fuse_block(t, annotate) == t,
    decreases t.len(),
{
    if t.len() >= 2 {
        let rest = t.skip(1);
        assert(zero_pair(t[0], t[1]) is None);
        assert forall|i: int, j: int|
            0 <= i && j == i + 1 && j < rest.len() implies #[trigger] zero_pair(
            rest[i],
            rest[j],
        ) is None by {
            assert(zero_pair(t[i + 1], t[j + 1]) is None);
        }
        lemma_no_zero_pairs_unchanged(rest, annotate);
        assert(seq![t[0]] + rest =~= t);
    }
}

/// The first instruction out of the pass is the block's first, or a read of
/// the zero special register.
proof fn lemma_fuse_head(s: Seq<OpModel>, annotate: bool)
    requires
        s.len() > 0,
    ensures
        fuse_block(s, annotate).len() > 0,
        fuse_block(s, annotate)[0] == s[0] || fuse_block(s, annotate)[0] is CS2R,
{
    if s.len() >= 2 {
        match zero_pair(s[0], s[1]) {
            Some(r) => {
                assert(fused_instrs(r, annotate)[0] is CS2R);
            },
            None => {},
        }
    }
}

/// Nothing that the pass leaves can be fused again.
pub proof fn lemma_fuse_leaves_no_zero_pairs(s: Seq<OpModel>, annotate: bool)
    ensures
        no_zero_pairs(fuse_block(s, annotate)),
    decreases s.len(),
{
    let out = fuse_block(s, annotate);
    if s.len() < 2 {
        assert forall|i: int, j: int|
            0 <= i && j == i + 1 && j < out.len() implies #[trigger] zero_pair(
            out[i],
            out[j],
        ) is None by {
            if s.len() == 1 {
                assert(false);
            }
        }
    } else {
        match zero_pair(s[0], s[1]) {
            Some(r) => {
                let head = fused_instrs(r, annotate);
                let tail = fuse_block(s.skip(2), annotate);
                lemma_fuse_leaves_no_zero_pairs(s.skip(2), annotate);
                assert forall|i: int, j: int|
                    0 <= i && j == i + 1 && j < out.len() implies #[trigger] zero_pair(
                    out[i],
                    out[j],
                ) is None by {
                    if i < head.len() {
                        assert(out[i] == head[i]);
                        assert(out[i] !is Mov);
                    } else {
                        assert(out[i] == tail[i - head.len()]);
                        assert(out[j] == tail[j - head.len()]);
                        assert(zero_pair(tail[i - head.len()], tail[j - head.len()]) is None);
                    }
                }
            },
            None => {
                let tail = fuse_block(s.skip(1), annotate);
                lemma_fuse_leaves_no_zero_pairs(s.skip(1), annotate);
                lemma_fuse_head(s.skip(1), annotate);
                assert forall|i: int, j: int|
                    0 <= i && j == i + 1 && j < out.len() implies #[trigger] zero_pair(
                    out[i],
                    out[j],
                ) is None by {
                    if i == 0 {
                        assert(out[0] == s[0]);
                        assert(out[1] == tail[0]);
                    } else {
                        assert(out[i] == tail[i - 1]);
                        assert(out[j] == tail[j - 1]);
                        assert(zero_pair(tail[i - 1], tail[j - 1]) is None);
                    }
                }
            },
        }
    }
}

/// Running the pass a second time changes nothing, whether or not either
/// run annotates.
pub proof fn lemma_fuse_block_idempotent(s: Seq<OpModel>, first: bool, second: bool)
    ensures
        fuse_block(fuse_block(s, first), second) == fuse_block(s, first),
{
    lemma_fuse_leaves_no_zero_pairs(s, first);
    lemma_no_zero_pairs_unchanged(fuse_block(s, first), second);
}

/// Running the pass over a whole shader a second time changes nothing.
pub proof fn lemma_opt_zero_idempotent(sh: Seq<Seq<Seq<OpModel>>>, first: bool, second: bool)
    ensures
        fuse_shader(fuse_shader(sh, first), second) == fuse_shader(sh, first),
{
    let once = fuse_shader(sh, first);
    let twice = fuse_shader(once, second);
    assert forall|f: int| 0 <= f < sh.len() implies #[trigger] twice[f] == once[f] by {
        assert forall|b: int| 0 <= b < sh[f].len() implies #[trigger] twice[f][b] == once[f][b] by {
            lemma_fuse_block_idempotent(sh[f][b], first, second);
        }
        assert(twice[f] =~= once[f]);
    }
    assert(twice =~= once);
}

/// Whether the instruction at `k` is one of a pair that the pass fuses.
pub open spec fn in_zero_pair(s: Seq<OpModel>, k: int) -> bool {
    ||| (0 <= k && k + 1 < s.len() && zero_pair(s[k], s[k + 1]) is Some)
    ||| (0 < k && k < s.len() && zero_pair(s[k - 1], s[k]) is Some)
}

/// Where the pass puts what it makes of the instructions before `k`: the
/// output of the block's first `k` instructions ends there.
pub open spec fn out_pos(s: Seq<OpModel>, k: int, annotate: bool) -> int {
    fuse_block(s.take(k), annotate).len() as int
}

/// An instruction outside any fused pair starts a part of the block that the
/// pass treats on its own, and comes out first there.
proof fn lemma_untouched_at(s: Seq<OpModel>, k: int, annotate: bool)
    requires
        0 <= k < s.len(),
        !in_zero_pair(s, k),
    ensures
        fuse_block(s, annotate) == fuse_block(s.take(k), annotate) + fuse_block(
            s.skip(k),
            annotate,
        ),
        fuse_block(s.skip(k), annotate).len() > 0,
        fuse_block(s.skip(k), annotate)[0] == s[k],
{
    assert(s.take(k) + s.skip(k) =~= s);
    if k > 0 {
        assert(s.take(k).last() == s[k - 1]);
    }
    lemma_fuse_split(s.take(k), s.skip(k), annotate);
    let t = s.skip(k);
    if t.len() >= 2 {
        assert(t[0] == s[k] && t[1] == s[k + 1]);
    }
}

/// The instructions that no fusion touches come out unchanged and in the
/// order they went in: the one at `i` lands where the output of the
/// instructions before it ends, and those places grow with `i`.
pub proof fn lemma_untouched_order_kept(s: Seq<OpModel>, i: int, j: int, annotate: bool)
    requires
        0 <= i < j < s.len(),
        !in_zero_pair(s, i),
        !in_zero_pair(s, j),
    ensures
        out_pos(s, i, annotate) < out_pos(s, j, annotate) < fuse_block(s, annotate).len(),
        fuse_block(s, annotate)[out_pos(s, i, annotate)] == s[i],
        fuse_block(s, annotate)[out_pos(s, j, annotate)] == s[j],
{
    lemma_untouched_at(s, i, annotate);
    lemma_untouched_at(s, j, annotate);
    let pj = s.take(j);
    assert(pj.take(i) =~= s.take(i));
    assert(pj.skip(i) =~= s.subrange(i, j));
    assert(!in_zero_pair(pj, i)) by {
        if i + 1 < j {
            assert(pj[i] == s[i] && pj[i + 1] == s[i + 1]);
        }
        if 0 < i {
            assert(pj[i - 1] == s[i - 1] && pj[i] == s[i]);
        }
    }
    lemma_untouched_at(pj, i, annotate);
}

/// How many pairs the pass fuses in a block.
pub open spec fn fusion_count(s: Seq<OpModel>) -> nat
    decreases s.len(),
{
    if s.len() < 2 {
        0
    } else {
        match zero_pair(s[0], s[1]) {
            Some(_) => 1 + fusion_count(s.skip(2)),
            None => fusion_count(s.skip(1)),
        }
    }
}

/// How many annotations a sequence of instructions holds.
pub open spec fn annotation_count(s: Seq<OpModel>) -> nat
    decreases s.len(),
{
    if s.len() == 0 {
        0
    } else {
        (if s[0] is Annotate {
            1nat
        } else {
            0nat
        }) + annotation_count(s.skip(1))
    }
}

proof fn lemma_annotation_count_add(x: Seq<OpModel>, y: Seq<OpModel>)
    ensures
        annotation_count(x + y) == annotation_count(x) + annotation_count(y),
    decreases x.len(),
{
    if x.len() == 0 {
        assert(x + y =~= y);
    } else {
        assert((x + y)[0] == x[0]);
        assert((x + y).skip(1) =~= x.skip(1) + y);
        lemma_annotation_count_add(x.skip(1), y);
    }
}

/// The pass adds exactly one annotation per fused pair when annotations are
/// on, and none when they are off.
pub proof fn lemma_annotation_count(s: Seq<OpModel>, annotate: bool)
    ensures
        annotation_count(fuse_block(s, annotate)) == annotation_count(s) + if annotate {
            fusion_count(s)
        } else {
            0
        },
    decreases s.len(),
{
    if s.len() >= 2 {
        let first = seq![s[0]];
        assert(first.skip(1) =~= Seq::<OpModel>::empty());
        assert(s =~= first + s.skip(1));
        lemma_annotation_count_add(first, s.skip(1));
        match zero_pair(s[0], s[1]) {
            Some(r) => {
                let second = seq![s[1]];
                assert(second.skip(1) =~= Seq::<OpModel>::empty());
                assert(s.skip(1) =~= second + s.skip(2));
                lemma_annotation_count_add(second, s.skip(2));
                assert(annotation_count(first) == 0);
                assert(annotation_count(second) == 0);
                assert(annotation_count(s) == annotation_count(s.skip(2)));
                let head = fused_instrs(r, annotate);
                let tail = fuse_block(s.skip(2), annotate);
                lemma_annotation_count_add(head, tail);
                lemma_annotation_count(s.skip(2), annotate);
                if annotate {
                    assert(head.skip(1) =~= seq![head[1]]);
                    assert(seq![head[1]].skip(1) =~= Seq::<OpModel>::empty());
                    assert(annotation_count(seq![head[1]]) == 1);
                    assert(annotation_count(head) == 1);
                } else {
                    assert(head.skip(1) =~= Seq::<OpModel>::empty());
                    assert(annotation_count(head) == 0);
                }
            },
            None => {
                lemma_annotation_count_add(first, fuse_block(s.skip(1), annotate));
                lemma_annotation_count(s.skip(1), annotate);
            },
        }
    }
}

/// With annotations on, each fused pair comes out as the read of the zero
/// special register immediately followed by the note.
pub proof fn lemma_zero_pair_annotated(s: Seq<OpModel>, i: int)
    requires
        0 <= i && i + 1 < s.len(),
        zero_pair(s[i], s[i + 1]) is Some,
    ensures
        out_pos(s, i, true) + 1 < fuse_block(s, true).len(),
        fuse_block(s, true)[out_pos(s, i, true)] == fused_instrs(
            zero_pair(s[i], s[i + 1])->0,
            true,
        )[0],
        fuse_block(s, true)[out_pos(s, i, true) + 1] == OpModel::Annotate(zero_note()),
{
    let pre = s.take(i);
    let post = s.skip(i + 2);
    assert(pre + seq![s[i], s[i + 1]] + post =~= s);
    lemma_zero_pair_fused(pre, s[i], s[i + 1], post, true);
}

} // verus!
