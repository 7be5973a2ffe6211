//! The laws of the rewriter: what a successful pass guarantees, proved once
//! and for all over the transformation relation [`splice_transform`].
//!
//! Each law is a public proof function whose hypotheses are the contract of
//! [`crate::rewrite`] on a successful run with hits: the module was
//! well-formed, the scan was clean, every hit interpreted and decoded, and
//! the pass related the input to the output by `splice_transform`.

use vstd::prelude::*;

use crate::jsgen::{dec_digits, lemma_dec_digits_injective, shim_name_spec};
use crate::module::{arena_wf, func_wf, module_wf, Expr, FuncDecl, Module};
use crate::scan::{
    calls_in, calls_in_list, func_hits, hits_of, hits_upto, lemma_hits_upto, scan_ok,
};
use crate::splice::{
    hit_func_updated, in_removal_set, is_hit_fid, placeholder_ty, splice_transform,
};

verus! {

/// Retargeting one call away from the placeholder removes exactly that call
/// from the scan of any subtree: the bodies agree everywhere else, so the
/// traversal finds the same calls, minus every occurrence of `e`.
proof fn lemma_calls_in_retarget(b1: Seq<Expr>, b2: Seq<Expr>, dc: usize, e: usize, eid: usize)
    requires
        arena_wf(b1),
        arena_wf(b2),
        b2.len() == b1.len(),
        e < b1.len(),
        forall|j: int| 0 <= j < b1.len() && j != e ==> b2[j] == b1[j],
        b1[e as int] is Call,
        b2[e as int] is Call,
        b2[e as int]->Call_0 != dc,
        b2[e as int]->Call_1 == b1[e as int]->Call_1,
        eid < b1.len(),
    ensures
        calls_in(b2, dc, eid) == calls_in(b1, dc, eid).filter(|x: usize| x != e),
    decreases eid as int, 1int, 0int,
{
    broadcast use vstd::prelude::Seq::filter_distributes_over_add;

    reveal_with_fuel(Seq::<usize>::filter, 3);
    let pred = |x: usize| x != e;
    if eid == e {
        let args = b1[eid as int]->Call_1;
        lemma_calls_in_list_retarget(b1, b2, dc, e, args@, eid);
        if b1[eid as int]->Call_0 == dc {
            assert(seq![eid].drop_last() =~= Seq::<usize>::empty());
            assert(!pred(eid));
            assert(seq![eid].filter(pred) =~= Seq::<usize>::empty());
            assert(calls_in(b1, dc, eid) == calls_in_list(b1, dc, args@, eid) + seq![eid]);
            assert(calls_in(b2, dc, eid) == calls_in_list(b2, dc, args@, eid));
            assert(calls_in(b2, dc, eid) =~= calls_in(b1, dc, eid).filter(pred));
        } else {
            assert(calls_in(b2, dc, eid) =~= calls_in(b1, dc, eid).filter(pred));
        }
    } else {
        match b1[eid as int] {
            Expr::Const(_) => {
                assert(calls_in(b1, dc, eid) =~= Seq::<usize>::empty());
                assert(calls_in(b2, dc, eid) =~= calls_in(b1, dc, eid).filter(pred));
            },
            Expr::LocalGet(_) => {
                assert(calls_in(b1, dc, eid) =~= Seq::<usize>::empty());
                assert(calls_in(b2, dc, eid) =~= calls_in(b1, dc, eid).filter(pred));
            },
            Expr::LocalSet(_, c) => {
                lemma_calls_in_retarget(b1, b2, dc, e, c);
            },
            Expr::Call(g, args) => {
                lemma_calls_in_list_retarget(b1, b2, dc, e, args@, eid);
                if g == dc {
                    assert(seq![eid].drop_last() =~= Seq::<usize>::empty());
                    assert(pred(eid));
                    assert(seq![eid].filter(pred) =~= seq![eid]);
                    assert(calls_in(b2, dc, eid) =~= calls_in(b1, dc, eid).filter(pred));
                } else {
                    assert(calls_in(b2, dc, eid) =~= calls_in(b1, dc, eid).filter(pred));
                }
            },
            Expr::Block(es) => {
                lemma_calls_in_list_retarget(b1, b2, dc, e, es@, eid);
            },
        }
    }
}

/// List counterpart of [`lemma_calls_in_retarget`].
proof fn lemma_calls_in_list_retarget(
    b1: Seq<Expr>,
    b2: Seq<Expr>,
    dc: usize,
    e: usize,
    es: Seq<usize>,
    bound: usize,
)
    requires
        arena_wf(b1),
        arena_wf(b2),
        b2.len() == b1.len(),
        e < b1.len(),
        forall|j: int| 0 <= j < b1.len() && j != e ==> b2[j] == b1[j],
        b1[e as int] is Call,
        b2[e as int] is Call,
        b2[e as int]->Call_0 != dc,
        b2[e as int]->Call_1 == b1[e as int]->Call_1,
        bound <= b1.len(),
        forall|i: int| 0 <= i < es.len() ==> #[trigger] es[i] < bound,
    ensures
        calls_in_list(b2, dc, es, bound) == calls_in_list(b1, dc, es, bound).filter(
            |x: usize| x != e,
        ),
    decreases bound as int, 0int, es.len(),
{
    broadcast use vstd::prelude::Seq::filter_distributes_over_add;

    reveal_with_fuel(Seq::<usize>::filter, 3);
    let pred = |x: usize| x != e;
    if es.len() == 0 {
        assert(calls_in_list(b1, dc, es, bound).filter(pred) =~= Seq::<usize>::empty());
    } else {
        lemma_calls_in_retarget(b1, b2, dc, e, es[0]);
        lemma_calls_in_list_retarget(b1, b2, dc, e, es.skip(1), bound);
        assert(calls_in_list(b2, dc, es, bound) =~= calls_in_list(b1, dc, es, bound).filter(pred));
    }
}

/// A module none of whose functions has a hit scans to an empty hit list.
proof fn lemma_hits_upto_empty(m: Module, n: int)
    requires
        0 <= n <= m.funcs.len(),
        forall|fid: usize| (fid as int) < n ==> #[trigger] func_hits(m, fid).len() == 0,
    ensures
        hits_upto(m, n).len() == 0,
    decreases n,
{
    if n > 0 {
        lemma_hits_upto_empty(m, n - 1);
    }
}

/// Idempotence after success: a successful rewrite leaves no
/// describe-closure call behind, so a second pass scans cleanly, finds
/// nothing, and — by the contract of [`crate::rewrite`] — returns success
/// without mutating the module.
pub proof fn lemma_rewrite_idempotent(pre: Module, post: Module)
    requires
        module_wf(pre),
        module_wf(post),
        pre.describe_closure is Some,
        scan_ok(pre),
        splice_transform(pre, post),
    ensures
        scan_ok(post),
        hits_of(post).len() == 0,
{
    let dc = pre.describe_closure->0;
    let n0 = pre.funcs.len() as int;
    lemma_hits_upto(pre, n0);
    assert forall|fid: usize|
        (fid as int) < post.funcs.len() implies #[trigger] func_hits(post, fid).len() == 0 by {
        let i = fid as int;
        if i >= n0 {
            let k = i - n0;
            assert(post.funcs@[n0 + k] is Imported);
            assert(post.funcs@[i] is Imported);
        } else if is_hit_fid(pre, i) {
            let k = choose|k: int|
                0 <= k < hits_of(pre).len() && (#[trigger] hits_of(pre)[k]).0 as int == i;
            assert(hit_func_updated(pre, post, k));
            let e = hits_of(pre)[k].1;
            let pf = pre.funcs@[i]->Local_0;
            let qf = post.funcs@[i]->Local_0;
            assert(func_hits(pre, fid).len() >= 1);
            assert(pre.funcs@[i] is Local);
            assert(func_wf(pf, n0));
            assert(func_wf(qf, post.funcs.len() as int));
            let hs = func_hits(pre, fid);
            assert(hs == calls_in(pf.body@, dc, pf.root));
            assert(hs[0] == e);
            assert(hs.contains(e));
            crate::scan::lemma_calls_in_are_calls(pf.body@, dc, pf.root, e);
            assert(qf.body@[e as int] == Expr::Call((n0 + k) as usize, pf.body@[e as int]->Call_1));
            assert(n0 + k <= post.funcs.len());
            assert((n0 + k) as usize != dc);
            lemma_calls_in_retarget(pf.body@, qf.body@, dc, e, pf.root);
            assert(hs.len() == 1 && hs[0] == e);
            assert(hs =~= seq![e]);
            let pred = |x: usize| x != e;
            reveal_with_fuel(Seq::<usize>::filter, 3);
            assert(seq![e].drop_last() =~= Seq::<usize>::empty());
            assert(!pred(e));
            assert(seq![e].filter(pred) =~= Seq::<usize>::empty());
            assert(func_hits(post, fid) == calls_in(qf.body@, dc, qf.root));
            assert(qf.root == pf.root);
            assert(func_hits(post, fid).len() == 0);
        } else {
            assert(post.funcs@[i] == pre.funcs@[i]);
            if post.funcs@[i] is Local {
                assert(func_hits(pre, fid).len() <= 1);
                if func_hits(pre, fid).len() == 1 {
                    assert(exists|k: int|
                        0 <= k < hits_of(pre).len() && (#[trigger] hits_of(pre)[k]).0 == fid);
                    assert(is_hit_fid(pre, i));
                }
                assert(func_hits(post, fid) == func_hits(pre, fid));
            }
        }
    }
    lemma_hits_upto_empty(post, post.funcs.len() as int);
}

/// The number of local functions among the first `n` declarations.
pub open spec fn local_count_upto(funcs: Seq<FuncDecl>, n: int) -> int
    decreases n,
{
    if n <= 0 {
        0
    } else {
        local_count_upto(funcs, n - 1) + if funcs[n - 1] is Local {
            1int
        } else {
            0int
        }
    }
}

/// The number of local functions of a module.
pub open spec fn local_count(m: Module) -> int {
    local_count_upto(m.funcs@, m.funcs.len() as int)
}

/// Declaration lists that agree on which entries are local up to `n` hold
/// the same number of locals there.
proof fn lemma_local_count_agrees(a: Seq<FuncDecl>, b: Seq<FuncDecl>, n: int)
    requires
        0 <= n <= a.len(),
        n <= b.len(),
        forall|i: int| 0 <= i < n ==> (#[trigger] a[i] is Local <==> b[i] is Local),
    ensures
        local_count_upto(a, n) == local_count_upto(b, n),
    decreases n,
{
    if n > 0 {
        lemma_local_count_agrees(a, b, n - 1);
    }
}

/// Declarations from `n` to `m` that are all imports add no locals.
proof fn lemma_local_count_imported_tail(funcs: Seq<FuncDecl>, n: int, m: int)
    requires
        0 <= n <= m <= funcs.len(),
        forall|i: int| n <= i < m ==> !(#[trigger] funcs[i] is Local),
    ensures
        local_count_upto(funcs, m) == local_count_upto(funcs, n),
    decreases m - n,
{
    if m > n {
        lemma_local_count_imported_tail(funcs, n, m - 1);
    }
}

/// Call-site preservation: the pass never adds or removes a local function,
/// and each hit's enclosing function still holds exactly one call at the
/// recorded expression identifier — now aimed at that hit's new import, with
/// the original arguments.
pub proof fn lemma_call_sites_preserved(pre: Module, post: Module)
    requires
        splice_transform(pre, post),
    ensures
        local_count(post) == local_count(pre),
        forall|i: int|
            0 <= i < pre.funcs.len() ==> (#[trigger] post.funcs@[i] is Local <==> pre.funcs@[i]
                is Local),
        forall|i: int|
            pre.funcs.len() <= i < post.funcs.len() ==> !(#[trigger] post.funcs@[i] is Local),
        forall|k: int|
            0 <= k < hits_of(pre).len() ==> {
                let f = (#[trigger] hits_of(pre)[k]).0 as int;
                let e = hits_of(pre)[k].1 as int;
                &&& post.funcs@[f] is Local
                &&& post.funcs@[f]->Local_0.body@[e] == Expr::Call(
                    (pre.funcs.len() + k) as usize,
                    pre.funcs@[f]->Local_0.body@[e]->Call_1,
                )
                &&& post.funcs@[pre.funcs.len() + k] is Imported
            },
{
    lemma_hits_upto(pre, pre.funcs.len() as int);
    assert forall|i: int|
        0 <= i < pre.funcs.len() implies (#[trigger] post.funcs@[i] is Local <==> pre.funcs@[i]
        is Local) by {
        if is_hit_fid(pre, i) {
            let k = choose|k: int|
                0 <= k < hits_of(pre).len() && (#[trigger] hits_of(pre)[k]).0 as int == i;
            assert(hit_func_updated(pre, post, k));
            assert(func_hits(pre, hits_of(pre)[k].0).len() >= 1);
            assert(pre.funcs@[i] is Local);
        }
    }
    assert forall|i: int|
        pre.funcs.len() <= i < post.funcs.len() implies !(#[trigger] post.funcs@[i] is Local) by {
        let k = i - pre.funcs.len();
        assert(post.funcs@[pre.funcs.len() + k] is Imported);
    }
    assert forall|k: int|
        0 <= k < hits_of(pre).len() implies {
            let f = (#[trigger] hits_of(pre)[k]).0 as int;
            let e = hits_of(pre)[k].1 as int;
            &&& post.funcs@[f] is Local
            &&& post.funcs@[f]->Local_0.body@[e] == Expr::Call(
                (pre.funcs.len() + k) as usize,
                pre.funcs@[f]->Local_0.body@[e]->Call_1,
            )
            &&& post.funcs@[pre.funcs.len() + k] is Imported
        } by {
        assert(hit_func_updated(pre, post, k));
        assert(post.funcs@[pre.funcs.len() + k] is Imported);
    }
    lemma_local_count_agrees(pre.funcs@, post.funcs@, pre.funcs.len() as int);
    lemma_local_count_imported_tail(
        post.funcs@,
        pre.funcs.len() as int,
        post.funcs.len() as int,
    );
}

/// Table accounting: after the pass, every index in the removal set is
/// empty, every index outside it is untouched, and no slot was ever
/// renumbered.
pub proof fn lemma_table_accounting(pre: Module, post: Module)
    requires
        splice_transform(pre, post),
    ensures
        post.table.len() == pre.table.len(),
        forall|j: int|
            0 <= j < pre.table.len() && in_removal_set(pre, j) ==> #[trigger] post.table@[j]
                is None,
        forall|j: int|
            0 <= j < pre.table.len() && !in_removal_set(pre, j) ==> #[trigger] post.table@[j]
                == pre.table@[j],
{
}

/// Unique shim names: the names of the newly exported shims are pairwise
/// distinct — and deterministic, being spec functions of the input module
/// alone.
pub proof fn lemma_unique_shim_names(pre: Module, post: Module)
    requires
        module_wf(pre),
        splice_transform(pre, post),
    ensures
        forall|k1: int, k2: int|
            0 <= k1 < k2 < hits_of(pre).len() ==> #[trigger] post.shims@[pre.shims.len() + k1].name@
                != #[trigger] post.shims@[pre.shims.len() + k2].name@,
{
    lemma_hits_upto(pre, pre.funcs.len() as int);
    assert forall|k1: int, k2: int|
        0 <= k1 < k2 < hits_of(pre).len() implies #[trigger] post.shims@[pre.shims.len()
        + k1].name@ != #[trigger] post.shims@[pre.shims.len() + k2].name@ by {
        let f1 = hits_of(pre)[k1].0;
        let f2 = hits_of(pre)[k2].0;
        assert(f1 < f2);
        let n1 = shim_name_spec(f1);
        let n2 = shim_name_spec(f2);
        if n1 == n2 {
            let p = "__wbindgen_closure_wrapper"@;
            assert(n1.skip(p.len() as int) =~= dec_digits(f1 as nat));
            assert(n2.skip(p.len() as int) =~= dec_digits(f2 as nat));
            lemma_dec_digits_injective(f1 as nat, f2 as nat);
        }
    }
}

/// Signature fidelity: every new import carries exactly the type of the
/// describe-closure placeholder import.
pub proof fn lemma_signature_fidelity(pre: Module, post: Module)
    requires
        splice_transform(pre, post),
    ensures
        forall|k: int|
            0 <= k < hits_of(pre).len() ==> (#[trigger] post.funcs@[pre.funcs.len() + k])
                is Imported && post.funcs@[pre.funcs.len() + k]->Imported_0.ty == placeholder_ty(
                pre,
            ),
{
}

} // verus!
