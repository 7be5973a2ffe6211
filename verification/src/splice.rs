//! The splicer and the `rewrite` orchestrator.
//!
//! `rewrite` runs the scanner; interprets and decodes the descriptor of every
//! hit; synthesizes one JavaScript factory shim per hit and registers it;
//! adds, per hit, a new import typed like the describe-closure placeholder;
//! retargets each original call to its new import; and finally clears every
//! function-table slot the interpretation visited. All validation happens
//! before the first mutation, so a failing rewrite leaves the module exactly
//! as it was.

use vstd::prelude::*;

use crate::descriptor::{decode, decode_spec, ClosureDescriptor, DescriptorView};
use crate::error::RewriteError;
use crate::interpret::{interpret_closure_descriptor, interpret_spec};
use crate::jsgen::{shim_name, shim_name_spec, shim_source, shim_source_spec};
use crate::module::{expr_kids_lt, func_wf, module_wf, Expr, Func, FuncDecl, Import, Module, Shim};
use crate::scan::{
    calls_in, func_hits, hits_of, lemma_calls_in_are_calls, lemma_hits_upto, scan, scan_ok,
};

verus! {

/// What interpreting the `k`-th hit of `m` yields.
pub open spec fn hit_interp(m: Module, k: int) -> Option<(u32, Seq<u32>)> {
    interpret_spec(m, hits_of(m)[k].0)
}

/// The decoded descriptor of the `k`-th hit of `m`, where both
/// interpretation and decoding succeed.
pub open spec fn hit_descr(m: Module, k: int) -> Option<DescriptorView> {
    match hit_interp(m, k) {
        Option::None => Option::None,
        Option::Some((t, words)) => decode_spec(words),
    }
}

/// Every hit of `m` interprets and decodes.
pub open spec fn all_hits_ok(m: Module) -> bool {
    forall|k: int| 0 <= k < hits_of(m).len() ==> #[trigger] hit_descr(m, k) is Some
}

/// Whether table index `j` is visited by some hit's interpretation — the
/// removal set of the pass.
pub open spec fn in_removal_set(m: Module, j: int) -> bool {
    exists|k: int|
        0 <= k < hits_of(m).len() && ((#[trigger] hit_interp(m, k))->0).0 as int == j
}

/// Every index in the removal set names an occupied table slot.
pub open spec fn removal_ok(m: Module) -> bool {
    forall|k: int|
        0 <= k < hits_of(m).len() ==> {
            let t = ((#[trigger] hit_interp(m, k))->0).0 as int;
            t < m.table.len() && m.table@[t] is Some
        }
}

/// The inputs on which `rewrite` succeeds: no placeholder import, or a clean
/// scan with either no hits or every hit interpreted, decoded, and its table
/// slot occupied.
pub open spec fn rewrite_accepts(m: Module) -> bool {
    ||| m.describe_closure is None
    ||| (scan_ok(m) && (hits_of(m).len() == 0 || (all_hits_ok(m) && removal_ok(m))))
}

/// The type identifier of the describe-closure placeholder import.
pub open spec fn placeholder_ty(m: Module) -> usize {
    m.funcs@[m.describe_closure->0 as int]->Imported_0.ty
}

/// Whether local function `i` of `pre` is one of the scanner's hits.
pub open spec fn is_hit_fid(pre: Module, i: int) -> bool {
    exists|k: int| 0 <= k < hits_of(pre).len() && (#[trigger] hits_of(pre)[k]).0 as int == i
}

/// How the `k`-th hit's enclosing function looks after splicing: unchanged
/// but for the describe call, which now targets the `k`-th new import with
/// its original arguments.
pub open spec fn hit_func_updated(pre: Module, post: Module, k: int) -> bool {
    let f = hits_of(pre)[k].0 as int;
    let e = hits_of(pre)[k].1 as int;
    let pf = pre.funcs@[f]->Local_0;
    let qf = post.funcs@[f]->Local_0;
    &&& post.funcs@[f] is Local
    &&& qf.ty == pf.ty
    &&& qf.n_locals == pf.n_locals
    &&& qf.root == pf.root
    &&& qf.body.len() == pf.body.len()
    &&& forall|j: int| 0 <= j < pf.body.len() && j != e ==> qf.body@[j] == pf.body@[j]
    &&& pf.body@[e] is Call
    &&& qf.body@[e] == Expr::Call(
        (pre.funcs.len() + k) as usize,
        pf.body@[e]->Call_1,
    )
}

/// The whole effect of a successful rewrite with at least one hit, relating
/// the module before the pass to the module after it.
pub open spec fn splice_transform(pre: Module, post: Module) -> bool {
    let hits = hits_of(pre);
    let n = hits.len() as int;
    let n0 = pre.funcs.len() as int;
    &&& post.funcs.len() == n0 + n
    // untouched local functions and imports keep their declarations
    &&& forall|i: int|
        0 <= i < n0 && !is_hit_fid(pre, i) ==> post.funcs@[i] == pre.funcs@[i]
    // each hit's function is identical but for the retargeted call
    &&& forall|k: int| 0 <= k < n ==> #[trigger] hit_func_updated(pre, post, k)
    // one new import per hit, named for its function, typed like the
    // placeholder
    &&& forall|k: int|
        0 <= k < n ==> {
            let d = #[trigger] post.funcs@[n0 + k];
            &&& d is Imported
            &&& d->Imported_0.module_name@ == "__wbindgen_placeholder__"@
            &&& d->Imported_0.entry_name@ == shim_name_spec(hits[k].0)
            &&& d->Imported_0.ty == placeholder_ty(pre)
        }
    // one new shim per hit, in hit order, after the existing ones
    &&& post.shims.len() == pre.shims.len() + n
    &&& forall|i: int| 0 <= i < pre.shims.len() ==> post.shims@[i] == pre.shims@[i]
    &&& forall|k: int|
        0 <= k < n ==> {
            let s = #[trigger] post.shims@[pre.shims.len() + k];
            &&& s.name@ == shim_name_spec(hits[k].0)
            &&& s.source@ == shim_source_spec(hit_descr(pre, k)->0)
        }
    // the removal set is cleared; every other slot is untouched
    &&& post.table.len() == pre.table.len()
    &&& forall|j: int|
        0 <= j < pre.table.len() ==> if in_removal_set(pre, j) {
            pre.table@[j] is Some && #[trigger] post.table@[j] is None
        } else {
            post.table@[j] == pre.table@[j]
        }
    // the glue is told about the heap helper and the function table
    &&& post.add_heap_object_exposed
    &&& post.function_table_needed
    // the placeholder identifiers survive the pass
    &&& post.describe_closure == pre.describe_closure
    &&& post.describe == pre.describe
}

/// Interprets and decodes every hit, in hit order, without mutating the
/// module. Returns the decoded descriptors and, per hit, the visited table
/// index.
#[verifier::loop_isolation(false)]
fn gather(m: &Module, hits: &Vec<(usize, usize)>) -> (r: Result<
    (Vec<ClosureDescriptor>, Vec<usize>),
    RewriteError,
>)
    requires
        module_wf(*m),
        m.describe_closure is Some,
        scan_ok(*m),
        hits@ == hits_of(*m),
    ensures
        match r {
            Result::Ok((descrs, removal)) => {
                &&& all_hits_ok(*m)
                &&& descrs@.len() == hits@.len()
                &&& removal@.len() == hits@.len()
                &&& forall|k: int|
                    0 <= k < hits@.len() ==> (#[trigger] descrs@[k])@ == hit_descr(*m, k)->0
                &&& forall|k: int|
                    0 <= k < hits@.len() ==> #[trigger] removal@[k] as int == ((hit_interp(
                        *m,
                        k,
                    ))->0).0 as int
            },
            Result::Err(e) => {
                &&& !all_hits_ok(*m)
                &&& (e matches RewriteError::InterpretationFailure { func } ==> exists|k: int|
                    0 <= k < hits@.len() && (#[trigger] hits@[k]).0 == func && hit_interp(*m, k)
                        is None)
                &&& (e is DescriptorDecodeFailure ==> exists|k: int|
                    0 <= k < hits@.len() && #[trigger] hit_interp(*m, k) is Some && hit_descr(
                        *m,
                        k,
                    ) is None)
                &&& (e is InterpretationFailure || e is DescriptorDecodeFailure)
            },
        },
{
    proof {
        lemma_hits_upto(*m, m.funcs.len() as int);
    }
    let mut descrs: Vec<ClosureDescriptor> = Vec::new();
    let mut removal: Vec<usize> = Vec::new();
    let mut k: usize = 0;
    while k < hits.len()
        invariant
            descrs@.len() == k as int,
            removal@.len() == k as int,
            k <= hits@.len(),
            forall|j: int| 0 <= j < k ==> #[trigger] hit_descr(*m, j) is Some,
            forall|j: int| 0 <= j < k ==> (#[trigger] descrs@[j])@ == hit_descr(*m, j)->0,
            forall|j: int|
                0 <= j < k ==> #[trigger] removal@[j] as int == ((hit_interp(*m, j))->0).0 as int,
        decreases hits@.len() - k,
    {
        let (f, _e) = hits[k];
        let (t, words) = match interpret_closure_descriptor(m, f) {
            Result::Ok(p) => p,
            Result::Err(err) => {
                proof {
                    assert(hit_interp(*m, k as int) is None);
                    assert(hit_descr(*m, k as int) is None);
                    assert(!all_hits_ok(*m));
                }
                return Result::Err(RewriteError::InterpretationFailure { func: f });
            },
        };
        let d = match decode(&words) {
            Result::Ok(d) => d,
            Result::Err(err) => {
                proof {
                    assert(hit_interp(*m, k as int) is Some);
                    assert(hit_descr(*m, k as int) is None);
                    assert(!all_hits_ok(*m));
                }
                return Result::Err(RewriteError::DescriptorDecodeFailure);
            },
        };
        descrs.push(d);
        removal.push(t as usize);
        k += 1;
    }
    Result::Ok((descrs, removal))
}

/// A well-formed local function stays well-formed when the module grows.
proof fn lemma_func_wf_mono(f: Func, n1: int, n2: int)
    requires
        func_wf(f, n1),
        n1 <= n2,
    ensures
        func_wf(f, n2),
{
    assert forall|i: int| 0 <= i < f.body.len() implies crate::module::expr_callee_lt(
        #[trigger] f.body@[i],
        n2,
    ) by {
        assert(crate::module::expr_callee_lt(f.body@[i], n1));
    }
}

/// Rewrites the module.
///
/// If the module has no describe-closure placeholder import, or the scanner
/// finds no hit, the module is returned untouched. Otherwise every hit's
/// descriptor is interpreted and decoded, the removal set is checked, and
/// only then — so that a failing rewrite never mutates the module — the
/// splicer registers one shim and one import per hit, retargets each
/// original call, and clears the visited table slots, exactly as
/// [`splice_transform`] states. The result is `Ok` precisely on the inputs
/// [`rewrite_accepts`] admits, and each error names its cause: a function
/// with two describe calls, a hit that would not interpret or decode, or a
/// removal index whose slot is out of range or already empty.
#[verifier::loop_isolation(false)]
#[verifier::rlimit(100)]
pub fn rewrite(m: &mut Module) -> (r: Result<(), RewriteError>)
    requires
        module_wf(*old(m)),
    ensures
        r is Ok <==> rewrite_accepts(*old(m)),
        r is Err ==> *final(m) == *old(m),
        r is Ok ==> module_wf(*final(m)),
        old(m).describe_closure is None ==> *final(m) == *old(m),
        old(m).describe_closure is Some && scan_ok(*old(m)) && hits_of(*old(m)).len() == 0
            ==> *final(m) == *old(m),
        old(m).describe_closure is Some && scan_ok(*old(m)) && hits_of(*old(m)).len() > 0
            && all_hits_ok(*old(m)) && removal_ok(*old(m)) ==> splice_transform(
            *old(m),
            *final(m),
        ),
        old(m).describe_closure is Some && !scan_ok(*old(m)) ==> (r matches Result::Err(e) && (
        e matches RewriteError::MultipleDescribeCalls { func } && func_hits(
            *old(m),
            func,
        ).len() > 1)),
        old(m).describe_closure is Some && scan_ok(*old(m)) && !all_hits_ok(*old(m)) ==> (
        r matches Result::Err(e) && (e is InterpretationFailure || e is DescriptorDecodeFailure)),
        r matches Result::Err(e) ==> (e matches RewriteError::InterpretationFailure { func }
            ==> exists|k: int|
            0 <= k < hits_of(*old(m)).len() && (#[trigger] hits_of(*old(m))[k]).0 == func
                && hit_interp(*old(m), k) is None),
        (r matches Result::Err(e) && e is DescriptorDecodeFailure) ==> exists|k: int|
            0 <= k < hits_of(*old(m)).len() && #[trigger] hit_interp(*old(m), k) is Some
                && hit_descr(*old(m), k) is None,
        old(m).describe_closure is Some && scan_ok(*old(m)) && all_hits_ok(*old(m))
            && hits_of(*old(m)).len() > 0 && !removal_ok(*old(m)) ==> (r matches Result::Err(e)
            && (e matches RewriteError::MissingTableSlot { index } && in_removal_set(
            *old(m),
            index as int,
        ) && !(index < old(m).table.len() && old(m).table@[index as int] is Some))),
{
    let ghost pre = *m;
    let dc = match m.describe_closure {
        Option::None => {
            return Result::Ok(());
        },
        Option::Some(d) => d,
    };
    let hits = match scan(m) {
        Result::Ok(h) => h,
        Result::Err(e) => {
            return Result::Err(e);
        },
    };
    if hits.len() == 0 {
        return Result::Ok(());
    }
    let (descrs, removal) = match gather(m, &hits) {
        Result::Ok(p) => p,
        Result::Err(e) => {
            return Result::Err(e);
        },
    };
    // Check the removal set against the untouched table, so that a missing
    // slot is reported before anything is mutated.
    let mut i: usize = 0;
    while i < removal.len()
        invariant
            i <= removal@.len(),
            forall|j: int|
                0 <= j < i ==> #[trigger] removal@[j] < m.table.len() && m.table@[removal@[j] as int]
                    is Some,
        decreases removal@.len() - i,
    {
        let idx = removal[i];
        let ok = idx < m.table.len() && matches!(&m.table[idx], Option::Some(_));
        if !ok {
            proof {
                assert(((hit_interp(pre, i as int))->0).0 as int == idx as int);
                assert(!removal_ok(pre));
                assert(in_removal_set(pre, idx as int));
            }
            return Result::Err(RewriteError::MissingTableSlot { index: idx });
        }
        i += 1;
    }
    proof {
        assert forall|k: int| 0 <= k < hits_of(pre).len() implies {
            let t = ((#[trigger] hit_interp(pre, k))->0).0 as int;
            t < pre.table.len() && pre.table@[t] is Some
        } by {
            assert(removal@[k] < m.table.len() && m.table@[removal@[k] as int] is Some);
        }
        assert(removal_ok(pre));
        lemma_hits_upto(pre, pre.funcs.len() as int);
    }
    let ph_ty = match &m.funcs[dc] {
        FuncDecl::Imported(imp) => imp.ty,
        FuncDecl::Local(_) => {
            return Result::Err(RewriteError::CollaboratorInvariant);
        },
    };
    let n0 = m.funcs.len();
    let n = hits.len();
    m.add_heap_object_exposed = true;
    m.function_table_needed = true;
    let mut k: usize = 0;
    while k < n
        invariant
            k <= n,
            m.funcs.len() == n0 + k,
            m.table == pre.table,
            m.describe_closure == pre.describe_closure,
            m.describe == pre.describe,
            m.add_heap_object_exposed,
            m.function_table_needed,
            m.shims@.len() == pre.shims.len() + k,
            forall|j: int| 0 <= j < pre.shims.len() ==> m.shims@[j] == pre.shims@[j],
            forall|j: int|
                0 <= j < k ==> {
                    let s = #[trigger] m.shims@[pre.shims.len() + j];
                    &&& s.name@ == shim_name_spec(hits_of(pre)[j].0)
                    &&& s.source@ == shim_source_spec(hit_descr(pre, j)->0)
                },
            forall|i2: int|
                0 <= i2 < n0 && !is_hit_fid(pre, i2) ==> m.funcs@[i2] == pre.funcs@[i2],
            forall|j: int|
                k <= j < n ==> m.funcs@[hits_of(pre)[j].0 as int] == pre.funcs@[#[trigger] (
                hits_of(pre)[j]).0 as int],
            forall|j: int| 0 <= j < k ==> #[trigger] hit_func_updated(pre, *m, j),
            forall|j: int|
                0 <= j < k ==> {
                    let d = #[trigger] m.funcs@[n0 + j];
                    &&& d is Imported
                    &&& d->Imported_0.module_name@ == "__wbindgen_placeholder__"@
                    &&& d->Imported_0.entry_name@ == shim_name_spec(hits_of(pre)[j].0)
                    &&& d->Imported_0.ty == placeholder_ty(pre)
                },
        decreases n - k,
    {
        let ghost m_at_entry = *m;
        let ghost k_old = k as int;
        let (f, e) = hits[k];
        proof {
            assert(func_hits(pre, f).len() >= 1);
            assert(pre.funcs@[f as int] is Local);
            let pf = pre.funcs@[f as int]->Local_0;
            assert(calls_in(pf.body@, dc, pf.root).contains(calls_in(pf.body@, dc, pf.root)[0]));
            lemma_calls_in_are_calls(pf.body@, dc, pf.root, e);
        }
        let name = shim_name(f);
        let name_for_import = shim_name(f);
        let src = shim_source(&descrs[k]);
        m.shims.push(Shim { name, source: src });
        let new_id = m.funcs.len();
        m.funcs.push(
            FuncDecl::Imported(
                Import {
                    module_name: ("__wbindgen_placeholder__").to_owned(),
                    entry_name: name_for_import,
                    ty: ph_ty,
                },
            ),
        );
        let ghost before_retarget = *m;
        match &mut m.funcs[f] {
            FuncDecl::Local(func) => {
                match &mut func.body[e] {
                    Expr::Call(callee, _) => {
                        *callee = new_id;
                    },
                    _ => {},
                }
            },
            FuncDecl::Imported(_) => {},
        }
        k += 1;
        proof {
            let pf = pre.funcs@[f as int]->Local_0;
            assert(m.funcs@[f as int] is Local);
            assert(m.funcs@[f as int]->Local_0.body@ =~= pf.body@.update(
                e as int,
                Expr::Call(new_id, pf.body@[e as int]->Call_1),
            ));
            assert(hit_func_updated(pre, *m, k_old));
            assert forall|j: int| 0 <= j < k_old implies #[trigger] hit_func_updated(
                pre,
                *m,
                j,
            ) by {
                assert(hit_func_updated(pre, m_at_entry, j));
                assert((hits_of(pre)[j]).0 < (hits_of(pre)[k_old]).0);
                let fj = hits_of(pre)[j].0 as int;
                assert(m.funcs@[fj] == m_at_entry.funcs@[fj]);
            }
        }
    }
    // All splicing is done; clearing the visited table slots comes last.
    let ghost mid = *m;
    let mut i: usize = 0;
    while i < removal.len()
        invariant
            i <= removal@.len(),
            m.funcs == mid.funcs,
            m.shims == mid.shims,
            m.describe_closure == mid.describe_closure,
            m.describe == mid.describe,
            m.add_heap_object_exposed == mid.add_heap_object_exposed,
            m.function_table_needed == mid.function_table_needed,
            m.table@.len() == pre.table.len(),
            forall|j: int|
                0 <= j < pre.table.len() ==> if exists|x: int|
                    0 <= x < i && #[trigger] removal@[x] as int == j {
                    m.table@[j] is None
                } else {
                    m.table@[j] == pre.table@[j]
                },
        decreases removal@.len() - i,
    {
        let idx = removal[i];
        proof {
            assert(removal@[i as int] < pre.table.len());
        }
        m.table[idx] = Option::None;
        i += 1;
    }
    proof {
        assert forall|j: int| 0 <= j < pre.table.len() implies (if in_removal_set(pre, j) {
            pre.table@[j] is Some && m.table@[j] is None
        } else {
            m.table@[j] == pre.table@[j]
        }) by {
            if in_removal_set(pre, j) {
                let k0 = choose|k0: int|
                    0 <= k0 < hits_of(pre).len() && ((#[trigger] hit_interp(pre, k0))->0).0 as int
                        == j;
                assert(removal@[k0] as int == j);
            } else {
                if exists|x: int| 0 <= x < removal@.len() && #[trigger] removal@[x] as int == j {
                    let x = choose|x: int|
                        0 <= x < removal@.len() && #[trigger] removal@[x] as int == j;
                    assert(((hit_interp(pre, x))->0).0 as int == j);
                    assert(in_removal_set(pre, j));
                }
            }
        }
        assert(m.funcs == mid.funcs);
        assert(m.shims == mid.shims);
        assert forall|k2: int| 0 <= k2 < hits_of(pre).len() implies #[trigger] hit_func_updated(
            pre,
            *m,
            k2,
        ) by {
            assert(hit_func_updated(pre, mid, k2));
        }
        assert forall|k2: int|
            0 <= k2 < hits_of(pre).len() implies {
                let d = #[trigger] m.funcs@[pre.funcs.len() + k2];
                &&& d is Imported
                &&& d->Imported_0.module_name@ == "__wbindgen_placeholder__"@
                &&& d->Imported_0.entry_name@ == shim_name_spec(hits_of(pre)[k2].0)
                &&& d->Imported_0.ty == placeholder_ty(pre)
            } by {
            assert(mid.funcs@[n0 + k2] is Imported);
            assert(m.funcs@[pre.funcs.len() + k2] == mid.funcs@[n0 + k2]);
        }
        assert forall|k2: int|
            0 <= k2 < hits_of(pre).len() implies {
                let s = #[trigger] m.shims@[pre.shims.len() + k2];
                &&& s.name@ == shim_name_spec(hits_of(pre)[k2].0)
                &&& s.source@ == shim_source_spec(hit_descr(pre, k2)->0)
            } by {
            assert(mid.shims@[pre.shims.len() + k2].name@ == shim_name_spec(hits_of(pre)[k2].0));
            assert(m.shims@[pre.shims.len() + k2] == mid.shims@[pre.shims.len() + k2]);
        }
        assert(splice_transform(pre, *m));
        assert forall|i2: int|
            0 <= i2 < m.funcs.len() implies match #[trigger] m.funcs@[i2] {
            FuncDecl::Local(f) => func_wf(f, m.funcs.len() as int),
            FuncDecl::Imported(_) => true,
        } by {
            let nf = m.funcs.len() as int;
            if i2 < pre.funcs.len() {
                if is_hit_fid(pre, i2) {
                    let k0 = choose|k0: int|
                        0 <= k0 < hits_of(pre).len() && (#[trigger] hits_of(pre)[k0]).0 as int
                            == i2;
                    assert(hit_func_updated(pre, *m, k0));
                    let pf = pre.funcs@[i2]->Local_0;
                    let qf = m.funcs@[i2]->Local_0;
                    assert(func_wf(pf, pre.funcs.len() as int));
                    let e = hits_of(pre)[k0].1 as int;
                    assert forall|x: int| 0 <= x < qf.body.len() implies expr_kids_lt(
                        #[trigger] qf.body@[x],
                        x,
                    ) && crate::module::expr_callee_lt(qf.body@[x], nf) by {
                        assert(expr_kids_lt(pf.body@[x], x));
                        assert(crate::module::expr_callee_lt(pf.body@[x], pre.funcs.len() as int));
                        if x == e {
                            assert(qf.body@[x] == Expr::Call(
                                (pre.funcs.len() + k0) as usize,
                                pf.body@[x]->Call_1,
                            ));
                        } else {
                            assert(qf.body@[x] == pf.body@[x]);
                        }
                    }
                    assert(func_wf(qf, nf));
                } else {
                    assert(m.funcs@[i2] == pre.funcs@[i2]);
                    match m.funcs@[i2] {
                        FuncDecl::Local(f) => {
                            lemma_func_wf_mono(f, pre.funcs.len() as int, nf);
                        },
                        FuncDecl::Imported(_) => {},
                    }
                }
            } else {
                let j2 = i2 - pre.funcs.len();
                assert(mid.funcs@[n0 + j2] is Imported);
                assert(m.funcs@[i2] == mid.funcs@[n0 + j2]);
            }
        }
        assert(!is_hit_fid(pre, dc as int)) by {
            if is_hit_fid(pre, dc as int) {
                let k0 = choose|k0: int|
                    0 <= k0 < hits_of(pre).len() && (#[trigger] hits_of(pre)[k0]).0 as int
                        == dc as int;
                assert(pre.funcs@[dc as int] is Local);
            }
        }
        if pre.describe is Some {
            let di = pre.describe->0;
            assert(!is_hit_fid(pre, di as int)) by {
                if is_hit_fid(pre, di as int) {
                    let k0 = choose|k0: int|
                        0 <= k0 < hits_of(pre).len() && (#[trigger] hits_of(pre)[k0]).0 as int
                            == di as int;
                    assert(pre.funcs@[di as int] is Local);
                }
            }
        }
        assert(module_wf(*m));
    }
    Result::Ok(())
}

} // verus!
