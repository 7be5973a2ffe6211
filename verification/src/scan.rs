//! The scanner: finds every call expression that targets the describe-closure
//! placeholder import.
//!
//! The scan is a structural traversal of each local function's body from its
//! root. For each function it yields the identifiers of the matching call
//! expressions, children before parents, so the recorded identifier is exactly
//! the describe call and never an enclosing expression. The scanner neither
//! interprets nor mutates anything.

use vstd::prelude::*;

use crate::error::RewriteError;
use crate::module::{arena_wf, module_wf, Expr, FuncDecl, Module};

verus! {

/// The describe-closure call expressions reachable from expression `eid` of
/// `body`, in traversal order (arguments before the call that holds them).
pub open spec fn calls_in(body: Seq<Expr>, dc: usize, eid: usize) -> Seq<usize>
    decreases eid as int, 1int, 0int,
        when arena_wf(body) && eid < body.len()
{
    match body[eid as int] {
        Expr::Const(_) => Seq::empty(),
        Expr::LocalGet(_) => Seq::empty(),
        Expr::LocalSet(_, c) => calls_in(body, dc, c),
        Expr::Call(f, args) => calls_in_list(body, dc, args@, eid) + (if f == dc {
            seq![eid]
        } else {
            Seq::empty()
        }),
        Expr::Block(es) => calls_in_list(body, dc, es@, eid),
    }
}

/// The describe-closure calls reachable from the expressions of `es`, all of
/// which lie below `bound`, concatenated in order.
pub open spec fn calls_in_list(body: Seq<Expr>, dc: usize, es: Seq<usize>, bound: usize) -> Seq<
    usize,
>
    decreases bound as int, 0int, es.len(),
        when arena_wf(body) && bound <= body.len() && forall|i: int|
            0 <= i < es.len() ==> #[trigger] es[i] < bound
{
    if es.len() == 0 {
        Seq::empty()
    } else {
        calls_in(body, dc, es[0]) + calls_in_list(body, dc, es.skip(1), bound)
    }
}

/// The describe-closure calls found in local function `fid` of `m`.
pub open spec fn func_hits(m: Module, fid: usize) -> Seq<usize> {
    match m.funcs@[fid as int] {
        FuncDecl::Local(f) => calls_in(f.body@, m.describe_closure->0, f.root),
        FuncDecl::Imported(_) => Seq::empty(),
    }
}

/// The scan succeeds: no local function holds more than one describe call.
pub open spec fn scan_ok(m: Module) -> bool {
    forall|fid: usize| fid < m.funcs.len() ==> #[trigger] func_hits(m, fid).len() <= 1
}

/// The scanner's output over the first `n` functions: one `(function, call
/// expression)` pair per local function with a hit, in function order.
pub open spec fn hits_upto(m: Module, n: int) -> Seq<(usize, usize)>
    decreases n,
{
    if n <= 0 {
        Seq::empty()
    } else {
        hits_upto(m, n - 1) + (if func_hits(m, (n - 1) as usize).len() >= 1 {
            seq![((n - 1) as usize, func_hits(m, (n - 1) as usize)[0])]
        } else {
            Seq::empty()
        })
    }
}

/// The scanner's whole output for `m`.
pub open spec fn hits_of(m: Module) -> Seq<(usize, usize)> {
    hits_upto(m, m.funcs.len() as int)
}

/// Everything the scanner records is a call expression targeting the
/// placeholder, and lies inside the body.
pub proof fn lemma_calls_in_are_calls(body: Seq<Expr>, dc: usize, eid: usize, x: usize)
    requires
        arena_wf(body),
        eid < body.len(),
        calls_in(body, dc, eid).contains(x),
    ensures
        x < body.len(),
        body[x as int] is Call,
        body[x as int]->Call_0 == dc,
    decreases eid as int, 1int, 0int,
{
    match body[eid as int] {
        Expr::Const(_) => {},
        Expr::LocalGet(_) => {},
        Expr::LocalSet(_, c) => {
            lemma_calls_in_are_calls(body, dc, c, x);
        },
        Expr::Call(f, args) => {
            let s = calls_in_list(body, dc, args@, eid);
            let whole = calls_in(body, dc, eid);
            let i = choose|i: int| 0 <= i < whole.len() && whole[i] == x;
            if i < s.len() {
                assert(s.contains(x));
                lemma_calls_in_list_are_calls(body, dc, args@, eid, x);
            } else {
                assert(f == dc && x == eid);
            }
        },
        Expr::Block(es) => {
            lemma_calls_in_list_are_calls(body, dc, es@, eid, x);
        },
    }
}

/// List counterpart of [`lemma_calls_in_are_calls`].
pub proof fn lemma_calls_in_list_are_calls(
    body: Seq<Expr>,
    dc: usize,
    es: Seq<usize>,
    bound: usize,
    x: usize,
)
    requires
        arena_wf(body),
        bound <= body.len(),
        forall|i: int| 0 <= i < es.len() ==> #[trigger] es[i] < bound,
        calls_in_list(body, dc, es, bound).contains(x),
    ensures
        x < body.len(),
        body[x as int] is Call,
        body[x as int]->Call_0 == dc,
    decreases bound as int, 0int, es.len(),
{
    let s0 = calls_in(body, dc, es[0]);
    let whole = calls_in_list(body, dc, es, bound);
    let i = choose|i: int| 0 <= i < whole.len() && whole[i] == x;
    if i < s0.len() {
        assert(s0.contains(x));
        lemma_calls_in_are_calls(body, dc, es[0], x);
    } else {
        assert(calls_in_list(body, dc, es.skip(1), bound).contains(x));
        lemma_calls_in_list_are_calls(body, dc, es.skip(1), bound, x);
    }
}

/// Shape of the scanner's output over the first `n` functions: every
/// recorded pair names a function below `n` that has a hit, carries that
/// function's single recorded call, and the recorded functions strictly
/// increase.
pub proof fn lemma_hits_upto(m: Module, n: int)
    requires
        0 <= n <= m.funcs.len(),
    ensures
        forall|k: int|
            0 <= k < hits_upto(m, n).len() ==> ((#[trigger] hits_upto(m, n)[k]).0 as int) < n
                && func_hits(m, hits_upto(m, n)[k].0).len() >= 1 && hits_upto(m, n)[k].1
                == func_hits(m, hits_upto(m, n)[k].0)[0],
        forall|k1: int, k2: int|
            0 <= k1 < k2 < hits_upto(m, n).len() ==> (#[trigger] hits_upto(m, n)[k1]).0 < (
            #[trigger] hits_upto(m, n)[k2]).0,
        forall|f: usize|
            (f as int) < n && #[trigger] func_hits(m, f).len() >= 1 ==> exists|k: int|
                0 <= k < hits_upto(m, n).len() && (#[trigger] hits_upto(m, n)[k]).0 == f,
    decreases n,
{
    if n > 0 {
        lemma_hits_upto(m, n - 1);
        let prev = hits_upto(m, n - 1);
        let cur = hits_upto(m, n);
        assert forall|f: usize|
            (f as int) < n && #[trigger] func_hits(m, f).len() >= 1 implies exists|k: int|
            0 <= k < cur.len() && (#[trigger] cur[k]).0 == f by {
            if (f as int) < n - 1 {
                let k = choose|k: int| 0 <= k < prev.len() && (#[trigger] prev[k]).0 == f;
                assert(cur[k].0 == f);
            } else {
                assert(cur[cur.len() - 1].0 == f);
            }
        }
    }
}

/// Appends to `out` every describe-closure call reachable from `eid`,
/// children first.
#[verifier::loop_isolation(false)]
fn find_calls(body: &Vec<Expr>, dc: usize, eid: usize, out: &mut Vec<usize>)
    requires
        arena_wf(body@),
        eid < body.len(),
    ensures
        final(out)@ == old(out)@ + calls_in(body@, dc, eid),
    decreases eid as int, 1int, 0int,
{
    match &body[eid] {
        Expr::Const(_) => {},
        Expr::LocalGet(_) => {},
        Expr::LocalSet(_, c) => {
            find_calls(body, dc, *c, out);
        },
        Expr::Call(f, args) => {
            proof {
                assert(args@.skip(0) =~= args@);
            }
            find_calls_list(body, dc, args, 0, eid, out);
            if *f == dc {
                out.push(eid);
            }
            proof {
                assert(final(out)@ =~= old(out)@ + calls_in(body@, dc, eid));
            }
        },
        Expr::Block(es) => {
            proof {
                assert(es@.skip(0) =~= es@);
            }
            find_calls_list(body, dc, es, 0, eid, out);
            proof {
                assert(final(out)@ =~= old(out)@ + calls_in(body@, dc, eid));
            }
        },
    }
}

/// Appends the describe-closure calls reachable from `es[from..]`, whose
/// entries all lie below `bound`.
#[verifier::loop_isolation(false)]
fn find_calls_list(
    body: &Vec<Expr>,
    dc: usize,
    es: &Vec<usize>,
    from: usize,
    bound: usize,
    out: &mut Vec<usize>,
)
    requires
        arena_wf(body@),
        bound <= body.len(),
        from <= es.len(),
        forall|i: int| 0 <= i < es@.len() ==> #[trigger] es@[i] < bound,
    ensures
        final(out)@ == old(out)@ + calls_in_list(body@, dc, es@.skip(from as int), bound),
    decreases bound as int, 0int, es.len() - from,
{
    if from == es.len() {
        proof {
            assert(es@.skip(from as int) =~= Seq::<usize>::empty());
            assert(final(out)@ =~= old(out)@ + calls_in_list(
                body@,
                dc,
                es@.skip(from as int),
                bound,
            ));
        }
    } else {
        find_calls(body, dc, es[from], out);
        find_calls_list(body, dc, es, from + 1, bound, out);
        proof {
            let tail = es@.skip(from as int);
            assert(tail[0] == es@[from as int]);
            assert(tail.skip(1) =~= es@.skip(from as int + 1));
            assert(final(out)@ =~= old(out)@ + calls_in_list(body@, dc, tail, bound));
        }
    }
}

/// Runs the scanner over every local function of `m`.
///
/// On success the result maps each local function holding exactly one
/// describe-closure call to that call's expression identifier, in function
/// order; functions with no hit are not recorded. The scan fails exactly when
/// some local function holds more than one describe call.
#[verifier::loop_isolation(false)]
pub fn scan(m: &Module) -> (r: Result<Vec<(usize, usize)>, RewriteError>)
    requires
        module_wf(*m),
        m.describe_closure is Some,
    ensures
        match r {
            Result::Ok(hits) => scan_ok(*m) && hits@ == hits_of(*m),
            Result::Err(e) => !scan_ok(*m) && (e matches RewriteError::MultipleDescribeCalls {
                func,
            } && func_hits(*m, func).len() > 1),
        },
{
    let dc = match m.describe_closure {
        Option::Some(d) => d,
        Option::None => {
            return Result::Err(RewriteError::CollaboratorInvariant);
        },
    };
    let mut hits: Vec<(usize, usize)> = Vec::new();
    let mut fid: usize = 0;
    while fid < m.funcs.len()
        invariant
            fid <= m.funcs.len(),
            hits@ == hits_upto(*m, fid as int),
            forall|j: usize| j < fid ==> #[trigger] func_hits(*m, j).len() <= 1,
        decreases m.funcs.len() - fid,
    {
        match &m.funcs[fid] {
            FuncDecl::Local(f) => {
                let mut found: Vec<usize> = Vec::new();
                find_calls(&f.body, dc, f.root, &mut found);
                proof {
                    assert(found@ == func_hits(*m, fid));
                }
                if found.len() > 1 {
                    proof {
                        assert(func_hits(*m, fid).len() > 1);
                        assert(!scan_ok(*m));
                    }
                    return Result::Err(RewriteError::MultipleDescribeCalls { func: fid });
                }
                if found.len() == 1 {
                    hits.push((fid, found[0]));
                }
            },
            FuncDecl::Imported(_) => {
                proof {
                    assert(func_hits(*m, fid).len() == 0);
                }
            },
        }
        fid += 1;
    }
    Result::Ok(hits)
}

} // verus!
