//! The descriptor interpreter: a deliberately narrow abstract evaluator over
//! the expression language of [`crate::module`].
//!
//! The front-end emits, around every describe-closure call, code drawn from a
//! small class: integer constants, local reads and writes, sequencing, and
//! calls. The evaluator executes exactly that class. A call to the
//! describe-closure placeholder captures its third argument (the
//! function-table index of the monomorphized descriptor subprogram); a call to
//! the `describe` placeholder appends its argument to the output word stream;
//! a call to a local function is evaluated in a fresh frame. Anything else —
//! an out-of-range local, a call to any other import, an argument-count
//! mismatch, or call nesting deeper than the module's function count — is an
//! interpretation error, and the whole rewrite fails.
//!
//! [`interpret_closure_descriptor`] runs the evaluator twice: once over the
//! enclosing function to recover the descriptor subprogram's table index, and
//! once over that subprogram to collect the descriptor word stream. The table
//! index it visits is reported to the caller for later removal.

use vstd::prelude::*;

use crate::error::RewriteError;
use crate::module::{module_wf, Expr, FuncDecl, Module};

verus! {

/// The evaluator's state: the current frame's locals, the output word stream
/// written by `describe` calls, and the table index captured from a
/// describe-closure call, if one was executed.
pub struct EvalState {
    pub frame: Seq<u32>,
    pub out: Seq<u32>,
    pub captured: Option<u32>,
}

/// A frame of `n` locals, all zero — the dummy arguments the evaluator runs
/// functions with.
pub open spec fn zero_frame(n: nat) -> Seq<u32> {
    Seq::new(n, |i: int| 0u32)
}

/// The evaluator's starting state for a function of `n_locals` locals.
pub open spec fn init_state(n_locals: nat) -> EvalState {
    EvalState { frame: zero_frame(n_locals), out: Seq::empty(), captured: Option::None }
}

/// One step of the abstract evaluator: the value of expression `eid` of local
/// function `fid`, together with the state after it, or `None` on an
/// interpretation error. `fuel` bounds the depth of nested calls.
pub open spec fn eval_expr_spec(
    m: Module,
    fid: usize,
    eid: usize,
    st: EvalState,
    fuel: nat,
) -> Option<(u32, EvalState)>
    decreases fuel, eid as int, 1int, 0int,
        when module_wf(m) && fid < m.funcs.len() && m.funcs@[fid as int] is Local && eid
            < m.funcs@[fid as int]->Local_0.body.len()
{
    let f = m.funcs@[fid as int]->Local_0;
    match f.body@[eid as int] {
        Expr::Const(k) => Option::Some((k, st)),
        Expr::LocalGet(i) => if i < st.frame.len() {
            Option::Some((st.frame[i as int], st))
        } else {
            Option::None
        },
        Expr::LocalSet(i, c) => match eval_expr_spec(m, fid, c, st, fuel) {
            Option::None => Option::None,
            Option::Some((v, st1)) => if i < st1.frame.len() {
                Option::Some(
                    (
                        0u32,
                        EvalState {
                            frame: st1.frame.update(i as int, v),
                            out: st1.out,
                            captured: st1.captured,
                        },
                    ),
                )
            } else {
                Option::None
            },
        },
        Expr::Block(es) => match eval_list_spec(m, fid, es@, eid, st, fuel) {
            Option::None => Option::None,
            Option::Some((vals, st1)) => Option::Some(
                (
                    if vals.len() == 0 {
                        0u32
                    } else {
                        vals.last()
                    },
                    st1,
                ),
            ),
        },
        Expr::Call(g, args) => match eval_list_spec(m, fid, args@, eid, st, fuel) {
            Option::None => Option::None,
            Option::Some((vals, st1)) => eval_call_spec(m, g, vals, st1, fuel),
        },
    }
}

/// The effect of calling function `g` on already-evaluated arguments `vals`.
pub open spec fn eval_call_spec(
    m: Module,
    g: usize,
    vals: Seq<u32>,
    st: EvalState,
    fuel: nat,
) -> Option<(u32, EvalState)>
    decreases fuel, 0int, 0int, 0int,
        when module_wf(m)
{
    if m.describe == Option::Some(g) {
        if vals.len() == 1 {
            Option::Some(
                (
                    0u32,
                    EvalState { frame: st.frame, out: st.out.push(vals[0]), captured: st.captured },
                ),
            )
        } else {
            Option::None
        }
    } else if m.describe_closure == Option::Some(g) {
        if vals.len() == 3 {
            Option::Some(
                (
                    0u32,
                    EvalState { frame: st.frame, out: st.out, captured: Option::Some(vals[2]) },
                ),
            )
        } else {
            Option::None
        }
    } else if g < m.funcs.len() && m.funcs@[g as int] is Local {
        if fuel == 0 {
            Option::None
        } else {
            let callee = m.funcs@[g as int]->Local_0;
            if vals.len() <= callee.n_locals {
                let entry = EvalState {
                    frame: vals + zero_frame((callee.n_locals - vals.len()) as nat),
                    out: st.out,
                    captured: st.captured,
                };
                match eval_expr_spec(m, g, callee.root, entry, (fuel - 1) as nat) {
                    Option::None => Option::None,
                    Option::Some((v, st2)) => Option::Some(
                        (
                            v,
                            EvalState { frame: st.frame, out: st2.out, captured: st2.captured },
                        ),
                    ),
                }
            } else {
                Option::None
            }
        }
    } else {
        Option::None
    }
}

/// The values of the expressions `es`, evaluated left to right, together with
/// the state after all of them.
pub open spec fn eval_list_spec(
    m: Module,
    fid: usize,
    es: Seq<usize>,
    bound: usize,
    st: EvalState,
    fuel: nat,
) -> Option<(Seq<u32>, EvalState)>
    decreases fuel, bound as int, 0int, es.len(),
        when module_wf(m) && fid < m.funcs.len() && m.funcs@[fid as int] is Local && bound
            <= m.funcs@[fid as int]->Local_0.body.len() && (forall|i: int|
            0 <= i < es.len() ==> #[trigger] es[i] < bound)
{
    if es.len() == 0 {
        Option::Some((Seq::empty(), st))
    } else {
        match eval_expr_spec(m, fid, es[0], st, fuel) {
            Option::None => Option::None,
            Option::Some((v, st1)) => match eval_list_spec(m, fid, es.skip(1), bound, st1, fuel) {
                Option::None => Option::None,
                Option::Some((vs, st2)) => Option::Some((seq![v] + vs, st2)),
            },
        }
    }
}

/// What interpreting the closure descriptor of local function `fid` yields:
/// the captured function-table index and the descriptor word stream, or
/// `None` on an interpretation error.
///
/// The enclosing function runs first, with dummy zero arguments, to capture
/// the third argument of its describe-closure call. That index must name an
/// occupied table slot holding a local function — the monomorphized
/// descriptor subprogram — which then runs in turn; its `describe` output is
/// the word stream. Call depth is bounded by the module's function count.
pub open spec fn interpret_spec(m: Module, fid: usize) -> Option<(u32, Seq<u32>)> {
    let f = m.funcs@[fid as int]->Local_0;
    let fuel = m.funcs.len() as nat;
    match eval_expr_spec(m, fid, f.root, init_state(f.n_locals as nat), fuel) {
        Option::None => Option::None,
        Option::Some((_, st)) => match st.captured {
            Option::None => Option::None,
            Option::Some(t) => if t < m.table.len() && m.table@[t as int] is Some {
                let g = m.table@[t as int]->0;
                if g < m.funcs.len() && m.funcs@[g as int] is Local {
                    let gf = m.funcs@[g as int]->Local_0;
                    match eval_expr_spec(m, g, gf.root, init_state(gf.n_locals as nat), fuel) {
                        Option::None => Option::None,
                        Option::Some((_, st2)) => Option::Some((t, st2.out)),
                    }
                } else {
                    Option::None
                }
            } else {
                Option::None
            },
        },
    }
}

/// Evaluates expression `eid` of local function `fid`, mutating the frame,
/// the output stream, and the captured index exactly as the specification
/// evaluator does.
#[verifier::loop_isolation(false)]
fn eval_expr(
    m: &Module,
    fid: usize,
    eid: usize,
    frame: &mut Vec<u32>,
    out: &mut Vec<u32>,
    captured: &mut Option<u32>,
    fuel: usize,
) -> (r: Result<u32, RewriteError>)
    requires
        module_wf(*m),
        fid < m.funcs.len(),
        m.funcs@[fid as int] is Local,
        eid < m.funcs@[fid as int]->Local_0.body.len(),
    ensures
        ({
            let pre = EvalState { frame: old(frame)@, out: old(out)@, captured: *old(captured) };
            match eval_expr_spec(*m, fid, eid, pre, fuel as nat) {
                Option::Some((v, post)) => r == Result::<u32, RewriteError>::Ok(v) && final(frame)@
                    == post.frame && final(out)@ == post.out && *final(captured) == post.captured,
                Option::None => r matches Result::Err(e) && e matches
                    RewriteError::InterpretationFailure { .. },
            }
        }),
    decreases fuel, eid as int, 1int, 0int,
{
    let func = match &m.funcs[fid] {
        FuncDecl::Local(f) => f,
        FuncDecl::Imported(_) => {
            return Result::Err(RewriteError::InterpretationFailure { func: fid });
        },
    };
    match &func.body[eid] {
        Expr::Const(k) => Result::Ok(*k),
        Expr::LocalGet(i) => {
            if *i < frame.len() {
                Result::Ok(frame[*i])
            } else {
                Result::Err(RewriteError::InterpretationFailure { func: fid })
            }
        },
        Expr::LocalSet(i, c) => {
            let v = eval_expr(m, fid, *c, frame, out, captured, fuel)?;
            if *i < frame.len() {
                frame.set(*i, v);
                Result::Ok(0u32)
            } else {
                Result::Err(RewriteError::InterpretationFailure { func: fid })
            }
        },
        Expr::Block(es) => {
            proof {
                assert(es@.skip(0) =~= es@);
            }
            let vals = eval_list(m, fid, es, 0, eid, frame, out, captured, fuel)?;
            if vals.len() == 0 {
                Result::Ok(0u32)
            } else {
                Result::Ok(vals[vals.len() - 1])
            }
        },
        Expr::Call(g, args) => {
            proof {
                assert(args@.skip(0) =~= args@);
            }
            let vals = eval_list(m, fid, args, 0, eid, frame, out, captured, fuel)?;
            eval_call(m, fid, *g, vals, out, captured, fuel, Ghost(frame@))
        },
    }
}

/// Performs the call step on already-evaluated arguments. The caller's frame
/// is untouched, matching [`eval_call_spec`].
fn eval_call(
    m: &Module,
    fid: usize,
    g: usize,
    vals: Vec<u32>,
    out: &mut Vec<u32>,
    captured: &mut Option<u32>,
    fuel: usize,
    Ghost(pre_frame): Ghost<Seq<u32>>,
) -> (r: Result<u32, RewriteError>)
    requires
        module_wf(*m),
    ensures
        ({
            let pre = EvalState { frame: pre_frame, out: old(out)@, captured: *old(captured) };
            match eval_call_spec(*m, g, vals@, pre, fuel as nat) {
                Option::Some((v, post)) => r == Result::<u32, RewriteError>::Ok(v) && final(out)@
                    == post.out && *final(captured) == post.captured,
                Option::None => r matches Result::Err(e) && e matches
                    RewriteError::InterpretationFailure { .. },
            }
        }),
    decreases fuel, 0int, 0int, 0int,
{
    if is_id(&m.describe, g) {
        if vals.len() == 1 {
            out.push(vals[0]);
            Result::Ok(0u32)
        } else {
            Result::Err(RewriteError::InterpretationFailure { func: fid })
        }
    } else if is_id(&m.describe_closure, g) {
        if vals.len() == 3 {
            *captured = Option::Some(vals[2]);
            Result::Ok(0u32)
        } else {
            Result::Err(RewriteError::InterpretationFailure { func: fid })
        }
    } else if g < m.funcs.len() && matches!(&m.funcs[g], FuncDecl::Local(_)) {
        if fuel == 0 {
            return Result::Err(RewriteError::InterpretationFailure { func: fid });
        }
        let callee_n_locals = match &m.funcs[g] {
            FuncDecl::Local(f) => f.n_locals,
            FuncDecl::Imported(_) => {
                return Result::Err(RewriteError::InterpretationFailure { func: fid });
            },
        };
        let callee_root = match &m.funcs[g] {
            FuncDecl::Local(f) => f.root,
            FuncDecl::Imported(_) => {
                return Result::Err(RewriteError::InterpretationFailure { func: fid });
            },
        };
        if vals.len() <= callee_n_locals {
            let mut entry_frame = vals;
            while entry_frame.len() < callee_n_locals
                invariant
                    entry_frame.len() <= callee_n_locals,
                    entry_frame@ == vals@ + zero_frame((entry_frame.len() - vals@.len()) as nat),
                decreases callee_n_locals - entry_frame.len(),
            {
                entry_frame.push(0u32);
                proof {
                    assert(entry_frame@ =~= vals@ + zero_frame(
                        (entry_frame@.len() - vals@.len()) as nat,
                    ));
                }
            }
            let v = eval_expr(m, g, callee_root, &mut entry_frame, out, captured, fuel - 1)?;
            Result::Ok(v)
        } else {
            Result::Err(RewriteError::InterpretationFailure { func: fid })
        }
    } else {
        Result::Err(RewriteError::InterpretationFailure { func: fid })
    }
}

/// Whether the optional placeholder identifier `opt` is exactly `g`.
fn is_id(opt: &Option<usize>, g: usize) -> (b: bool)
    ensures
        b == (*opt == Option::Some(g)),
{
    match opt {
        Option::Some(i) => *i == g,
        Option::None => false,
    }
}

/// Evaluates the expressions `es[from..]` left to right, returning their
/// values.
fn eval_list(
    m: &Module,
    fid: usize,
    es: &Vec<usize>,
    from: usize,
    bound: usize,
    frame: &mut Vec<u32>,
    out: &mut Vec<u32>,
    captured: &mut Option<u32>,
    fuel: usize,
) -> (r: Result<Vec<u32>, RewriteError>)
    requires
        module_wf(*m),
        fid < m.funcs.len(),
        m.funcs@[fid as int] is Local,
        bound <= m.funcs@[fid as int]->Local_0.body.len(),
        from <= es.len(),
        forall|i: int| 0 <= i < es@.len() ==> #[trigger] es@[i] < bound,
    ensures
        ({
            let pre = EvalState { frame: old(frame)@, out: old(out)@, captured: *old(captured) };
            match eval_list_spec(*m, fid, es@.skip(from as int), bound, pre, fuel as nat) {
                Option::Some((vs, post)) => (r matches Result::Ok(vals) && vals@ == vs)
                    && final(frame)@ == post.frame && final(out)@ == post.out
                    && *final(captured) == post.captured,
                Option::None => r matches Result::Err(e) && e matches
                    RewriteError::InterpretationFailure { .. },
            }
        }),
    decreases fuel, bound as int, 0int, es.len() - from,
{
    if from == es.len() {
        proof {
            assert(es@.skip(from as int) =~= Seq::<usize>::empty());
        }
        Result::Ok(Vec::new())
    } else {
        proof {
            let tail = es@.skip(from as int);
            assert(tail[0] == es@[from as int]);
            assert(tail.skip(1) =~= es@.skip(from as int + 1));
        }
        let v = eval_expr(m, fid, es[from], frame, out, captured, fuel)?;
        let rest = eval_list(m, fid, es, from + 1, bound, frame, out, captured, fuel)?;
        let mut vals: Vec<u32> = Vec::new();
        vals.push(v);
        let mut rest = rest;
        vals.append(&mut rest);
        proof {
            let tail = es@.skip(from as int);
            assert(tail[0] == es@[from as int]);
            assert(tail.skip(1) =~= es@.skip(from as int + 1));
            let pre = EvalState { frame: old(frame)@, out: old(out)@, captured: *old(captured) };
            let spec_r = eval_list_spec(*m, fid, tail, bound, pre, fuel as nat);
            assert(spec_r is Some);
            assert(vals@ =~= (spec_r->0).0);
        }
        Result::Ok(vals)
    }
}

/// Builds a vector of `n` zeroed locals.
fn make_zero_frame(n: usize) -> (r: Vec<u32>)
    ensures
        r@ == zero_frame(n as nat),
{
    let mut frame: Vec<u32> = Vec::new();
    let mut i: usize = 0;
    while i < n
        invariant
            i <= n,
            frame@ == zero_frame(i as nat),
        decreases n - i,
    {
        frame.push(0u32);
        i += 1;
        proof {
            assert(frame@ =~= zero_frame(i as nat));
        }
    }
    frame
}

/// Interprets the closure descriptor reachable from local function `fid`.
///
/// Returns the function-table index the interpretation visited — the slot of
/// the descriptor subprogram, safe to remove once the pass is done — together
/// with the descriptor word stream that subprogram produced, exactly as
/// [`interpret_spec`] describes. Fails with `InterpretationFailure` exactly
/// when the specification yields nothing. The module itself is never mutated.
pub fn interpret_closure_descriptor(m: &Module, fid: usize) -> (r: Result<
    (u32, Vec<u32>),
    RewriteError,
>)
    requires
        module_wf(*m),
        fid < m.funcs.len(),
        m.funcs@[fid as int] is Local,
    ensures
        match interpret_spec(*m, fid) {
            Option::Some((t, words)) => r matches Result::Ok(p) && p.0 == t && p.1@ == words,
            Option::None => r == Result::<(u32, Vec<u32>), RewriteError>::Err(
                RewriteError::InterpretationFailure { func: fid },
            ),
        },
{
    let fuel = m.funcs.len();
    let n_locals = match &m.funcs[fid] {
        FuncDecl::Local(f) => f.n_locals,
        FuncDecl::Imported(_) => {
            return Result::Err(RewriteError::InterpretationFailure { func: fid });
        },
    };
    let root = match &m.funcs[fid] {
        FuncDecl::Local(f) => f.root,
        FuncDecl::Imported(_) => {
            return Result::Err(RewriteError::InterpretationFailure { func: fid });
        },
    };
    let mut frame = make_zero_frame(n_locals);
    let mut out: Vec<u32> = Vec::new();
    let mut captured: Option<u32> = Option::None;
    match eval_expr(m, fid, root, &mut frame, &mut out, &mut captured, fuel) {
        Result::Ok(_) => {},
        Result::Err(_) => {
            return Result::Err(RewriteError::InterpretationFailure { func: fid });
        },
    }
    let t = match captured {
        Option::Some(t) => t,
        Option::None => {
            return Result::Err(RewriteError::InterpretationFailure { func: fid });
        },
    };
    let ti = t as usize;
    if !(ti < m.table.len()) {
        return Result::Err(RewriteError::InterpretationFailure { func: fid });
    }
    let g = match &m.table[ti] {
        Option::Some(g) => *g,
        Option::None => {
            return Result::Err(RewriteError::InterpretationFailure { func: fid });
        },
    };
    if !(g < m.funcs.len()) {
        return Result::Err(RewriteError::InterpretationFailure { func: fid });
    }
    let g_n_locals = match &m.funcs[g] {
        FuncDecl::Local(f) => f.n_locals,
        FuncDecl::Imported(_) => {
            return Result::Err(RewriteError::InterpretationFailure { func: fid });
        },
    };
    let g_root = match &m.funcs[g] {
        FuncDecl::Local(f) => f.root,
        FuncDecl::Imported(_) => {
            return Result::Err(RewriteError::InterpretationFailure { func: fid });
        },
    };
    let mut frame2 = make_zero_frame(g_n_locals);
    let mut out2: Vec<u32> = Vec::new();
    let mut captured2: Option<u32> = Option::None;
    match eval_expr(m, g, g_root, &mut frame2, &mut out2, &mut captured2, fuel) {
        Result::Ok(_) => {},
        Result::Err(_) => {
            return Result::Err(RewriteError::InterpretationFailure { func: fid });
        },
    }
    Result::Ok((t, out2))
}

} // verus!
