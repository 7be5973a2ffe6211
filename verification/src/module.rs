//! The in-memory model of a WebAssembly module, as far as the rewriter reads
//! and mutates it.
//!
//! Function bodies are expression arenas: a function holds a vector of
//! expressions, each referring to its children by index, with a distinguished
//! root. Well-formedness ([`module_wf`]) asks that every child index is
//! strictly below its parent's index, which both reflects how bodies are
//! serialized (subexpressions precede the expressions that use them) and makes
//! every traversal terminate.
//!
//! Imported and local functions share one identifier space, so adding an
//! import never renumbers an existing function, and a function-table slot or a
//! call expression can name either kind.

use vstd::prelude::*;

verus! {

/// One expression of a function body. Children are arena indices into the
/// enclosing function's `body` vector.
///
/// The set is deliberately narrow: it is exactly what the abstract evaluator
/// supports (integer constants, local get and set, calls, and sequencing).
#[derive(Clone, Debug, PartialEq, Eq)]
pub enum Expr {
    /// A 32-bit integer constant.
    Const(u32),
    /// Read of a local variable by index.
    LocalGet(usize),
    /// Write of a local variable: local index, then the operand expression.
    LocalSet(usize, usize),
    /// A call: the callee's function identifier, then the argument
    /// expressions in evaluation order.
    Call(usize, Vec<usize>),
    /// A sequence of expressions; its value is the value of the last one.
    Block(Vec<usize>),
}

/// A local function: its type identifier, the number of locals (parameters
/// included), the expression arena, and the root expression.
#[derive(Clone, Debug, PartialEq, Eq)]
pub struct Func {
    pub ty: usize,
    pub n_locals: usize,
    pub root: usize,
    pub body: Vec<Expr>,
}

/// An imported function: its import name pair and its type identifier.
#[derive(Clone, Debug, PartialEq, Eq)]
pub struct Import {
    pub module_name: String,
    pub entry_name: String,
    pub ty: usize,
}

/// A function of the module: imported or defined locally.
#[derive(Clone, Debug, PartialEq, Eq)]
pub enum FuncDecl {
    Imported(Import),
    Local(Func),
}

/// A JavaScript shim registered with the glue generator: an export name and
/// the shim's source text.
#[derive(Clone, Debug, PartialEq, Eq)]
pub struct Shim {
    pub name: String,
    pub source: String,
}

/// The module, restricted to the capabilities the rewriter consumes: the
/// functions, the default function table, the registered JS shims, the
/// identifiers of the two placeholder imports, and two glue-generator flags.
#[derive(Clone, Debug, PartialEq, Eq)]
pub struct Module {
    /// All functions, imported and local, in one identifier space.
    pub funcs: Vec<FuncDecl>,
    /// The default function table: an ordered sequence of optional function
    /// identifiers. Clearing a slot never renumbers the others.
    pub table: Vec<Option<usize>>,
    /// The JS shims registered so far, in registration order.
    pub shims: Vec<Shim>,
    /// The identifier of the describe-closure placeholder import, if the
    /// module has one.
    pub describe_closure: Option<usize>,
    /// The identifier of the `describe(u32)` placeholder import, if the
    /// module has one.
    pub describe: Option<usize>,
    /// Whether the glue must make the `addHeapObject` helper reachable.
    pub add_heap_object_exposed: bool,
    /// Whether the glue must expose the function table to the shims.
    pub function_table_needed: bool,
}

/// Every child index of `e` lies strictly below `bound`.
pub open spec fn expr_kids_lt(e: Expr, bound: int) -> bool {
    match e {
        Expr::Const(_) => true,
        Expr::LocalGet(_) => true,
        Expr::LocalSet(_, c) => c < bound,
        Expr::Call(_, args) => forall|i: int| 0 <= i < args@.len() ==> args@[i] < bound,
        Expr::Block(es) => forall|i: int| 0 <= i < es@.len() ==> es@[i] < bound,
    }
}

/// The callee of `e`, where it has one, is a valid function identifier.
pub open spec fn expr_callee_lt(e: Expr, n_funcs: int) -> bool {
    match e {
        Expr::Call(f, _) => f < n_funcs,
        _ => true,
    }
}

/// The arena is well-founded: each expression's children precede it.
pub open spec fn arena_wf(body: Seq<Expr>) -> bool {
    forall|i: int| 0 <= i < body.len() ==> expr_kids_lt(#[trigger] body[i], i)
}

/// A local function is well-formed within a module of `n_funcs` functions.
pub open spec fn func_wf(f: Func, n_funcs: int) -> bool {
    &&& f.root < f.body.len()
    &&& arena_wf(f.body@)
    &&& forall|i: int|
        0 <= i < f.body.len() ==> expr_callee_lt(#[trigger] f.body@[i], n_funcs)
}

/// The identifier of a placeholder import is in range and names an import.
pub open spec fn placeholder_wf(funcs: Seq<FuncDecl>, id: Option<usize>) -> bool {
    match id {
        Option::Some(i) => i < funcs.len() && funcs[i as int] is Imported,
        Option::None => true,
    }
}

/// Well-formedness of the whole module: every local body is a well-founded
/// arena with in-range callees, both placeholder identifiers (where present)
/// name distinct imports, and every occupied table slot names a function.
pub open spec fn module_wf(m: Module) -> bool {
    &&& forall|i: int|
        0 <= i < m.funcs.len() ==> match #[trigger] m.funcs@[i] {
            FuncDecl::Local(f) => func_wf(f, m.funcs.len() as int),
            FuncDecl::Imported(_) => true,
        }
    &&& placeholder_wf(m.funcs@, m.describe_closure)
    &&& placeholder_wf(m.funcs@, m.describe)
    &&& (m.describe_closure is Some && m.describe is Some ==> m.describe_closure
        != m.describe)
    &&& forall|i: int|
        0 <= i < m.table.len() ==> match #[trigger] m.table@[i] {
            Option::Some(f) => f < m.funcs.len(),
            Option::None => true,
        }
}

/// Checks that every child index of `e` is below `bound` and, for a call,
/// that the callee is below `n_funcs`.
#[verifier::loop_isolation(false)]
fn expr_wf_check(e: &Expr, bound: usize, n_funcs: usize) -> (b: bool)
    ensures
        b == (expr_kids_lt(*e, bound as int) && expr_callee_lt(*e, n_funcs as int)),
{
    match e {
        Expr::Const(_) => true,
        Expr::LocalGet(_) => true,
        Expr::LocalSet(_, c) => *c < bound,
        Expr::Call(f, args) => {
            if *f >= n_funcs {
                return false;
            }
            let mut i: usize = 0;
            while i < args.len()
                invariant
                    i <= args.len(),
                    forall|j: int| 0 <= j < i ==> args@[j] < bound,
                decreases args.len() - i,
            {
                if args[i] >= bound {
                    return false;
                }
                i += 1;
            }
            true
        },
        Expr::Block(es) => {
            let mut i: usize = 0;
            while i < es.len()
                invariant
                    i <= es.len(),
                    forall|j: int| 0 <= j < i ==> es@[j] < bound,
                decreases es.len() - i,
            {
                if es[i] >= bound {
                    return false;
                }
                i += 1;
            }
            true
        },
    }
}

/// Checks [`func_wf`] for one local function.
#[verifier::loop_isolation(false)]
fn func_wf_check(f: &Func, n_funcs: usize) -> (b: bool)
    ensures
        b == func_wf(*f, n_funcs as int),
{
    if f.root >= f.body.len() {
        return false;
    }
    let mut i: usize = 0;
    while i < f.body.len()
        invariant
            i <= f.body.len(),
            f.root < f.body.len(),
            forall|j: int|
                0 <= j < i ==> expr_kids_lt(#[trigger] f.body@[j], j) && expr_callee_lt(
                    f.body@[j],
                    n_funcs as int,
                ),
        decreases f.body.len() - i,
    {
        if !expr_wf_check(&f.body[i], i, n_funcs) {
            return false;
        }
        i += 1;
    }
    true
}

/// Checks whether an optional placeholder identifier names an import.
fn placeholder_wf_check(funcs: &Vec<FuncDecl>, id: &Option<usize>) -> (b: bool)
    ensures
        b == placeholder_wf(funcs@, *id),
{
    match id {
        Option::Some(i) => *i < funcs.len() && matches!(funcs[*i], FuncDecl::Imported(_)),
        Option::None => true,
    }
}

impl Module {
    /// Decides [`module_wf`] at run time, so that a caller that assembled a
    /// module from untrusted parts can establish the rewriter's precondition.
    #[verifier::loop_isolation(false)]
    pub fn wf_check(&self) -> (b: bool)
        ensures
            b == module_wf(*self),
    {
        let n_funcs = self.funcs.len();
        let mut i: usize = 0;
        while i < self.funcs.len()
            invariant
                i <= self.funcs.len(),
                n_funcs == self.funcs.len(),
                forall|j: int|
                    0 <= j < i ==> match #[trigger] self.funcs@[j] {
                        FuncDecl::Local(f) => func_wf(f, self.funcs.len() as int),
                        FuncDecl::Imported(_) => true,
                    },
            decreases self.funcs.len() - i,
        {
            match &self.funcs[i] {
                FuncDecl::Local(f) => {
                    if !func_wf_check(f, n_funcs) {
                        return false;
                    }
                },
                FuncDecl::Imported(_) => {},
            }
            i += 1;
        }
        if !placeholder_wf_check(&self.funcs, &self.describe_closure) {
            return false;
        }
        if !placeholder_wf_check(&self.funcs, &self.describe) {
            return false;
        }
        match (&self.describe_closure, &self.describe) {
            (Option::Some(a), Option::Some(b)) => {
                if *a == *b {
                    return false;
                }
            },
            _ => {},
        }
        let mut i: usize = 0;
        while i < self.table.len()
            invariant
                i <= self.table.len(),
                n_funcs == self.funcs.len(),
                forall|j: int|
                    0 <= j < i ==> match #[trigger] self.table@[j] {
                        Option::Some(f) => f < self.funcs.len(),
                        Option::None => true,
                    },
            decreases self.table.len() - i,
        {
            match &self.table[i] {
                Option::Some(f) => {
                    if *f >= n_funcs {
                        return false;
                    }
                },
                Option::None => {},
            }
            i += 1;
        }
        true
    }
}

} // verus!
