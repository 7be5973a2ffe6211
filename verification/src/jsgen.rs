//! Synthesis of the JavaScript factory-shim source text.
//!
//! For every call site the splicer emits one factory shim. The outer function
//! takes the two environment words and the (now dead) descriptor table index,
//! reads the invoker and destructor out of the function table, builds the
//! inner callable `cb`, initializes `cb.a` and `cb.cnt`, binds it, exposes
//! the unbound form as `.original` on the bound one, and returns the bound
//! callable as a heap-object handle. The inner callable mirrors the closure's
//! signature and flavor: its argument and return marshalling follow the
//! decoded types, and its prelude and finally blocks follow the flavor.
//!
//! Every generated text is pinned, character for character, by a spec
//! function of the descriptor, so the emitted shim is deterministic given the
//! input module.

use vstd::prelude::*;

use crate::descriptor::{ClosureDescriptor, DescriptorView, Flavor, SemType};

verus! {

/// The character of one decimal digit.
pub open spec fn digit_char(d: nat) -> char {
    if d == 0 {
        '0'
    } else if d == 1 {
        '1'
    } else if d == 2 {
        '2'
    } else if d == 3 {
        '3'
    } else if d == 4 {
        '4'
    } else if d == 5 {
        '5'
    } else if d == 6 {
        '6'
    } else if d == 7 {
        '7'
    } else if d == 8 {
        '8'
    } else {
        '9'
    }
}

/// The decimal rendering of `n`, most significant digit first, with no
/// leading zeros (a single `0` for zero).
pub open spec fn dec_digits(n: nat) -> Seq<char>
    decreases n,
{
    if n < 10 {
        seq![digit_char(n)]
    } else {
        dec_digits(n / 10).push(digit_char(n % 10))
    }
}

/// A decimal rendering is never empty.
pub proof fn lemma_dec_digits_len(n: nat)
    ensures
        dec_digits(n).len() >= 1,
    decreases n,
{
    if n >= 10 {
        lemma_dec_digits_len(n / 10);
    }
}

/// Distinct numbers render as distinct decimal strings.
pub proof fn lemma_dec_digits_injective(a: nat, b: nat)
    requires
        dec_digits(a) == dec_digits(b),
    ensures
        a == b,
    decreases a + b,
{
    lemma_dec_digits_len(a);
    lemma_dec_digits_len(b);
    if a < 10 && b < 10 {
        assert(dec_digits(a) == seq![digit_char(a)]);
        assert(dec_digits(b) == seq![digit_char(b)]);
        assert(seq![digit_char(a)] =~= seq![digit_char(b)]);
        assert(digit_char(a) == seq![digit_char(a)][0]);
        assert(digit_char(b) == seq![digit_char(b)][0]);
        assert(digit_char(a) == digit_char(b));
        assert(a == b);
    } else if a < 10 {
        lemma_dec_digits_len(b / 10);
        assert(dec_digits(b).len() >= 2);
    } else if b < 10 {
        lemma_dec_digits_len(a / 10);
        assert(dec_digits(a).len() >= 2);
    } else {
        let la = dec_digits(a / 10);
        let lb = dec_digits(b / 10);
        assert(dec_digits(a) == la.push(digit_char(a % 10)));
        assert(dec_digits(b) == lb.push(digit_char(b % 10)));
        assert(la.push(digit_char(a % 10)).last() == digit_char(a % 10));
        assert(lb.push(digit_char(b % 10)).last() == digit_char(b % 10));
        assert(digit_char(a % 10) == digit_char(b % 10));
        assert(a % 10 == b % 10);
        assert(dec_digits(a).drop_last() =~= la);
        assert(dec_digits(b).drop_last() =~= lb);
        lemma_dec_digits_injective(a / 10, b / 10);
        vstd::arithmetic::div_mod::lemma_fundamental_div_mod(a as int, 10);
        vstd::arithmetic::div_mod::lemma_fundamental_div_mod(b as int, 10);
        assert(a == b);
    }
}

/// The decimal digit `d` as a one-character string slice.
fn digit_str(d: usize) -> (r: &'static str)
    requires
        d < 10,
    ensures
        r@ == seq![digit_char(d as nat)],
{
    proof {
        reveal_strlit("0");
        reveal_strlit("1");
        reveal_strlit("2");
        reveal_strlit("3");
        reveal_strlit("4");
        reveal_strlit("5");
        reveal_strlit("6");
        reveal_strlit("7");
        reveal_strlit("8");
        reveal_strlit("9");
    }
    if d == 0 {
        "0"
    } else if d == 1 {
        "1"
    } else if d == 2 {
        "2"
    } else if d == 3 {
        "3"
    } else if d == 4 {
        "4"
    } else if d == 5 {
        "5"
    } else if d == 6 {
        "6"
    } else if d == 7 {
        "7"
    } else if d == 8 {
        "8"
    } else {
        "9"
    }
}

/// Renders `n` in decimal.
pub fn usize_to_dec(n: usize) -> (s: String)
    ensures
        s@ == dec_digits(n as nat),
    decreases n,
{
    if n < 10 {
        let s = digit_str(n).to_owned();
        s
    } else {
        let mut s = usize_to_dec(n / 10);
        s.append(digit_str(n % 10));
        proof {
            assert(s@ =~= dec_digits(n as nat));
        }
        s
    }
}

/// The import and export name of the shim for the closure found in local
/// function `fid`.
pub open spec fn shim_name_spec(fid: usize) -> Seq<char> {
    "__wbindgen_closure_wrapper"@ + dec_digits(fid as nat)
}

/// Builds [`shim_name_spec`] at run time.
pub fn shim_name(fid: usize) -> (s: String)
    ensures
        s@ == shim_name_spec(fid),
{
    let mut s = ("__wbindgen_closure_wrapper").to_owned();
    let digits = usize_to_dec(fid);
    s.append(digits.as_str());
    s
}

/// The name of the inner callable's `i`-th parameter.
pub open spec fn arg_name_spec(i: nat) -> Seq<char> {
    "arg"@ + dec_digits(i)
}

/// The inner callable's parameter list: `arg0, arg1, …` up to `n` names.
pub open spec fn params_list_spec(n: nat) -> Seq<char>
    decreases n,
{
    if n == 0 {
        Seq::empty()
    } else if n == 1 {
        arg_name_spec(0)
    } else {
        params_list_spec((n - 1) as nat) + ", "@ + arg_name_spec((n - 1) as nat)
    }
}

/// How the `i`-th argument is marshalled when handed to the invoker: numbers
/// and code points pass through, booleans collapse to 0 or 1.
pub open spec fn marshalled_arg_spec(t: SemType, i: nat) -> Seq<char> {
    match t {
        SemType::Boolean => "("@ + arg_name_spec(i) + " ? 1 : 0)"@,
        SemType::Char => arg_name_spec(i) + ".codePointAt(0)"@,
        _ => arg_name_spec(i),
    }
}

/// The invoker's argument list over the first `n` closure arguments: the two
/// environment words, then each argument marshalled.
pub open spec fn call_args_upto_spec(args: Seq<SemType>, n: nat) -> Seq<char>
    decreases n,
{
    if n == 0 {
        "a, b"@
    } else {
        call_args_upto_spec(args, (n - 1) as nat) + ", "@ + marshalled_arg_spec(
            args[n - 1],
            (n - 1) as nat,
        )
    }
}

/// The statement invoking the invoker `f`, with return marshalling fit to
/// the return type.
pub open spec fn ret_stmt_spec(args: Seq<SemType>, ret: SemType) -> Seq<char> {
    let call = "f("@ + call_args_upto_spec(args, args.len()) + ")"@;
    match ret {
        SemType::Unit => call + ";"@,
        SemType::Boolean => "return "@ + call + " !== 0;"@,
        SemType::Char => "return String.fromCodePoint("@ + call + ");"@,
        _ => "return "@ + call + ";"@,
    }
}

/// The inner callable `cb`: on entry it counts the reentrance, captures the
/// environment word, and — for the non-reentrant flavors — clears it; in the
/// finally block the re-callable flavor restores it, and the non-one-shot
/// flavors invoke the destructor when the closure was dropped during the
/// call.
pub open spec fn cb_source_spec(d: DescriptorView) -> Seq<char> {
    "function("@ + params_list_spec(d.args.len()) + ") {\n    this.cnt++;\n    const a = this.a;\n"@
        + (if d.flavor != Flavor::Fn {
        "    this.a = 0;\n"@
    } else {
        Seq::empty()
    }) + "    try {\n        "@ + ret_stmt_spec(d.args, d.ret) + "\n    } finally {\n"@ + (if d.flavor
        == Flavor::FnMut {
        "        this.a = a;\n"@
    } else {
        Seq::empty()
    }) + (if d.flavor != Flavor::FnOnce {
        "        if (this.cnt-- == 1) d(a, b);\n"@
    } else {
        Seq::empty()
    }) + "    }\n}"@
}

/// The whole factory shim: reads the invoker and destructor from the
/// function table, builds and initializes `cb`, binds it, keeps the unbound
/// form reachable as `.original`, and returns a heap-object handle.
pub open spec fn shim_source_spec(d: DescriptorView) -> Seq<char> {
    "function(a, b, _ignored) {\n    const f = wasm.__wbg_function_table.get("@ + dec_digits(
        d.shim_idx as nat,
    ) + ");\n    const d = wasm.__wbg_function_table.get("@ + dec_digits(d.dtor_idx as nat)
        + ");\n    const cb = "@ + cb_source_spec(d)
        + ";\n    cb.a = a;\n    cb.cnt = 1;\n    let real = cb.bind(cb);\n    real.original = cb;\n    return addHeapObject(real);\n}"@
}

/// Builds `arg<i>` at run time.
fn arg_name(i: usize) -> (s: String)
    ensures
        s@ == arg_name_spec(i as nat),
{
    let mut s = ("arg").to_owned();
    let digits = usize_to_dec(i);
    s.append(digits.as_str());
    s
}

/// Builds [`params_list_spec`] at run time.
#[verifier::loop_isolation(false)]
fn params_list(n: usize) -> (s: String)
    ensures
        s@ == params_list_spec(n as nat),
{
    let mut s = String::new();
    let mut i: usize = 0;
    while i < n
        invariant
            i <= n,
            s@ == params_list_spec(i as nat),
        decreases n - i,
    {
        if i > 0 {
            s.append(", ");
        }
        let name = arg_name(i);
        s.append(name.as_str());
        i += 1;
        proof {
            assert(s@ =~= params_list_spec(i as nat));
        }
    }
    s
}

/// Builds [`marshalled_arg_spec`] at run time.
fn marshalled_arg(t: SemType, i: usize) -> (s: String)
    ensures
        s@ == marshalled_arg_spec(t, i as nat),
{
    let name = arg_name(i);
    match t {
        SemType::Boolean => {
            let mut s = ("(").to_owned();
            s.append(name.as_str());
            s.append(" ? 1 : 0)");
            proof {
                assert(s@ =~= marshalled_arg_spec(t, i as nat));
            }
            s
        },
        SemType::Char => {
            let mut s = name;
            s.append(".codePointAt(0)");
            s
        },
        _ => name,
    }
}

/// Builds the invoker's argument list at run time.
#[verifier::loop_isolation(false)]
fn call_args(args: &Vec<SemType>) -> (s: String)
    ensures
        s@ == call_args_upto_spec(args@, args@.len()),
{
    let mut s = ("a, b").to_owned();
    let mut i: usize = 0;
    while i < args.len()
        invariant
            i <= args.len(),
            s@ == call_args_upto_spec(args@, i as nat),
        decreases args.len() - i,
    {
        s.append(", ");
        let m = marshalled_arg(args[i], i);
        s.append(m.as_str());
        i += 1;
        proof {
            assert(s@ =~= call_args_upto_spec(args@, i as nat));
        }
    }
    s
}

/// Builds [`ret_stmt_spec`] at run time.
fn ret_stmt(args: &Vec<SemType>, ret: SemType) -> (s: String)
    ensures
        s@ == ret_stmt_spec(args@, ret),
{
    let inner = call_args(args);
    let mut call = ("f(").to_owned();
    call.append(inner.as_str());
    call.append(")");
    match ret {
        SemType::Unit => {
            let mut s = call;
            s.append(";");
            proof {
                assert(s@ =~= ret_stmt_spec(args@, ret));
            }
            s
        },
        SemType::Boolean => {
            let mut s = ("return ").to_owned();
            s.append(call.as_str());
            s.append(" !== 0;");
            proof {
                assert(s@ =~= ret_stmt_spec(args@, ret));
            }
            s
        },
        SemType::Char => {
            let mut s = ("return String.fromCodePoint(").to_owned();
            s.append(call.as_str());
            s.append(");");
            proof {
                assert(s@ =~= ret_stmt_spec(args@, ret));
            }
            s
        },
        _ => {
            let mut s = ("return ").to_owned();
            s.append(call.as_str());
            s.append(";");
            proof {
                assert(s@ =~= ret_stmt_spec(args@, ret));
            }
            s
        },
    }
}

/// Builds the inner callable's source at run time.
fn cb_source(d: &ClosureDescriptor) -> (s: String)
    ensures
        s@ == cb_source_spec(d@),
{
    let flavor = d.flavor;
    let params = params_list(d.signature.args.len());
    let stmt = ret_stmt(&d.signature.args, d.signature.ret);
    let mut s = ("function(").to_owned();
    s.append(params.as_str());
    s.append(") {\n    this.cnt++;\n    const a = this.a;\n");
    if !matches!(flavor, Flavor::Fn) {
        s.append("    this.a = 0;\n");
    }
    s.append("    try {\n        ");
    s.append(stmt.as_str());
    s.append("\n    } finally {\n");
    if matches!(flavor, Flavor::FnMut) {
        s.append("        this.a = a;\n");
    }
    if !matches!(flavor, Flavor::FnOnce) {
        s.append("        if (this.cnt-- == 1) d(a, b);\n");
    }
    s.append("    }\n}");
    proof {
        assert(s@ =~= cb_source_spec(d@));
    }
    s
}

/// Builds the whole factory shim's source at run time.
pub fn shim_source(d: &ClosureDescriptor) -> (s: String)
    ensures
        s@ == shim_source_spec(d@),
{
    let cb = cb_source(d);
    let shim_digits = usize_to_dec(d.shim_idx as usize);
    let dtor_digits = usize_to_dec(d.dtor_idx as usize);
    let mut s = ("function(a, b, _ignored) {\n    const f = wasm.__wbg_function_table.get(")
        .to_owned();
    s.append(shim_digits.as_str());
    s.append(");\n    const d = wasm.__wbg_function_table.get(");
    s.append(dtor_digits.as_str());
    s.append(");\n    const cb = ");
    s.append(cb.as_str());
    s.append(
        ";\n    cb.a = a;\n    cb.cnt = 1;\n    let real = cb.bind(cb);\n    real.original = cb;\n    return addHeapObject(real);\n}",
    );
    proof {
        assert(s@ =~= shim_source_spec(d@));
    }
    s
}

} // verus!
