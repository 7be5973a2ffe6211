//! The descriptor protocol: the word stream a descriptor subprogram emits,
//! and its decoding into a structured closure descriptor.
//!
//! The stream is a prefix-typed tree. Its leading word must be the closure
//! tag; the closure variant consists of the invoker shim's table index, the
//! destructor's table index, a flavor tag, and then the nested signature
//! subtree rooted at the function tag: the invoker's table index again, the
//! argument count, one type word per argument, and the return type word.
//! Unknown tags, wrong lengths and trailing words are decode errors.

use vstd::prelude::*;

use crate::error::RewriteError;

verus! {

/// Leading tag of a closure descriptor stream.
pub const TAG_CLOSURE: u32 = 48;

/// Tag opening the signature subtree.
pub const TAG_FUNCTION: u32 = 49;

/// Flavor tag: a reentrant closure with an immutable environment.
pub const TAG_FN: u32 = 50;

/// Flavor tag: a non-reentrant, re-callable closure.
pub const TAG_FN_MUT: u32 = 51;

/// Flavor tag: a one-shot closure.
pub const TAG_FN_ONCE: u32 = 52;

/// Type word: signed 32-bit integer.
pub const TAG_I32: u32 = 1;

/// Type word: unsigned 32-bit integer.
pub const TAG_U32: u32 = 2;

/// Type word: 64-bit float, passed through as a JS number.
pub const TAG_F64: u32 = 3;

/// Type word: boolean, 0 or 1 on the wasm side.
pub const TAG_BOOLEAN: u32 = 4;

/// Type word: a Unicode scalar value, a code point on the wasm side.
pub const TAG_CHAR: u32 = 5;

/// Type word: no value; valid only as a return type.
pub const TAG_UNIT: u32 = 6;

/// The calling discipline a closure obeys.
#[derive(Clone, Copy, Debug, PartialEq, Eq, Structural)]
pub enum Flavor {
    /// Reentrant; the environment word is never cleared.
    Fn,
    /// Non-reentrant but re-callable; the environment word is cleared during
    /// a call and restored afterwards.
    FnMut,
    /// One-shot; the environment word is cleared and never restored.
    FnOnce,
}

/// One wasm-representable semantic type of the closure's signature.
#[derive(Clone, Copy, Debug, PartialEq, Eq, Structural)]
pub enum SemType {
    I32,
    U32,
    F64,
    Boolean,
    Char,
    /// No value; valid only as a return type.
    Unit,
}

/// The decoded signature subtree: the invoker's table index, the argument
/// types in order, and the return type.
#[derive(Clone, Debug, PartialEq, Eq)]
pub struct FuncSignature {
    pub invoke_idx: u32,
    pub args: Vec<SemType>,
    pub ret: SemType,
}

/// A decoded closure descriptor: flavor, the invoker shim's and destructor's
/// function-table indices, and the full signature.
#[derive(Clone, Debug, PartialEq, Eq)]
pub struct ClosureDescriptor {
    pub flavor: Flavor,
    pub shim_idx: u32,
    pub dtor_idx: u32,
    pub signature: FuncSignature,
}

/// The mathematical image of a [`ClosureDescriptor`]: the same fields with
/// the argument list as a sequence.
pub struct DescriptorView {
    pub flavor: Flavor,
    pub shim_idx: u32,
    pub dtor_idx: u32,
    pub invoke_idx: u32,
    pub args: Seq<SemType>,
    pub ret: SemType,
}

impl View for ClosureDescriptor {
    type V = DescriptorView;

    open spec fn view(&self) -> DescriptorView {
        DescriptorView {
            flavor: self.flavor,
            shim_idx: self.shim_idx,
            dtor_idx: self.dtor_idx,
            invoke_idx: self.signature.invoke_idx,
            args: self.signature.args@,
            ret: self.signature.ret,
        }
    }
}

/// The flavor a flavor word denotes, if any.
pub open spec fn flavor_of_tag(w: u32) -> Option<Flavor> {
    if w == TAG_FN {
        Option::Some(Flavor::Fn)
    } else if w == TAG_FN_MUT {
        Option::Some(Flavor::FnMut)
    } else if w == TAG_FN_ONCE {
        Option::Some(Flavor::FnOnce)
    } else {
        Option::None
    }
}

/// The value type an argument word denotes, if any. `Unit` is no value and
/// is not accepted here.
pub open spec fn arg_type_of_tag(w: u32) -> Option<SemType> {
    if w == TAG_I32 {
        Option::Some(SemType::I32)
    } else if w == TAG_U32 {
        Option::Some(SemType::U32)
    } else if w == TAG_F64 {
        Option::Some(SemType::F64)
    } else if w == TAG_BOOLEAN {
        Option::Some(SemType::Boolean)
    } else if w == TAG_CHAR {
        Option::Some(SemType::Char)
    } else {
        Option::None
    }
}

/// The type a return word denotes, if any: any value type, or `Unit`.
pub open spec fn ret_type_of_tag(w: u32) -> Option<SemType> {
    if w == TAG_UNIT {
        Option::Some(SemType::Unit)
    } else {
        arg_type_of_tag(w)
    }
}

/// Whether `words` is a well-formed closure descriptor stream: the closure
/// tag, the two table indices, a known flavor word, the function tag, the
/// invoker index, the argument count, exactly that many known argument
/// words, one known return word, and nothing after it.
pub open spec fn decode_wf(words: Seq<u32>) -> bool {
    &&& words.len() >= 8
    &&& words[0] == TAG_CLOSURE
    &&& flavor_of_tag(words[3]) is Some
    &&& words[4] == TAG_FUNCTION
    &&& words.len() == 8 + words[6]
    &&& forall|i: int| 0 <= i < words[6] ==> arg_type_of_tag(#[trigger] words[7 + i]) is Some
    &&& ret_type_of_tag(words[7 + words[6]]) is Some
}

/// The descriptor a well-formed stream denotes, or `None` otherwise.
pub open spec fn decode_spec(words: Seq<u32>) -> Option<DescriptorView> {
    if decode_wf(words) {
        Option::Some(
            DescriptorView {
                flavor: flavor_of_tag(words[3])->0,
                shim_idx: words[1],
                dtor_idx: words[2],
                invoke_idx: words[5],
                args: Seq::new(words[6] as nat, |i: int| arg_type_of_tag(words[7 + i])->0),
                ret: ret_type_of_tag(words[7 + words[6]])->0,
            },
        )
    } else {
        Option::None
    }
}

/// The flavor a flavor word denotes at run time.
fn flavor_of_tag_exec(w: u32) -> (r: Option<Flavor>)
    ensures
        r == flavor_of_tag(w),
{
    if w == TAG_FN {
        Option::Some(Flavor::Fn)
    } else if w == TAG_FN_MUT {
        Option::Some(Flavor::FnMut)
    } else if w == TAG_FN_ONCE {
        Option::Some(Flavor::FnOnce)
    } else {
        Option::None
    }
}

/// The value type an argument word denotes at run time.
fn arg_type_of_tag_exec(w: u32) -> (r: Option<SemType>)
    ensures
        r == arg_type_of_tag(w),
{
    if w == TAG_I32 {
        Option::Some(SemType::I32)
    } else if w == TAG_U32 {
        Option::Some(SemType::U32)
    } else if w == TAG_F64 {
        Option::Some(SemType::F64)
    } else if w == TAG_BOOLEAN {
        Option::Some(SemType::Boolean)
    } else if w == TAG_CHAR {
        Option::Some(SemType::Char)
    } else {
        Option::None
    }
}

/// The type a return word denotes at run time.
fn ret_type_of_tag_exec(w: u32) -> (r: Option<SemType>)
    ensures
        r == ret_type_of_tag(w),
{
    if w == TAG_UNIT {
        Option::Some(SemType::Unit)
    } else {
        arg_type_of_tag_exec(w)
    }
}

/// Decodes a descriptor word stream.
///
/// Succeeds with the descriptor [`decode_spec`] denotes exactly when the
/// stream is well-formed; any malformed stream — unknown tag, wrong length,
/// trailing words — yields `DescriptorDecodeFailure`.
#[verifier::loop_isolation(false)]
pub fn decode(words: &Vec<u32>) -> (r: Result<ClosureDescriptor, RewriteError>)
    ensures
        match decode_spec(words@) {
            Option::Some(d) => r matches Result::Ok(c) && c@ == d,
            Option::None => r == Result::<ClosureDescriptor, RewriteError>::Err(
                RewriteError::DescriptorDecodeFailure,
            ),
        },
{
    if words.len() < 8 {
        return Result::Err(RewriteError::DescriptorDecodeFailure);
    }
    if words[0] != TAG_CLOSURE {
        return Result::Err(RewriteError::DescriptorDecodeFailure);
    }
    let flavor = match flavor_of_tag_exec(words[3]) {
        Option::Some(f) => f,
        Option::None => {
            return Result::Err(RewriteError::DescriptorDecodeFailure);
        },
    };
    if words[4] != TAG_FUNCTION {
        return Result::Err(RewriteError::DescriptorDecodeFailure);
    }
    let argc = words[6];
    let n_args = argc as usize;
    if words.len() - 8 != n_args {
        proof {
            assert(!decode_wf(words@));
        }
        return Result::Err(RewriteError::DescriptorDecodeFailure);
    }
    let mut args: Vec<SemType> = Vec::new();
    let mut i: usize = 0;
    while i < n_args
        invariant
            i <= n_args,
            args@.len() == i as int,
            forall|j: int|
                0 <= j < i ==> #[trigger] arg_type_of_tag(words@[7 + j]) == Option::Some(
                    args@[j],
                ),
        decreases n_args - i,
    {
        match arg_type_of_tag_exec(words[7 + i]) {
            Option::Some(t) => {
                args.push(t);
            },
            Option::None => {
                proof {
                    assert(arg_type_of_tag(words@[7 + i as int]) is None);
                    assert(!decode_wf(words@));
                }
                return Result::Err(RewriteError::DescriptorDecodeFailure);
            },
        }
        i += 1;
    }
    let ret = match ret_type_of_tag_exec(words[7 + n_args]) {
        Option::Some(t) => t,
        Option::None => {
            return Result::Err(RewriteError::DescriptorDecodeFailure);
        },
    };
    let descriptor = ClosureDescriptor {
        flavor,
        shim_idx: words[1],
        dtor_idx: words[2],
        signature: FuncSignature { invoke_idx: words[5], args, ret },
    };
    proof {
        assert(decode_wf(words@));
        assert(descriptor@.args =~= decode_spec(words@)->0.args);
    }
    Result::Ok(descriptor)
}

} // verus!
