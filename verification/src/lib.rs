//! A post-link rewriter for WebAssembly modules that expose host-language
//! closures to a JavaScript host.
//!
//! A cooperating compiler front-end emits, for every closure site, a call to a
//! placeholder "describe closure" import whose third argument names a
//! monomorphized descriptor subprogram through the module's function table.
//! This crate locates those calls, executes the descriptor subprograms under a
//! narrow abstract interpreter to decode each closure's flavor and signature,
//! synthesizes a JavaScript factory shim per site, splices matching imports
//! into the module, retargets the original calls, and clears the now-dead
//! function-table slots.
//!
//! The entry point is [`rewrite`].

mod descriptor;
mod error;
mod interpret;
mod jsgen;
mod laws;
mod module;
mod scan;
mod shim_model;
mod splice;

pub use descriptor::{
    decode, ClosureDescriptor, Flavor, FuncSignature, SemType, TAG_BOOLEAN, TAG_CHAR, TAG_CLOSURE,
    TAG_F64, TAG_FN, TAG_FN_MUT, TAG_FN_ONCE, TAG_FUNCTION, TAG_I32, TAG_U32, TAG_UNIT,
};
pub use error::RewriteError;
pub use interpret::interpret_closure_descriptor;
pub use jsgen::{shim_name, shim_source, usize_to_dec};
pub use laws::{
    lemma_call_sites_preserved, lemma_rewrite_idempotent, lemma_signature_fidelity,
    lemma_table_accounting, lemma_unique_shim_names,
};
pub use module::{Expr, Func, FuncDecl, Import, Module, Shim};
pub use scan::scan;
pub use shim_model::{
    lemma_drop_during_call_defers_destructor, lemma_fn_nested_observes_environment,
    lemma_fnmut_reentry_observes_zero, lemma_fnonce_second_call_observes_zero,
    lemma_plain_call_keeps_closure, CbState,
};
pub use splice::rewrite;
