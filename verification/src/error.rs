//! Errors reported by the rewriter.
//!
//! Every error is fatal for the pass: the rewriter is a build-time tool and
//! never retries. Each variant carries enough context (a function or table
//! index) to diagnose the offending module.

use vstd::prelude::*;

verus! {

/// The reasons a rewrite can fail.
#[derive(Clone, Copy, Debug, PartialEq, Eq, Structural)]
pub enum RewriteError {
    /// A local function contains more than one call to the describe-closure
    /// placeholder import. The field names the offending local function.
    MultipleDescribeCalls { func: usize },
    /// The abstract evaluator could not finish: an out-of-range local, a call
    /// to an import other than the two placeholders, an argument-count
    /// mismatch, a missing or invalid descriptor table slot, or call nesting
    /// deeper than the module's function count. The field names the local
    /// function whose interpretation failed.
    InterpretationFailure { func: usize },
    /// The word stream produced by a descriptor subprogram does not follow the
    /// descriptor grammar: an unknown tag, a wrong length, or trailing words.
    DescriptorDecodeFailure,
    /// A function-table index slated for removal is out of range or already
    /// empty when removal begins. The field holds that index.
    MissingTableSlot { index: usize },
    /// The module breaks an invariant the rewriter relies on, such as a
    /// describe call whose expression is no longer a call when retargeted.
    CollaboratorInvariant,
}

} // verus!
