//! A state model of the emitted factory shim's inner callable.
//!
//! The generated text ([`crate::jsgen::cb_source_spec`]) gives the callable
//! two fields: `this.a`, the first environment word, and `this.cnt`, the
//! reentrance count. Entry runs `this.cnt++; const a = this.a;` and, for the
//! non-reentrant flavors, `this.a = 0;`. The finally block restores `this.a
//! = a;` for the re-callable flavor and then, for the non-one-shot flavors,
//! runs `if (this.cnt-- == 1) d(a, b);`. Dropping the closure from outside
//! decrements `this.cnt` and destroys the environment only when the count
//! reaches zero there. The functions below restate exactly those statements
//! over a two-field state, and the lemmas prove the flavor disciplines the
//! host side relies on: the invoker's `a == 0` guard fires on reentry of a
//! non-reentrant closure and on every call after a one-shot closure's first,
//! a reentrant closure always observes its environment, and a drop during a
//! call defers the destructor to the finally branch.

use vstd::prelude::*;

use crate::descriptor::Flavor;

verus! {

/// The inner callable's mutable fields: the environment word `this.a` and
/// the reentrance count `this.cnt`.
pub struct CbState {
    pub a: nat,
    pub cnt: nat,
}

/// The state the factory leaves behind: `cb.a = a; cb.cnt = 1;`.
pub open spec fn cb_init(a: nat) -> CbState {
    CbState { a: a, cnt: 1 }
}

/// The entry prelude of one call: the count rises, the invoker will observe
/// the current `this.a`, and the non-reentrant flavors clear it.
pub open spec fn cb_enter(st: CbState, flavor: Flavor) -> (CbState, nat) {
    let observed = st.a;
    let cleared = if flavor == Flavor::Fn {
        st.a
    } else {
        0
    };
    (CbState { a: cleared, cnt: st.cnt + 1 }, observed)
}

/// The finally block of one call, given the `a` captured at entry: the
/// re-callable flavor restores `this.a`, and the non-one-shot flavors invoke
/// the destructor exactly when `this.cnt-- == 1`.
pub open spec fn cb_exit(st: CbState, flavor: Flavor, a_captured: nat) -> (CbState, bool) {
    let restored = if flavor == Flavor::FnMut {
        CbState { a: a_captured, cnt: st.cnt }
    } else {
        st
    };
    if flavor != Flavor::FnOnce {
        let destroy = restored.cnt == 1;
        (CbState { a: restored.a, cnt: (restored.cnt - 1) as nat }, destroy)
    } else {
        (restored, false)
    }
}

/// Dropping the closure from outside a call: the count falls, and the
/// destructor runs right away only when it reaches zero here.
pub open spec fn cb_drop(st: CbState) -> (CbState, bool) {
    (CbState { a: st.a, cnt: (st.cnt - 1) as nat }, st.cnt == 1)
}

/// A re-callable, non-reentrant closure: a nested call made while the first
/// one is in progress observes `a == 0`, which makes the invoker signal
/// "invoked recursively".
pub proof fn lemma_fnmut_reentry_observes_zero(a0: nat)
    requires
        a0 != 0,
    ensures
        ({
            let (st1, first) = cb_enter(cb_init(a0), Flavor::FnMut);
            let (st2, nested) = cb_enter(st1, Flavor::FnMut);
            first == a0 && nested == 0
        }),
{
}

/// A one-shot closure: once the first call has returned, every further call
/// observes `a == 0` — the environment word is never restored.
pub proof fn lemma_fnonce_second_call_observes_zero(a0: nat)
    requires
        a0 != 0,
    ensures
        ({
            let (st1, first) = cb_enter(cb_init(a0), Flavor::FnOnce);
            let (st2, destroy) = cb_exit(st1, Flavor::FnOnce, first);
            let (st3, second) = cb_enter(st2, Flavor::FnOnce);
            first == a0 && !destroy && second == 0
        }),
{
}

/// A reentrant closure: a nested call observes the original environment
/// word; `this.a` is never cleared.
pub proof fn lemma_fn_nested_observes_environment(a0: nat)
    ensures
        ({
            let (st1, first) = cb_enter(cb_init(a0), Flavor::Fn);
            let (st2, nested) = cb_enter(st1, Flavor::Fn);
            first == a0 && nested == a0
        }),
{
}

/// Dropping the closure while a call is in progress does not destroy the
/// environment at the drop; the `cnt-- == 1` finally branch of that call
/// invokes the destructor instead. Holds for both non-one-shot flavors.
pub proof fn lemma_drop_during_call_defers_destructor(a0: nat, flavor: Flavor)
    requires
        flavor != Flavor::FnOnce,
    ensures
        ({
            let (st1, captured) = cb_enter(cb_init(a0), flavor);
            let (st2, destroyed_at_drop) = cb_drop(st1);
            let (st3, destroyed_at_exit) = cb_exit(st2, flavor, captured);
            !destroyed_at_drop && destroyed_at_exit
        }),
{
}

/// Without a drop, a completed call does not destroy the environment: the
/// count returns to one, not zero.
pub proof fn lemma_plain_call_keeps_closure(a0: nat, flavor: Flavor)
    requires
        flavor != Flavor::FnOnce,
    ensures
        ({
            let (st1, captured) = cb_enter(cb_init(a0), flavor);
            let (st2, destroyed) = cb_exit(st1, flavor, captured);
            !destroyed && st2.cnt == 1
        }),
{
}

} // verus!
