//! End-to-end scenarios for the rewriter.

use closure_rewriter::{
    rewrite, Expr, Func, FuncDecl, Import, Module, RewriteError, TAG_CLOSURE, TAG_FN, TAG_FN_MUT,
    TAG_FN_ONCE, TAG_FUNCTION, TAG_I32, TAG_UNIT,
};

fn import(module_name: &str, entry_name: &str, ty: usize) -> FuncDecl {
    FuncDecl::Imported(Import {
        module_name: module_name.to_string(),
        entry_name: entry_name.to_string(),
        ty,
    })
}

/// A local function whose only effect, under the interpreter, is one
/// `describe` call per word of `words`, in order.
fn descriptor_func(describe_id: usize, words: &[u32]) -> Func {
    let mut body = Vec::new();
    let mut calls = Vec::new();
    for w in words {
        body.push(Expr::Const(*w));
        let const_id = body.len() - 1;
        body.push(Expr::Call(describe_id, vec![const_id]));
        calls.push(body.len() - 1);
    }
    body.push(Expr::Block(calls));
    let root = body.len() - 1;
    Func { ty: 2, n_locals: 0, root, body }
}

/// The shape the front-end emits around a describe-closure call: two opaque
/// environment words and the constant table index of the descriptor
/// subprogram.
fn enclosing_func(dc_id: usize, tbl_idx: u32) -> Func {
    let body = vec![
        Expr::Const(11),
        Expr::Const(22),
        Expr::Const(tbl_idx),
        Expr::Call(dc_id, vec![0, 1, 2]),
    ];
    Func { ty: 3, n_locals: 2, root: 3, body }
}

fn dummy_local() -> Func {
    Func { ty: 4, n_locals: 0, root: 0, body: vec![Expr::Const(0)] }
}

/// A module with one closure site: function 2 calls the placeholder, table
/// slot 5 holds the descriptor subprogram (function 3), and slots 7 and 8
/// hold the invoker and destructor dummies.
fn single_site_module(words: &[u32]) -> Module {
    let mut table = vec![None; 9];
    table[5] = Some(3);
    table[7] = Some(4);
    table[8] = Some(5);
    Module {
        funcs: vec![
            import("__wbindgen_placeholder__", "__wbindgen_describe_closure", 0),
            import("__wbindgen_placeholder__", "__wbindgen_describe", 1),
            FuncDecl::Local(enclosing_func(0, 5)),
            FuncDecl::Local(descriptor_func(1, words)),
            FuncDecl::Local(dummy_local()),
            FuncDecl::Local(dummy_local()),
        ],
        table,
        shims: Vec::new(),
        describe_closure: Some(0),
        describe: Some(1),
        add_heap_object_exposed: false,
        function_table_needed: false,
    }
}

fn fn_words() -> Vec<u32> {
    vec![TAG_CLOSURE, 7, 8, TAG_FN, TAG_FUNCTION, 7, 0, TAG_I32]
}

#[test]
fn s1_no_placeholder_import_is_noop() {
    let mut m = single_site_module(&fn_words());
    m.describe_closure = None;
    assert!(m.wf_check());
    let before = m.clone();
    assert!(rewrite(&mut m).is_ok());
    assert_eq!(m, before);
}

#[test]
fn s1_no_hits_is_noop() {
    // The placeholder import exists, but nothing calls it.
    let mut m = single_site_module(&fn_words());
    m.funcs[2] = FuncDecl::Local(dummy_local());
    assert!(m.wf_check());
    let before = m.clone();
    assert!(rewrite(&mut m).is_ok());
    assert_eq!(m, before);
}

#[test]
fn s2_single_fn_closure() {
    let mut m = single_site_module(&fn_words());
    assert!(m.wf_check());
    assert!(rewrite(&mut m).is_ok());

    // One new import, named for the enclosing function, typed like the
    // placeholder.
    assert_eq!(m.funcs.len(), 7);
    match &m.funcs[6] {
        FuncDecl::Imported(imp) => {
            assert_eq!(imp.module_name, "__wbindgen_placeholder__");
            assert_eq!(imp.entry_name, "__wbindgen_closure_wrapper2");
            assert_eq!(imp.ty, 0);
        }
        FuncDecl::Local(_) => panic!("expected an import"),
    }

    // The descriptor's slot is cleared; the invoker's and destructor's are
    // retained.
    assert_eq!(m.table[5], None);
    assert_eq!(m.table[7], Some(4));
    assert_eq!(m.table[8], Some(5));

    // The call at the recorded expression now targets the new import, with
    // its original arguments.
    match &m.funcs[2] {
        FuncDecl::Local(f) => assert_eq!(f.body[3], Expr::Call(6, vec![0, 1, 2])),
        FuncDecl::Imported(_) => panic!("expected a local function"),
    }

    // One shim was registered, and the glue flags are set.
    assert_eq!(m.shims.len(), 1);
    assert_eq!(m.shims[0].name, "__wbindgen_closure_wrapper2");
    assert!(m.shims[0].source.contains("wasm.__wbg_function_table.get(7)"));
    assert!(m.shims[0].source.contains("wasm.__wbg_function_table.get(8)"));
    assert!(m.shims[0].source.contains("return addHeapObject(real);"));
    assert!(m.add_heap_object_exposed);
    assert!(m.function_table_needed);
}

#[test]
fn rerunning_rewrite_is_noop() {
    let mut m = single_site_module(&fn_words());
    assert!(rewrite(&mut m).is_ok());
    let after_first = m.clone();
    assert!(rewrite(&mut m).is_ok());
    assert_eq!(m, after_first);
}

#[test]
fn s3_fnmut_shim_restores_and_destroys() {
    let words = vec![TAG_CLOSURE, 7, 8, TAG_FN_MUT, TAG_FUNCTION, 7, 1, TAG_I32, TAG_UNIT];
    let mut m = single_site_module(&words);
    assert!(rewrite(&mut m).is_ok());
    let src = &m.shims[0].source;
    assert!(src.contains("this.a = 0;"));
    assert!(src.contains("this.a = a;"));
    assert!(src.contains("if (this.cnt-- == 1) d(a, b);"));
    assert!(src.contains("f(a, b, arg0);"));
}

#[test]
fn s4_fnonce_shim_never_restores_nor_destroys() {
    let words = vec![TAG_CLOSURE, 7, 8, TAG_FN_ONCE, TAG_FUNCTION, 7, 1, TAG_I32, TAG_I32];
    let mut m = single_site_module(&words);
    assert!(rewrite(&mut m).is_ok());
    let src = &m.shims[0].source;
    assert!(src.contains("this.a = 0;"));
    assert!(!src.contains("this.a = a;"));
    assert!(!src.contains("d(a, b);"));
}

#[test]
fn fn_shim_never_clears_environment() {
    let mut m = single_site_module(&fn_words());
    assert!(rewrite(&mut m).is_ok());
    let src = &m.shims[0].source;
    assert!(!src.contains("this.a = 0;"));
    assert!(src.contains("if (this.cnt-- == 1) d(a, b);"));
}

#[test]
fn s5_two_closures_in_two_functions() {
    // Functions 2 and 3 each hold one describe call; their descriptor
    // subprograms are functions 4 and 5, reached through table slots 5 and 6.
    let words_a = fn_words();
    let words_b = vec![TAG_CLOSURE, 7, 8, TAG_FN_MUT, TAG_FUNCTION, 7, 1, TAG_I32, TAG_UNIT];
    let mut table = vec![None; 9];
    table[5] = Some(4);
    table[6] = Some(5);
    table[7] = Some(6);
    table[8] = Some(7);
    let mut m = Module {
        funcs: vec![
            import("__wbindgen_placeholder__", "__wbindgen_describe_closure", 0),
            import("__wbindgen_placeholder__", "__wbindgen_describe", 1),
            FuncDecl::Local(enclosing_func(0, 5)),
            FuncDecl::Local(enclosing_func(0, 6)),
            FuncDecl::Local(descriptor_func(1, &words_a)),
            FuncDecl::Local(descriptor_func(1, &words_b)),
            FuncDecl::Local(dummy_local()),
            FuncDecl::Local(dummy_local()),
        ],
        table,
        shims: Vec::new(),
        describe_closure: Some(0),
        describe: Some(1),
        add_heap_object_exposed: false,
        function_table_needed: false,
    };
    assert!(m.wf_check());
    assert!(rewrite(&mut m).is_ok());

    // Two distinct names, two distinct imports.
    assert_eq!(m.shims.len(), 2);
    assert_eq!(m.shims[0].name, "__wbindgen_closure_wrapper2");
    assert_eq!(m.shims[1].name, "__wbindgen_closure_wrapper3");
    assert_eq!(m.funcs.len(), 10);

    // Both call sites retargeted independently.
    match &m.funcs[2] {
        FuncDecl::Local(f) => assert_eq!(f.body[3], Expr::Call(8, vec![0, 1, 2])),
        FuncDecl::Imported(_) => panic!("expected a local function"),
    }
    match &m.funcs[3] {
        FuncDecl::Local(f) => assert_eq!(f.body[3], Expr::Call(9, vec![0, 1, 2])),
        FuncDecl::Imported(_) => panic!("expected a local function"),
    }

    // The union of the visited slots is cleared; the others stay.
    assert_eq!(m.table[5], None);
    assert_eq!(m.table[6], None);
    assert_eq!(m.table[7], Some(6));
    assert_eq!(m.table[8], Some(7));
}

#[test]
fn s6_malformed_leading_tag_fails_without_mutation() {
    let words = vec![TAG_FUNCTION, 7, 8, TAG_FN, TAG_FUNCTION, 7, 0, TAG_I32];
    let mut m = single_site_module(&words);
    assert!(m.wf_check());
    let before = m.clone();
    assert_eq!(rewrite(&mut m), Err(RewriteError::DescriptorDecodeFailure));
    assert_eq!(m, before);
}

#[test]
fn two_describe_calls_in_one_function_are_rejected() {
    let mut m = single_site_module(&fn_words());
    let body = vec![
        Expr::Const(11),
        Expr::Const(22),
        Expr::Const(5),
        Expr::Call(0, vec![0, 1, 2]),
        Expr::Call(0, vec![0, 1, 2]),
        Expr::Block(vec![3, 4]),
    ];
    m.funcs[2] = FuncDecl::Local(Func { ty: 3, n_locals: 2, root: 5, body });
    assert!(m.wf_check());
    let before = m.clone();
    assert_eq!(rewrite(&mut m), Err(RewriteError::MultipleDescribeCalls { func: 2 }));
    assert_eq!(m, before);
}

#[test]
fn empty_descriptor_slot_fails_interpretation() {
    let mut m = single_site_module(&fn_words());
    m.table[5] = None;
    assert!(m.wf_check());
    let before = m.clone();
    assert_eq!(rewrite(&mut m), Err(RewriteError::InterpretationFailure { func: 2 }));
    assert_eq!(m, before);
}

#[test]
fn call_to_unknown_import_fails_interpretation() {
    let mut m = single_site_module(&fn_words());
    // The descriptor subprogram calls an import that is neither placeholder.
    let body = vec![Expr::Const(1), Expr::Call(6, vec![0])];
    m.funcs[3] = FuncDecl::Local(Func { ty: 2, n_locals: 0, root: 1, body });
    m.funcs.push(import("env", "mystery", 9));
    assert!(m.wf_check());
    let before = m.clone();
    assert_eq!(rewrite(&mut m), Err(RewriteError::InterpretationFailure { func: 2 }));
    assert_eq!(m, before);
}

#[test]
fn table_index_through_locals_is_resolved() {
    // The enclosing function routes the table index through a local, which
    // the evaluator must follow.
    let mut m = single_site_module(&fn_words());
    let body = vec![
        Expr::Const(5),
        Expr::LocalSet(0, 0),
        Expr::LocalGet(0),
        Expr::Const(11),
        Expr::Const(22),
        Expr::Call(0, vec![3, 4, 2]),
        Expr::Block(vec![1, 5]),
    ];
    m.funcs[2] = FuncDecl::Local(Func { ty: 3, n_locals: 2, root: 6, body });
    assert!(m.wf_check());
    assert!(rewrite(&mut m).is_ok());
    assert_eq!(m.table[5], None);
    match &m.funcs[2] {
        FuncDecl::Local(f) => assert_eq!(f.body[5], Expr::Call(6, vec![3, 4, 2])),
        FuncDecl::Imported(_) => panic!("expected a local function"),
    }
}

#[test]
fn descriptor_through_helper_function_is_followed() {
    // The descriptor subprogram delegates its emission to a second local
    // function; the evaluator follows the call in a fresh frame.
    let mut m = single_site_module(&fn_words());
    let helper_id = m.funcs.len();
    m.funcs.push(FuncDecl::Local(descriptor_func(1, &fn_words())));
    let body = vec![Expr::Call(helper_id, vec![])];
    m.funcs[3] = FuncDecl::Local(Func { ty: 2, n_locals: 0, root: 0, body });
    assert!(m.wf_check());
    assert!(rewrite(&mut m).is_ok());
    assert_eq!(m.shims.len(), 1);
    assert_eq!(m.table[5], None);
}

#[test]
fn existing_shims_are_kept_and_new_ones_appended() {
    let mut m = single_site_module(&fn_words());
    m.shims.push(closure_rewriter::Shim {
        name: "earlier_export".to_string(),
        source: "function() {}".to_string(),
    });
    assert!(rewrite(&mut m).is_ok());
    assert_eq!(m.shims.len(), 2);
    assert_eq!(m.shims[0].name, "earlier_export");
    assert_eq!(m.shims[0].source, "function() {}");
    assert_eq!(m.shims[1].name, "__wbindgen_closure_wrapper2");
}

#[test]
fn wf_check_accepts_and_rejects() {
    let m = single_site_module(&fn_words());
    assert!(m.wf_check());

    // A child index at or above its parent breaks the arena ordering.
    let mut bad = single_site_module(&fn_words());
    bad.funcs[4] = FuncDecl::Local(Func {
        ty: 4,
        n_locals: 0,
        root: 0,
        body: vec![Expr::Block(vec![0])],
    });
    assert!(!bad.wf_check());

    // A table slot naming a function that does not exist.
    let mut bad2 = single_site_module(&fn_words());
    bad2.table[1] = Some(99);
    assert!(!bad2.wf_check());

    // A placeholder identifier naming a local function.
    let mut bad3 = single_site_module(&fn_words());
    bad3.describe_closure = Some(2);
    assert!(!bad3.wf_check());
}
