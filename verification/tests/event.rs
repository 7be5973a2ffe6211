//! An event-listener closure site, end to end.
//!
//! A host event listener is the typical consumer of this rewriter: the
//! front-end wraps a re-callable closure taking one value — the event's
//! handle — returning nothing, and the rewriter must turn its describe call
//! into a factory import whose shim guards against reentrant dispatch.

use closure_rewriter::{
    rewrite, Expr, Func, FuncDecl, Import, Module, TAG_CLOSURE, TAG_FN_MUT, TAG_FUNCTION, TAG_I32,
    TAG_UNIT,
};

fn import(module_name: &str, entry_name: &str, ty: usize) -> FuncDecl {
    FuncDecl::Imported(Import {
        module_name: module_name.to_string(),
        entry_name: entry_name.to_string(),
        ty,
    })
}

fn descriptor_func(describe_id: usize, words: &[u32]) -> Func {
    let mut body = Vec::new();
    let mut calls = Vec::new();
    for w in words {
        body.push(Expr::Const(*w));
        let const_id = body.len() - 1;
        body.push(Expr::Call(describe_id, vec![const_id]));
        calls.push(body.len() - 1);
    }
    body.push(Expr::Block(calls));
    let root = body.len() - 1;
    Func { ty: 2, n_locals: 0, root, body }
}

#[test]
fn event() {
    // An `FnMut(Event)` listener: one argument, no return value.
    let words =
        vec![TAG_CLOSURE, 7, 8, TAG_FN_MUT, TAG_FUNCTION, 7, 1, TAG_I32, TAG_UNIT];
    let mut table = vec![None; 9];
    table[5] = Some(3);
    table[7] = Some(4);
    table[8] = Some(5);
    let listener_site = Func {
        ty: 3,
        n_locals: 2,
        root: 3,
        body: vec![
            Expr::Const(11),
            Expr::Const(22),
            Expr::Const(5),
            Expr::Call(0, vec![0, 1, 2]),
        ],
    };
    let dummy = Func { ty: 4, n_locals: 0, root: 0, body: vec![Expr::Const(0)] };
    let mut m = Module {
        funcs: vec![
            import("__wbindgen_placeholder__", "__wbindgen_describe_closure", 0),
            import("__wbindgen_placeholder__", "__wbindgen_describe", 1),
            FuncDecl::Local(listener_site),
            FuncDecl::Local(descriptor_func(1, &words)),
            FuncDecl::Local(dummy.clone()),
            FuncDecl::Local(dummy),
        ],
        table,
        shims: Vec::new(),
        describe_closure: Some(0),
        describe: Some(1),
        add_heap_object_exposed: false,
        function_table_needed: false,
    };
    assert!(m.wf_check());
    assert!(rewrite(&mut m).is_ok());

    // The listener's call site now reaches the factory import, whose shim
    // takes the event handle and refuses reentrant dispatch.
    match &m.funcs[2] {
        FuncDecl::Local(f) => assert_eq!(f.body[3], Expr::Call(6, vec![0, 1, 2])),
        FuncDecl::Imported(_) => panic!("expected a local function"),
    }
    let src = &m.shims[0].source;
    assert!(src.contains("function(arg0)"));
    assert!(src.contains("this.a = 0;"));
    assert!(src.contains("this.a = a;"));
    assert!(src.contains("f(a, b, arg0);"));
}
