//! Unit tests for descriptor decoding and the generated shim text.

use closure_rewriter::{
    decode, shim_name, shim_source, usize_to_dec, ClosureDescriptor, Flavor, FuncSignature,
    RewriteError, SemType, TAG_BOOLEAN, TAG_CHAR, TAG_CLOSURE, TAG_F64, TAG_FN, TAG_FN_MUT,
    TAG_FN_ONCE, TAG_FUNCTION, TAG_I32, TAG_U32, TAG_UNIT,
};

#[test]
fn decimal_rendering() {
    assert_eq!(usize_to_dec(0), "0");
    assert_eq!(usize_to_dec(7), "7");
    assert_eq!(usize_to_dec(10), "10");
    assert_eq!(usize_to_dec(42), "42");
    assert_eq!(usize_to_dec(1234567890), "1234567890");
}

#[test]
fn shim_names_follow_the_function_index() {
    assert_eq!(shim_name(0), "__wbindgen_closure_wrapper0");
    assert_eq!(shim_name(17), "__wbindgen_closure_wrapper17");
}

#[test]
fn decode_zero_arg_fn() {
    let words = vec![TAG_CLOSURE, 7, 8, TAG_FN, TAG_FUNCTION, 7, 0, TAG_I32];
    let d = decode(&words).unwrap();
    assert_eq!(d.flavor, Flavor::Fn);
    assert_eq!(d.shim_idx, 7);
    assert_eq!(d.dtor_idx, 8);
    assert_eq!(d.signature.invoke_idx, 7);
    assert_eq!(d.signature.args, Vec::<SemType>::new());
    assert_eq!(d.signature.ret, SemType::I32);
}

#[test]
fn decode_multi_arg_fnmut() {
    let words = vec![
        TAG_CLOSURE,
        3,
        4,
        TAG_FN_MUT,
        TAG_FUNCTION,
        3,
        3,
        TAG_U32,
        TAG_BOOLEAN,
        TAG_F64,
        TAG_UNIT,
    ];
    let d = decode(&words).unwrap();
    assert_eq!(d.flavor, Flavor::FnMut);
    assert_eq!(d.signature.args, vec![SemType::U32, SemType::Boolean, SemType::F64]);
    assert_eq!(d.signature.ret, SemType::Unit);
}

#[test]
fn decode_rejects_unknown_leading_tag() {
    let words = vec![TAG_FUNCTION, 7, 8, TAG_FN, TAG_FUNCTION, 7, 0, TAG_I32];
    assert_eq!(decode(&words), Err(RewriteError::DescriptorDecodeFailure));
}

#[test]
fn decode_rejects_unknown_flavor() {
    let words = vec![TAG_CLOSURE, 7, 8, 999, TAG_FUNCTION, 7, 0, TAG_I32];
    assert_eq!(decode(&words), Err(RewriteError::DescriptorDecodeFailure));
}

#[test]
fn decode_rejects_truncated_stream() {
    let words = vec![TAG_CLOSURE, 7, 8, TAG_FN, TAG_FUNCTION, 7, 1, TAG_I32];
    // One argument is announced, so the stream is one word short.
    assert_eq!(decode(&words), Err(RewriteError::DescriptorDecodeFailure));
}

#[test]
fn decode_rejects_trailing_words() {
    let words = vec![TAG_CLOSURE, 7, 8, TAG_FN, TAG_FUNCTION, 7, 0, TAG_I32, 0];
    assert_eq!(decode(&words), Err(RewriteError::DescriptorDecodeFailure));
}

#[test]
fn decode_rejects_unit_argument() {
    let words = vec![TAG_CLOSURE, 7, 8, TAG_FN, TAG_FUNCTION, 7, 1, TAG_UNIT, TAG_I32];
    assert_eq!(decode(&words), Err(RewriteError::DescriptorDecodeFailure));
}

#[test]
fn decode_rejects_unknown_argument_tag() {
    let words = vec![TAG_CLOSURE, 7, 8, TAG_FN, TAG_FUNCTION, 7, 1, 999, TAG_I32];
    assert_eq!(decode(&words), Err(RewriteError::DescriptorDecodeFailure));
}

#[test]
fn decode_rejects_unknown_return_tag() {
    let words = vec![TAG_CLOSURE, 7, 8, TAG_FN, TAG_FUNCTION, 7, 0, TAG_FN_ONCE];
    assert_eq!(decode(&words), Err(RewriteError::DescriptorDecodeFailure));
}

#[test]
fn shim_text_for_zero_arg_fn_exactly() {
    let d = ClosureDescriptor {
        flavor: Flavor::Fn,
        shim_idx: 7,
        dtor_idx: 8,
        signature: FuncSignature { invoke_idx: 7, args: Vec::new(), ret: SemType::I32 },
    };
    let expected = "function(a, b, _ignored) {\n    const f = wasm.__wbg_function_table.get(7);\n    const d = wasm.__wbg_function_table.get(8);\n    const cb = function() {\n    this.cnt++;\n    const a = this.a;\n    try {\n        return f(a, b);\n    } finally {\n        if (this.cnt-- == 1) d(a, b);\n    }\n};\n    cb.a = a;\n    cb.cnt = 1;\n    let real = cb.bind(cb);\n    real.original = cb;\n    return addHeapObject(real);\n}";
    assert_eq!(shim_source(&d), expected);
}

#[test]
fn shim_text_marshals_booleans_and_chars() {
    let d = ClosureDescriptor {
        flavor: Flavor::FnMut,
        shim_idx: 1,
        dtor_idx: 2,
        signature: FuncSignature {
            invoke_idx: 1,
            args: vec![SemType::Boolean, SemType::Char],
            ret: SemType::Boolean,
        },
    };
    let src = shim_source(&d);
    assert!(src.contains("function(arg0, arg1)"));
    assert!(src.contains("return f(a, b, (arg0 ? 1 : 0), arg1.codePointAt(0)) !== 0;"));
}

#[test]
fn shim_text_marshals_char_return() {
    let d = ClosureDescriptor {
        flavor: Flavor::FnOnce,
        shim_idx: 1,
        dtor_idx: 2,
        signature: FuncSignature { invoke_idx: 1, args: vec![SemType::F64], ret: SemType::Char },
    };
    let src = shim_source(&d);
    assert!(src.contains("return String.fromCodePoint(f(a, b, arg0));"));
}
