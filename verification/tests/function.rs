use wamr_rust_sdk::function::encode_params;
use wamr_rust_sdk::function::Function;
use wamr_rust_sdk::function::WASM_VALKIND_F32;
use wamr_rust_sdk::function::WASM_VALKIND_F64;
use wamr_rust_sdk::function::WASM_VALKIND_I32;
use wamr_rust_sdk::function::WASM_VALKIND_I64;
use wamr_rust_sdk::value::WasmValue;
use wamr_rust_sdk::RuntimeError;

#[test]
fn test_find_export_func_not_found() {
    let r = Function::find_export_func(false, 0, 0);
    assert!(matches!(r, Err(RuntimeError::FunctionNotFound)));
}

#[test]
fn test_find_export_func_keeps_shape() {
    let f = Function::find_export_func(true, 1, WASM_VALKIND_I64).unwrap();
    assert_eq!(f.result_count, 1);
    assert_eq!(f.result_type, WASM_VALKIND_I64);
}

#[test]
fn test_encode_params_flattens_in_call_order() {
    assert_eq!(
        encode_params(&vec![WasmValue::I32(3), WasmValue::I32(6)]),
        vec![3, 6]
    );
    assert_eq!(
        encode_params(&vec![WasmValue::I32(128), WasmValue::I32(256)]),
        vec![128, 256]
    );
    assert_eq!(
        encode_params(&vec![WasmValue::I64(-1), WasmValue::I32(5)]),
        vec![0xFFFF_FFFF, 0xFFFF_FFFF, 5]
    );
    assert_eq!(encode_params(&Vec::new()), Vec::<u32>::new());
}

#[test]
fn test_parse_result_void() {
    let f = Function { result_count: 0, result_type: WASM_VALKIND_I32 };
    assert_eq!(f.parse_result(Vec::new()).unwrap(), WasmValue::Void);
}

#[test]
fn test_parse_result_each_kind() {
    let f = Function { result_count: 1, result_type: WASM_VALKIND_I32 };
    assert_eq!(f.parse_result(vec![9]).unwrap(), WasmValue::I32(9));

    let f = Function { result_count: 1, result_type: WASM_VALKIND_I64 };
    assert_eq!(
        f.parse_result(vec![0xFFFF_FFFF, 0xFFFF_FFFF]).unwrap(),
        WasmValue::I64(-1)
    );

    let bits32 = 2.5f32.to_bits();
    let f = Function { result_count: 1, result_type: WASM_VALKIND_F32 };
    assert_eq!(f.parse_result(vec![bits32]).unwrap(), WasmValue::F32(bits32));

    let bits64 = (-2.5f64).to_bits();
    let f = Function { result_count: 1, result_type: WASM_VALKIND_F64 };
    assert_eq!(
        f.parse_result(vec![bits64 as u32, (bits64 >> 32) as u32]).unwrap(),
        WasmValue::F64(bits64)
    );
}

#[test]
fn test_parse_result_unknown_kind() {
    // 4 is the engine's tag for a 128-bit vector, which is not decodable here.
    let f = Function { result_count: 1, result_type: 4 };
    assert!(matches!(
        f.parse_result(vec![0, 0, 0, 0]),
        Err(RuntimeError::NotImplemented)
    ));
}

#[test]
fn test_call_outcome_success_decodes_in_place_result() {
    // add(3, 6): the engine overwrites the leading words of the parameter
    // buffer with the result.
    let f = Function { result_count: 1, result_type: WASM_VALKIND_I32 };
    let mut argv = encode_params(&vec![WasmValue::I32(3), WasmValue::I32(6)]);
    argv[0] = 9;
    let r = f.call_outcome(true, argv, &[]);
    assert_eq!(r.unwrap(), WasmValue::I32(9));
}

#[test]
fn test_call_outcome_trap_reports_exception() {
    let f = Function { result_count: 1, result_type: WASM_VALKIND_I32 };
    let argv = encode_params(&vec![WasmValue::I32(1), WasmValue::I32(0)]);
    let r = f.call_outcome(false, argv, b"Exception: integer divide by zero");
    match r {
        Err(RuntimeError::ExecutionError(text)) => {
            assert!(!text.is_empty());
            assert_eq!(text, "Exception: integer divide by zero");
        }
        _ => panic!("a trapped call must surface as ExecutionError"),
    }
}
