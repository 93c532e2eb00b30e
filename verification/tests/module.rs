use wamr_rust_sdk::helper::DEFAULT_ERROR_BUF_SIZE;
use wamr_rust_sdk::module::Module;
use wamr_rust_sdk::RuntimeError;

// (module
//   (func (export "add") (param i32 i32) (result i32)
//     (local.get 0)
//     (local.get 1)
//     (i32.add)
//   )
// )
fn add_module_binary() -> Vec<u8> {
    vec![
        0x00, 0x61, 0x73, 0x6d, 0x01, 0x00, 0x00, 0x00, 0x01, 0x07, 0x01, 0x60, 0x02, 0x7f, 0x7f,
        0x01, 0x7f, 0x03, 0x02, 0x01, 0x00, 0x07, 0x07, 0x01, 0x03, 0x61, 0x64, 0x64, 0x00, 0x00,
        0x0a, 0x09, 0x01, 0x07, 0x00, 0x20, 0x00, 0x20, 0x01, 0x6a, 0x0b,
    ]
}

#[test]
fn test_from_buf_keeps_binary() {
    let binary = add_module_binary();
    let error_buf = [0i8; DEFAULT_ERROR_BUF_SIZE];
    let module = Module::from_buf(&binary, true, &error_buf);
    assert!(module.is_ok());
    let module = module.unwrap();
    assert_eq!(module.content, binary);
    assert!(module.wasi_arg.pre_open.real_paths.is_empty());
    assert!(module.wasi_arg.env.is_empty());
}

#[test]
fn test_from_buf_reports_error_text() {
    let binary = vec![0u8, 1, 2];
    let mut error_buf = [0i8; DEFAULT_ERROR_BUF_SIZE];
    for (i, b) in b"unexpected end".iter().enumerate() {
        error_buf[i] = *b as i8;
    }
    let module = Module::from_buf(&binary, false, &error_buf);
    match module {
        Err(RuntimeError::CompilationError(text)) => {
            assert_eq!(text, "unexpected end");
        }
        _ => panic!("an engine refusal must surface as CompilationError"),
    }
}

#[test]
fn test_from_buf_error_with_empty_buffer() {
    let binary = vec![0u8];
    let error_buf = [0i8; DEFAULT_ERROR_BUF_SIZE];
    let module = Module::from_buf(&binary, false, &error_buf);
    match module {
        Err(RuntimeError::CompilationError(text)) => {
            assert_eq!(text, "load module failed");
            assert!(!text.is_empty());
        }
        _ => panic!("an engine refusal must surface as CompilationError"),
    }
}

#[test]
fn test_wasi_args_are_kept_null_terminated() {
    let binary = add_module_binary();
    let error_buf = [0i8; DEFAULT_ERROR_BUF_SIZE];
    let mut module = Module::from_buf(&binary, true, &error_buf).unwrap();

    module.set_wasi_arg_pre_open_path(
        vec![String::from(".")],
        vec![String::from("/sandbox")],
    );
    module.set_wasi_arg_env_vars(vec![String::from("KEY=value")]);
    module.set_wasi_arg_allowed_address(vec![String::from("127.0.0.1/32")]);
    module.set_wasi_arg_allowed_dns(vec![String::from("localhost")]);

    assert_eq!(module.wasi_arg.pre_open.real_paths.len(), 1);
    assert_eq!(
        module.wasi_arg.pre_open.real_paths[0].bytes_with_nul().as_slice(),
        b".\0"
    );
    assert_eq!(
        module.wasi_arg.pre_open.mapped_paths[0].bytes_with_nul().as_slice(),
        b"/sandbox\0"
    );
    assert_eq!(
        module.wasi_arg.env[0].bytes_with_nul().as_slice(),
        b"KEY=value\0"
    );
    assert_eq!(
        module.wasi_arg.allowed_address[0].bytes_with_nul().as_slice(),
        b"127.0.0.1/32\0"
    );
    assert_eq!(
        module.wasi_arg.allowed_dns[0].bytes_with_nul().as_slice(),
        b"localhost\0"
    );
    assert_eq!(module.content, binary);
}
