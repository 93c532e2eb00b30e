use wamr_rust_sdk::helper::DEFAULT_ERROR_BUF_SIZE;
use wamr_rust_sdk::instance::Instance;
use wamr_rust_sdk::module::Module;
use wamr_rust_sdk::RuntimeError;

fn loaded_module() -> Module {
    let binary = vec![0x00u8, 0x61, 0x73, 0x6d, 0x01, 0x00, 0x00, 0x00];
    let error_buf = [0i8; DEFAULT_ERROR_BUF_SIZE];
    Module::from_buf(&binary, true, &error_buf).unwrap()
}

#[test]
fn test_instance_carries_its_sizing() {
    let module = loaded_module();
    let error_buf = [0i8; DEFAULT_ERROR_BUF_SIZE];

    let instance = Instance::new(&module, 1024, true, true, &error_buf).unwrap();
    assert_eq!(instance.stack_size, 1024);
    assert_eq!(instance.heap_size, 0);

    let instance = Instance::new_with_args(&module, 1024, 2048, true, true, &error_buf).unwrap();
    assert_eq!(instance.stack_size, 1024);
    assert_eq!(instance.heap_size, 2048);
}

#[test]
fn test_instances_with_different_stack_sizes_are_independent() {
    let module = loaded_module();
    let error_buf = [0i8; DEFAULT_ERROR_BUF_SIZE];

    let small = Instance::new(&module, 1024, true, true, &error_buf).unwrap();
    let large = Instance::new(&module, 1024 * 64, true, true, &error_buf).unwrap();
    assert_eq!(small.stack_size, 1024);
    assert_eq!(large.stack_size, 1024 * 64);
    assert_eq!(small.heap_size, large.heap_size);
}

#[test]
fn test_thread_env_failure() {
    let module = loaded_module();
    let error_buf = [0i8; DEFAULT_ERROR_BUF_SIZE];
    let r = Instance::new(&module, 1024, false, false, &error_buf);
    match r {
        Err(RuntimeError::InstantiationFailure(text)) => {
            assert_eq!(text, "thread signal env initialized failed");
        }
        _ => panic!("a thread environment failure must surface as InstantiationFailure"),
    }
}

#[test]
fn test_instantiation_refusal_reports_text() {
    let module = loaded_module();

    let mut error_buf = [0i8; DEFAULT_ERROR_BUF_SIZE];
    for (i, b) in b"out of memory".iter().enumerate() {
        error_buf[i] = *b as i8;
    }
    let r = Instance::new_with_args(&module, 1024, 0, true, false, &error_buf);
    match r {
        Err(RuntimeError::InstantiationFailure(text)) => assert_eq!(text, "out of memory"),
        _ => panic!("an engine refusal must surface as InstantiationFailure"),
    }

    let empty_buf = [0i8; DEFAULT_ERROR_BUF_SIZE];
    let r = Instance::new(&module, 1024, true, false, &empty_buf);
    match r {
        Err(RuntimeError::InstantiationFailure(text)) => {
            assert_eq!(text, "instantiation failed");
        }
        _ => panic!("an engine refusal must surface as InstantiationFailure"),
    }
}
