use wamr_rust_sdk::helper::CStrBuf;
use wamr_rust_sdk::host_function::pack_host_function;
use wamr_rust_sdk::host_function::HostFunctionList;

#[test]
fn test_host_function_list_keeps_names() {
    let mut list = HostFunctionList::new("host");
    assert_eq!(list.get_module_name().bytes_with_nul().as_slice(), b"host\0");
    assert_eq!(list.get_native_symbols().len(), 0);

    list.add_host_function("extra", 0x1000);
    list.add_host_function("log", 0x2000);

    let symbols = list.get_native_symbols();
    assert_eq!(symbols.len(), 2);
    assert_eq!(symbols[0].symbol.bytes_with_nul().as_slice(), b"extra\0");
    assert_eq!(symbols[0].func_ptr, 0x1000);
    assert_eq!(symbols[1].symbol.bytes_with_nul().as_slice(), b"log\0");
    assert_eq!(symbols[1].func_ptr, 0x2000);

    assert_eq!(list.host_functions.len(), 2);
    assert_eq!(
        list.host_functions[0].function_name.bytes_with_nul().as_slice(),
        b"extra\0"
    );
    assert_eq!(list.host_functions[1].function_ptr, 0x2000);
}

#[test]
fn test_pack_host_function() {
    let symbol = pack_host_function(CStrBuf::new("extra"), 7);
    assert_eq!(symbol.symbol.bytes_with_nul().as_slice(), b"extra\0");
    assert_eq!(symbol.func_ptr, 7);
}
