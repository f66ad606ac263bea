use wasm_instance::{Error, InstanceWrapper};
use wasmtime::{Config, Engine, Instance, Module, Store};

/// An engine that reserves no more address space than a memory uses.
fn small_engine() -> Engine {
    let mut config = Config::new();
    config.memory_reservation(0);
    config.memory_guard_size(0);
    config.memory_reservation_for_growth(0);
    Engine::new(&config).expect("engine configures")
}

fn wrap(wat: &str) -> Result<InstanceWrapper, Error> {
    let engine = small_engine();
    let mut store = Store::new(&engine, ());
    let module = Module::new(&engine, wat).expect("module compiles");
    let instance = Instance::new(&mut store, &module, &[]).expect("module instantiates");
    InstanceWrapper::new(store, instance)
}

const FULL: &str = r#"
(module
  (memory (export "memory") 1 2)
  (table (export "__indirect_function_table") 1 funcref)
  (global (export "__heap_base") i32 (i32.const 1024))
  (global (export "wide") i64 (i64.const 7))
  (func (export "main") (param i32 i32) (result i64)
    (i64.or (i64.shl (i64.extend_i32_u (local.get 1)) (i64.const 32))
            (i64.extend_i32_u (local.get 0))))
  (func (export "trap") (param i32 i32) (result i64) unreachable)
  (func (export "one_param") (param i32) (result i64) (i64.const 0))
  (func (export "no_result") (param i32 i32))
)"#;

#[test]
fn memory_size_is_one_page() {
    let w = wrap(FULL).unwrap();
    assert_eq!(w.memory_size(), 65536);
    assert_eq!(w.page_size(), 65536);
    assert_eq!(w.memory_pages(), 1);
    assert_eq!(w.memory().len(), 65536);
}

#[test]
fn access_past_the_end_is_out_of_bounds() {
    let mut w = wrap(FULL).unwrap();
    let mut buf = [7u8; 10];
    assert_eq!(w.read_memory_into(65530, &mut buf), Err(Error::OutOfBounds));
    assert_eq!(buf, [7u8; 10]);
    assert_eq!(w.write_memory_from(65530, &[1u8; 10]), Err(Error::OutOfBounds));
    assert!(w.memory()[65530..].iter().all(|b| *b == 0));
}

#[test]
fn access_up_to_the_end_succeeds() {
    let mut w = wrap(FULL).unwrap();
    let mut buf = [7u8; 6];
    assert_eq!(w.read_memory_into(65530, &mut buf), Ok(()));
    assert_eq!(buf, [0u8; 6]);
    assert_eq!(w.write_memory_from(65530, &[1, 2, 3, 4, 5, 6]), Ok(()));
    assert_eq!(&w.memory()[65530..], &[1, 2, 3, 4, 5, 6]);
}

#[test]
fn access_whose_end_overflows_is_out_of_bounds() {
    let mut w = wrap(FULL).unwrap();
    let mut buf = [0u8; 4];
    assert_eq!(w.read_memory_into(u32::MAX, &mut buf), Err(Error::OutOfBounds));
    assert_eq!(w.write_memory_from(u32::MAX, &[1]), Err(Error::OutOfBounds));
}

#[test]
fn empty_access_at_the_end_succeeds() {
    let mut w = wrap(FULL).unwrap();
    let mut buf: [u8; 0] = [];
    assert_eq!(w.read_memory_into(65536, &mut buf), Ok(()));
    assert_eq!(w.write_memory_from(65536, &[]), Ok(()));
    assert_eq!(w.read_memory_into(65537, &mut buf), Err(Error::OutOfBounds));
}

#[test]
fn write_then_read_round_trips() {
    let mut w = wrap(FULL).unwrap();
    let data = [9u8, 8, 7, 6, 5, 4, 3, 2, 1];
    assert_eq!(w.write_memory_from(100, &data), Ok(()));
    let mut buf = [0u8; 9];
    assert_eq!(w.read_memory_into(100, &mut buf), Ok(()));
    assert_eq!(buf, data);
    let mut around = [0u8; 2];
    assert_eq!(w.read_memory_into(99, &mut around), Ok(()));
    assert_eq!(around, [0, 9]);
}

#[test]
fn memory_mut_writes_through() {
    let mut w = wrap(FULL).unwrap();
    w.memory_mut()[5] = 42;
    let mut buf = [0u8; 1];
    assert_eq!(w.read_memory_into(5, &mut buf), Ok(()));
    assert_eq!(buf, [42]);
}

#[test]
fn grow_adds_pages_until_the_maximum() {
    let mut w = wrap(FULL).unwrap();
    assert_eq!(w.write_memory_from(0, &[1, 2, 3]), Ok(()));
    assert_eq!(w.grow_memory(1), Ok(()));
    assert_eq!(w.memory_size(), 2 * 65536);
    assert_eq!(w.memory_pages(), 2);
    assert_eq!(&w.memory()[..3], &[1, 2, 3]);
    assert_eq!(w.write_memory_from(65536 + 10, &[5]), Ok(()));
    assert_eq!(w.grow_memory(1), Err(Error::GrowthFailed));
    assert_eq!(w.memory_size(), 2 * 65536);
    assert_eq!(w.grow_memory(0), Ok(()));
    assert_eq!(w.memory_size(), 2 * 65536);
}

#[test]
fn entrypoint_with_the_convention_resolves() {
    let mut w = wrap(FULL).unwrap();
    assert!(w.resolve_entrypoint("main").is_ok());
}

#[test]
fn entrypoint_with_one_param_has_wrong_signature() {
    let mut w = wrap(FULL).unwrap();
    assert_eq!(w.resolve_entrypoint("one_param").err(), Some(Error::EntrypointWrongSignature));
    assert_eq!(w.resolve_entrypoint("no_result").err(), Some(Error::EntrypointWrongSignature));
}

#[test]
fn entrypoint_that_is_a_global_is_not_a_function() {
    let mut w = wrap(FULL).unwrap();
    assert_eq!(w.resolve_entrypoint("__heap_base").err(), Some(Error::EntrypointNotAFunction));
    assert_eq!(w.resolve_entrypoint("memory").err(), Some(Error::EntrypointNotAFunction));
}

#[test]
fn missing_entrypoint_is_not_found() {
    let mut w = wrap(FULL).unwrap();
    assert_eq!(w.resolve_entrypoint("absent").err(), Some(Error::EntrypointNotFound));
}

#[test]
fn heap_base_is_read_exactly() {
    let mut w = wrap(FULL).unwrap();
    assert_eq!(w.extract_heap_base(), Ok(1024));
}

#[test]
fn negative_heap_base_keeps_its_bits() {
    let mut w = wrap(r#"(module (memory (export "memory") 1)
        (global (export "__heap_base") i32 (i32.const -1)))"#)
    .unwrap();
    assert_eq!(w.extract_heap_base(), Ok(u32::MAX));
}

#[test]
fn heap_base_errors_are_distinct() {
    let mut missing = wrap(r#"(module (memory (export "memory") 1))"#).unwrap();
    assert_eq!(missing.extract_heap_base(), Err(Error::HeapBaseNotFound));
    let mut func = wrap(r#"(module (memory (export "memory") 1)
        (func (export "__heap_base")))"#)
    .unwrap();
    assert_eq!(func.extract_heap_base(), Err(Error::HeapBaseNotAGlobal));
    let mut wide = wrap(r#"(module (memory (export "memory") 1)
        (global (export "__heap_base") i64 (i64.const 1024)))"#)
    .unwrap();
    assert_eq!(wide.extract_heap_base(), Err(Error::HeapBaseNotI32));
}

#[test]
fn table_is_found_when_exported() {
    let w = wrap(FULL).unwrap();
    assert!(w.table().is_some());
    let bare = wrap(r#"(module (memory (export "memory") 1))"#).unwrap();
    assert!(bare.table().is_none());
}

#[test]
fn missing_memory_is_a_configuration_error() {
    assert_eq!(wrap(r#"(module)"#).err(), Some(Error::MemoryNotExported));
    assert_eq!(
        wrap(r#"(module (func (export "memory")))"#).err(),
        Some(Error::MemoryWrongKind)
    );
}

#[test]
fn module_without_memory_pages_has_zero_size() {
    let mut w = wrap(r#"(module (memory (export "memory") 0))"#).unwrap();
    assert_eq!(w.memory_size(), 0);
    let mut buf = [0u8; 1];
    assert_eq!(w.read_memory_into(0, &mut buf), Err(Error::OutOfBounds));
    assert_eq!(w.grow_memory(1), Ok(()));
    assert_eq!(w.read_memory_into(0, &mut buf), Ok(()));
}

#[test]
fn entrypoint_runs_and_returns_its_result() {
    let mut w = wrap(FULL).unwrap();
    let main = w.resolve_entrypoint("main").unwrap();
    assert_eq!(w.call_entrypoint(&main, 16, 3), Ok((3u64 << 32) | 16));
    assert_eq!(w.call_entrypoint(&main, u32::MAX, 0), Ok(u32::MAX as u64));
}

#[test]
fn trapping_entrypoint_is_a_failed_call() {
    let mut w = wrap(FULL).unwrap();
    let trap = w.resolve_entrypoint("trap").unwrap();
    assert_eq!(w.call_entrypoint(&trap, 0, 0), Err(Error::CallFailed));
    assert_eq!(w.memory_size(), 65536);
}

#[test]
fn calling_a_function_of_another_signature_is_refused() {
    let engine = small_engine();
    let mut store = Store::new(&engine, ());
    let module = Module::new(&engine, FULL).unwrap();
    let instance = Instance::new(&mut store, &module, &[]).unwrap();
    let one_param = instance.get_func(&mut store, "one_param").unwrap();
    let mut w = InstanceWrapper::new(store, instance).unwrap();
    assert_eq!(w.call_entrypoint(&one_param, 0, 0), Err(Error::EntrypointWrongSignature));
}

#[test]
fn instantiate_wraps_a_module_without_imports() {
    let engine = small_engine();
    let module = Module::new(&engine, FULL).unwrap();
    let mut w = InstanceWrapper::instantiate(Store::new(&engine, ()), &module).unwrap();
    assert_eq!(w.memory_size(), 65536);
    assert_eq!(w.max_pages(), Some(2));
    assert_eq!(w.extract_heap_base(), Ok(1024));
}

#[test]
fn instantiate_reports_its_failures() {
    let engine = small_engine();
    let needs_import = Module::new(&engine, r#"(module (import "env" "f" (func)))"#).unwrap();
    assert_eq!(
        InstanceWrapper::instantiate(Store::new(&engine, ()), &needs_import).err(),
        Some(Error::InstantiationFailed)
    );
    let no_memory = Module::new(&engine, r#"(module)"#).unwrap();
    assert_eq!(
        InstanceWrapper::instantiate(Store::new(&engine, ()), &no_memory).err(),
        Some(Error::MemoryNotExported)
    );
}

#[test]
fn memory_without_maximum_declares_none() {
    let w = wrap(r#"(module (memory (export "memory") 1))"#).unwrap();
    assert_eq!(w.max_pages(), None);
}

#[test]
fn grown_pages_are_zero() {
    let mut w = wrap(FULL).unwrap();
    assert_eq!(w.grow_memory(1), Ok(()));
    assert!(w.memory()[65536..].iter().all(|b| *b == 0));
}

#[test]
fn heap_base_of_reference_type_is_not_i32() {
    let mut w = wrap(r#"(module (memory (export "memory") 1)
        (global (export "__heap_base") funcref (ref.null func)))"#)
    .unwrap();
    assert_eq!(w.extract_heap_base(), Err(Error::HeapBaseNotI32));
}
