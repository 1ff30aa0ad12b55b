use wasmer_postgres::introspect::{ExportedFunctionsTable, InstancesTable};
use wasmer_postgres::invoke::{find_export, InvokeError};
use wasmer_postgres::marshal::{ArgValue, ValType};
use wasmer_postgres::registry::{LoadError, Registry};

/// Exports `add(i32, i32) -> i32`.
fn add_module() -> Vec<u8> {
    vec![
        0x00, 0x61, 0x73, 0x6d, 0x01, 0x00, 0x00, 0x00, // header
        0x01, 0x07, 0x01, 0x60, 0x02, 0x7f, 0x7f, 0x01, 0x7f, // types
        0x03, 0x02, 0x01, 0x00, // functions
        0x07, 0x07, 0x01, 0x03, b'a', b'd', b'd', 0x00, 0x00, // exports
        0x0a, 0x09, 0x01, 0x07, 0x00, 0x20, 0x00, 0x20, 0x01, 0x6a, 0x0b, // code
    ]
}

/// Exports `takes_float(f64) -> i32`, `id64(i64) -> i64` and a global `answer`.
fn mixed_module() -> Vec<u8> {
    let mut b = vec![0x00, 0x61, 0x73, 0x6d, 0x01, 0x00, 0x00, 0x00];
    b.extend_from_slice(&[
        0x01, 0x0b, 0x02, 0x60, 0x01, 0x7c, 0x01, 0x7f, 0x60, 0x01, 0x7e, 0x01, 0x7e,
    ]);
    b.extend_from_slice(&[0x03, 0x03, 0x02, 0x00, 0x01]);
    b.extend_from_slice(&[0x06, 0x06, 0x01, 0x7f, 0x00, 0x41, 0x2a, 0x0b]);
    b.extend_from_slice(&[0x07, 0x1f, 0x03, 0x0b]);
    b.extend_from_slice(b"takes_float");
    b.extend_from_slice(&[0x00, 0x00, 0x04]);
    b.extend_from_slice(b"id64");
    b.extend_from_slice(&[0x00, 0x01, 0x06]);
    b.extend_from_slice(b"answer");
    b.extend_from_slice(&[0x03, 0x00]);
    b.extend_from_slice(&[
        0x0a, 0x0b, 0x02, 0x04, 0x00, 0x41, 0x01, 0x0b, 0x04, 0x00, 0x20, 0x00, 0x0b,
    ]);
    b
}

/// Exports `boom() -> i32`, which traps, and `neg() -> i32`, which returns -1.
fn trap_module() -> Vec<u8> {
    let mut b = vec![0x00, 0x61, 0x73, 0x6d, 0x01, 0x00, 0x00, 0x00];
    b.extend_from_slice(&[0x01, 0x05, 0x01, 0x60, 0x00, 0x01, 0x7f]);
    b.extend_from_slice(&[0x03, 0x03, 0x02, 0x00, 0x00]);
    b.extend_from_slice(&[0x07, 0x0e, 0x02, 0x04]);
    b.extend_from_slice(b"boom");
    b.extend_from_slice(&[0x00, 0x00, 0x03]);
    b.extend_from_slice(b"neg");
    b.extend_from_slice(&[0x00, 0x01]);
    b.extend_from_slice(&[
        0x0a, 0x0a, 0x02, 0x03, 0x00, 0x00, 0x0b, 0x04, 0x00, 0x41, 0x7f, 0x0b,
    ]);
    b
}

fn loaded(bytes: &[u8], path: &str) -> (Registry, String) {
    let mut registry = Registry::new();
    let id = registry.load(bytes, path.to_string()).expect("module loads");
    (registry, id)
}

#[test]
fn add_module_scenario() {
    let (mut registry, id) = loaded(&add_module(), "/tmp/add.wasm");
    assert_eq!(registry.invoke_function(&id, "add", &[3, 4]), Ok(Some(7)));
    assert_eq!(registry.invoke_function(&id, "add", &[3]), Err(InvokeError::ArityMismatch));
    assert_eq!(
        registry.invoke_function("nonexistent", "add", &[3, 4]),
        Err(InvokeError::InstanceNotFound)
    );
    assert_eq!(
        registry.invoke_function(&id, "missing", &[3, 4]),
        Err(InvokeError::FunctionNotFound)
    );
}

#[test]
fn arity_mismatch_on_one_more_argument() {
    let (mut registry, id) = loaded(&add_module(), "add.wasm");
    assert_eq!(registry.invoke_function(&id, "add", &[1, 2, 3]), Err(InvokeError::ArityMismatch));
    assert_eq!(registry.invoke_function_0(&id, "add"), Err(InvokeError::ArityMismatch));
}

#[test]
fn fixed_arity_entry_points() {
    let (mut registry, id) = loaded(&add_module(), "add.wasm");
    assert_eq!(registry.invoke_function_2(&id, "add", 40, 2), Ok(Some(42)));
    assert_eq!(registry.invoke_function_1(&id, "add", 40), Err(InvokeError::ArityMismatch));
    assert_eq!(registry.invoke_function_3(&id, "add", 1, 2, 3), Err(InvokeError::ArityMismatch));
    assert_eq!(registry.invoke_function_4(&id, "add", 1, 2, 3, 4), Err(InvokeError::ArityMismatch));
    assert_eq!(
        registry.invoke_function_5(&id, "add", 1, 2, 3, 4, 5),
        Err(InvokeError::ArityMismatch)
    );
}

#[test]
fn i32_arguments_are_truncated_to_low_bits() {
    let (mut registry, id) = loaded(&add_module(), "add.wasm");
    assert_eq!(registry.invoke_function(&id, "add", &[0x1_0000_0003, 4]), Ok(Some(7)));
    assert_eq!(registry.invoke_function(&id, "add", &[i32::MAX as i64, 1]), Ok(Some(i32::MIN as i64)));
    assert_eq!(registry.invoke_function(&id, "add", &[-1, -1]), Ok(Some(-2)));
}

#[test]
fn i64_arguments_pass_through() {
    let (mut registry, id) = loaded(&mixed_module(), "mixed.wasm");
    assert_eq!(registry.invoke_function(&id, "id64", &[i64::MIN]), Ok(Some(i64::MIN)));
    assert_eq!(registry.invoke_function(&id, "id64", &[0x1_2345_6789]), Ok(Some(0x1_2345_6789)));
}

#[test]
fn float_parameter_is_refused() {
    let (mut registry, id) = loaded(&mixed_module(), "mixed.wasm");
    assert_eq!(
        registry.invoke_function(&id, "takes_float", &[1]),
        Err(InvokeError::UnsupportedArgumentType {
            function: "takes_float".to_string(),
            module: id.clone(),
        })
    );
    assert_eq!(registry.invoke_function(&id, "takes_float", &[]), Err(InvokeError::ArityMismatch));
}

#[test]
fn global_export_is_no_function() {
    let (mut registry, id) = loaded(&mixed_module(), "mixed.wasm");
    assert_eq!(registry.invoke_function(&id, "answer", &[]), Err(InvokeError::FunctionNotFound));
}

#[test]
fn trap_is_an_execution_error() {
    let (mut registry, id) = loaded(&trap_module(), "trap.wasm");
    match registry.invoke_function(&id, "boom", &[]) {
        Err(InvokeError::ExecutionError(_)) => {}
        other => panic!("expected an execution error, got {:?}", other),
    }
    assert_eq!(registry.invoke_function_0(&id, "neg"), Ok(Some(-1)));
}

#[test]
fn same_bytes_give_same_id() {
    let mut registry = Registry::new();
    let first = registry.load(&add_module(), "a.wasm".to_string()).unwrap();
    let second = registry.load(&add_module(), "b.wasm".to_string()).unwrap();
    assert_eq!(first, second);
    assert_eq!(first.len(), 64);
    assert!(first.chars().all(|c| c.is_ascii_hexdigit()));
    assert_eq!(registry.len(), 1);
    let rows = registry.list_modules();
    assert_eq!(rows[0].wasm_file, "a.wasm");
    assert_eq!(registry.list_exported_functions().len(), 1);
}

#[test]
fn different_bytes_give_different_ids() {
    let mut registry = Registry::new();
    let a = registry.load(&add_module(), "a.wasm".to_string()).unwrap();
    let b = registry.load(&mixed_module(), "b.wasm".to_string()).unwrap();
    assert_ne!(a, b);
}

#[test]
fn invalid_bytes_leave_registry_unchanged() {
    let (mut registry, _) = loaded(&add_module(), "add.wasm");
    assert_eq!(registry.load(&[1, 2, 3], "junk".to_string()), Err(LoadError::Invalid));
    assert_eq!(registry.load(&[], "empty".to_string()), Err(LoadError::Invalid));
    let mut truncated = add_module();
    truncated.truncate(20);
    assert_eq!(registry.load(&truncated, "cut".to_string()), Err(LoadError::Invalid));
    assert_eq!(registry.len(), 1);
}

#[test]
fn list_modules_after_two_loads() {
    let mut registry = Registry::new();
    let a = registry.load(&add_module(), "/data/add.wasm".to_string()).unwrap();
    let b = registry.load(&mixed_module(), "/data/mixed.wasm".to_string()).unwrap();
    let rows = registry.list_modules();
    assert_eq!(rows.len(), 2);
    assert_ne!(rows[0].id, rows[1].id);
    assert_eq!((rows[0].id.clone(), rows[0].wasm_file.clone()), (a, "/data/add.wasm".to_string()));
    assert_eq!((rows[1].id.clone(), rows[1].wasm_file.clone()), (b, "/data/mixed.wasm".to_string()));
}

#[test]
fn exported_functions_grow_with_loads() {
    let mut registry = Registry::new();
    assert!(registry.list_exported_functions().is_empty());
    let a = registry.load(&add_module(), "add.wasm".to_string()).unwrap();
    let rows = registry.list_exported_functions();
    assert_eq!(rows.len(), 1);
    assert_eq!(rows[0].instance_id, a);
    assert_eq!(rows[0].name, "add");
    assert_eq!(rows[0].inputs, "integer,integer");
    assert_eq!(rows[0].outputs, "integer");
    let b = registry.load(&mixed_module(), "mixed.wasm".to_string()).unwrap();
    let rows = registry.list_exported_functions();
    assert_eq!(rows.len(), 3);
    assert_eq!(rows[0].name, "add");
    let mut rest: Vec<(String, String, String, String)> = rows[1..]
        .iter()
        .map(|r| (r.instance_id.clone(), r.name.clone(), r.inputs.clone(), r.outputs.clone()))
        .collect();
    rest.sort();
    assert_eq!(
        rest,
        vec![
            (b.clone(), "id64".to_string(), "bigint".to_string(), "bigint".to_string()),
            (b.clone(), "takes_float".to_string(), "numeric".to_string(), "integer".to_string()),
        ]
    );
}

#[test]
fn instances_table_hands_out_rows_from_the_end() {
    let mut registry = Registry::new();
    let a = registry.load(&add_module(), "add.wasm".to_string()).unwrap();
    let b = registry.load(&trap_module(), "trap.wasm".to_string()).unwrap();
    let mut table = InstancesTable::begin(&registry);
    let first = table.next().unwrap();
    assert_eq!(first.get_field("id"), Ok(b));
    assert_eq!(first.get_field("wasm_file"), Ok("trap.wasm".to_string()));
    assert_eq!(first.get_field("other"), Err("Unknown field"));
    let second = table.next().unwrap();
    assert_eq!(second.get_field("id"), Ok(a));
    assert!(table.next().is_none());
    assert!(table.next().is_none());
}

#[test]
fn exported_functions_table_fields() {
    let (registry, id) = loaded(&add_module(), "add.wasm");
    let mut table = ExportedFunctionsTable::begin(&registry);
    let row = table.next().unwrap();
    assert_eq!(row.get_field("instance_id"), Ok(id));
    assert_eq!(row.get_field("name"), Ok("add".to_string()));
    assert_eq!(row.get_field("inputs"), Ok("integer,integer".to_string()));
    assert_eq!(row.get_field("outputs"), Ok("integer".to_string()));
    assert_eq!(row.get_field("wasm_file"), Err("Unknown field"));
    assert!(table.next().is_none());
}

#[test]
fn table_schemas() {
    assert_eq!(
        InstancesTable::schema("wasm_server", "public"),
        Some(vec![
            "CREATE FOREIGN TABLE public.instances (id text, wasm_file text) SERVER wasm_server"
                .to_string()
        ])
    );
    assert_eq!(
        ExportedFunctionsTable::schema("srv", "wasm"),
        Some(vec![
            "CREATE FOREIGN TABLE wasm.exported_functions (instance_id text, name text, inputs text, outputs text) SERVER srv"
                .to_string()
        ])
    );
}

#[test]
fn prepare_call_converts_without_running() {
    let (registry, id) = loaded(&add_module(), "add.wasm");
    let plan = registry.prepare_call(&id, "add", &[0x1_0000_0003, -4]).unwrap();
    assert_eq!(plan.module, 0);
    assert_eq!(plan.args, vec![ArgValue::I32(3), ArgValue::I32(-4)]);
    assert_eq!(registry.prepare_call(&id, "add", &[1]).err(), Some(InvokeError::ArityMismatch));
    assert_eq!(registry.find(&id), Some(0));
    assert_eq!(registry.find("absent"), None);
}

#[test]
fn export_metadata_is_read_at_load() {
    let (registry, id) = loaded(&mixed_module(), "mixed.wasm");
    let entry = registry.entry(registry.find(&id).unwrap());
    let f = find_export(&entry.exports, "takes_float").unwrap();
    let sig = entry.exports[f].function.as_ref().unwrap();
    assert_eq!(sig.params, vec![ValType::F64]);
    assert_eq!(sig.results, vec![ValType::I32]);
    let g = find_export(&entry.exports, "answer").unwrap();
    assert!(entry.exports[g].function.is_none());
    assert_eq!(find_export(&entry.exports, "nothing"), None);
}
