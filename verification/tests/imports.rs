use libchisel::FunctionType;
use libchisel::ImportError;
use libchisel::ImportList;
use libchisel::ImportType;
use libchisel::ValueType;

fn ewasm_registry() -> ImportList {
    ImportList::with_preset("ewasm").expect("the ewasm preset is recognized")
}

#[test]
fn ewasm_preset_all_ethereum_functions() {
    let registry = ewasm_registry();
    for entry in registry.entries() {
        assert_eq!(entry.module(), "ethereum");
        assert!(entry.signature().is_ok());
    }
}

#[test]
fn ewasm_preset_count_and_order() {
    let registry = ewasm_registry();
    assert_eq!(registry.entries().len(), 32);
    let fields: Vec<&str> = registry.entries().iter().map(|e| e.field()).collect();
    let expected = vec![
        "useGas",
        "getGasLeft",
        "getAddress",
        "getExternalBalance",
        "getBlockHash",
        "call",
        "callCode",
        "callDelegate",
        "callStatic",
        "create",
        "callDataCopy",
        "getCallDataSize",
        "codeCopy",
        "getCodeSize",
        "externalCodeCopy",
        "getCaller",
        "getCallValue",
        "getBlockDifficulty",
        "getBlockCoinbase",
        "getBlockNumber",
        "getBlockGasLimit",
        "getBlockTimestamp",
        "getTxGasPrice",
        "getTxOrigin",
        "storageStore",
        "storageLoad",
        "log",
        "getReturnDataSize",
        "returnDataCopy",
        "finish",
        "revert",
        "selfDestruct",
    ];
    assert_eq!(fields, expected);
}

#[test]
fn ewasm_preset_exact_signatures() {
    let i32t = ValueType::I32;
    let i64t = ValueType::I64;
    let registry = ewasm_registry();
    let expected: Vec<(&str, Vec<ValueType>, Option<ValueType>)> = vec![
        ("useGas", vec![i64t], None),
        ("getGasLeft", vec![], Some(i64t)),
        ("getAddress", vec![i32t], None),
        ("getExternalBalance", vec![i32t, i32t], None),
        ("getBlockHash", vec![i64t, i32t], Some(i32t)),
        ("call", vec![i64t, i32t, i32t, i32t, i32t], Some(i32t)),
        ("callCode", vec![i64t, i32t, i32t, i32t, i32t], Some(i32t)),
        ("callDelegate", vec![i64t, i32t, i32t, i32t], Some(i32t)),
        ("callStatic", vec![i64t, i32t, i32t, i32t], Some(i32t)),
        ("create", vec![i64t, i32t, i32t, i32t], Some(i32t)),
        ("callDataCopy", vec![i32t, i32t, i32t], None),
        ("getCallDataSize", vec![], Some(i32t)),
        ("codeCopy", vec![i32t, i32t, i32t], None),
        ("getCodeSize", vec![], Some(i32t)),
        ("externalCodeCopy", vec![i32t, i32t, i32t, i32t], None),
        ("getCaller", vec![i32t], None),
        ("getCallValue", vec![i32t], None),
        ("getBlockDifficulty", vec![i32t], None),
        ("getBlockCoinbase", vec![i32t], None),
        ("getBlockNumber", vec![], Some(i64t)),
        ("getBlockGasLimit", vec![], Some(i64t)),
        ("getBlockTimestamp", vec![], Some(i64t)),
        ("getTxGasPrice", vec![i32t], None),
        ("getTxOrigin", vec![i32t], None),
        ("storageStore", vec![i32t, i32t], None),
        ("storageLoad", vec![i32t, i32t], None),
        ("log", vec![i32t, i32t, i32t, i32t, i32t, i32t, i32t], None),
        ("getReturnDataSize", vec![], Some(i32t)),
        ("returnDataCopy", vec![i32t, i32t, i32t], None),
        ("finish", vec![i32t, i32t], None),
        ("revert", vec![i32t, i32t], None),
        ("selfDestruct", vec![i32t], None),
    ];
    assert_eq!(registry.entries().len(), expected.len());
    for (entry, (field, params, ret)) in registry.entries().iter().zip(expected.iter()) {
        assert_eq!(entry.field(), *field);
        let signature = entry.signature().expect("every ewasm entry is a function");
        assert_eq!(signature.params(), params);
        assert_eq!(signature.return_type(), *ret);
    }
}

#[test]
fn lookup_use_gas() {
    let registry = ewasm_registry();
    let descriptor = registry.lookup_by_field("useGas").expect("useGas is defined");
    assert_eq!(descriptor.field(), "useGas");
    assert_eq!(descriptor.module(), "ethereum");
    let signature = descriptor.signature().expect("useGas is a function import");
    assert_eq!(signature.params(), &vec![ValueType::I64]);
    assert_eq!(signature.return_type(), None);
}

#[test]
fn lookup_get_gas_left() {
    let registry = ewasm_registry();
    let descriptor = registry.lookup_by_field("getGasLeft").expect("getGasLeft is defined");
    let signature = descriptor.signature().expect("getGasLeft is a function import");
    assert!(signature.params().is_empty());
    assert_eq!(signature.return_type(), Some(ValueType::I64));
}

#[test]
fn lookup_missing_field_returns_none() {
    let registry = ewasm_registry();
    assert!(registry.lookup_by_field("doesNotExist").is_none());
}

#[test]
fn signature_fails_off_functions() {
    let global = ImportType::Global("env".to_string(), "theGlobal".to_string());
    let memory = ImportType::Memory("env".to_string(), "theMemory".to_string());
    let table = ImportType::Table("env".to_string(), "theTable".to_string());
    assert_eq!(global.signature(), Err(ImportError::NotAFunction));
    assert_eq!(memory.signature(), Err(ImportError::NotAFunction));
    assert_eq!(table.signature(), Err(ImportError::NotAFunction));

    let function = ImportType::Function(
        "env".to_string(),
        "theFunction".to_string(),
        FunctionType::new(vec![ValueType::I32], None),
    );
    assert!(function.signature().is_ok());
}

#[test]
fn unknown_preset_fails() {
    let result = ImportList::with_preset("not-a-real-preset");
    assert!(matches!(result, Err(ImportError::UnknownPreset)));
}

#[test]
fn empty_registry_finds_nothing() {
    let registry = ImportList::with_entries(vec![]);
    assert!(registry.entries().is_empty());
    assert!(registry.lookup_by_field("useGas").is_none());
    assert!(registry.lookup_by_field("").is_none());
    assert!(registry.lookup_by_field("anything").is_none());
}

#[test]
fn with_entries_round_trip() {
    let entries = vec![
        ImportType::Function(
            "ethereum".to_string(),
            "useGas".to_string(),
            FunctionType::new(vec![ValueType::I64], None),
        ),
        ImportType::Global("env".to_string(), "aGlobal".to_string()),
        ImportType::Memory("env".to_string(), "memory".to_string()),
        ImportType::Table("env".to_string(), "table".to_string()),
    ];
    let registry = ImportList::with_entries(entries.clone());
    assert_eq!(registry.entries(), &entries);
}

#[test]
fn duplicate_field_earliest_insertion_wins() {
    let first = ImportType::Global("moduleOne".to_string(), "shared".to_string());
    let second = ImportType::Global("moduleTwo".to_string(), "shared".to_string());
    let registry = ImportList::with_entries(vec![first, second]);
    let found = registry.lookup_by_field("shared").expect("the field is present");
    assert_eq!(found.module(), "moduleOne");
}

#[test]
fn lookup_ignores_module_name() {
    let entries = vec![
        ImportType::Global("moduleOne".to_string(), "shared".to_string()),
        ImportType::Function(
            "moduleTwo".to_string(),
            "shared".to_string(),
            FunctionType::new(vec![], None),
        ),
    ];
    let registry = ImportList::with_entries(entries);
    let found = registry.lookup_by_field("shared").expect("the field is present");
    assert_eq!(found.module(), "moduleOne");
    assert_eq!(found.signature(), Err(ImportError::NotAFunction));
}

#[test]
fn lookup_is_case_sensitive() {
    let registry = ewasm_registry();
    assert!(registry.lookup_by_field("usegas").is_none());
    assert!(registry.lookup_by_field("USEGAS").is_none());
}

#[test]
fn function_type_accessors() {
    let signature = FunctionType::new(
        vec![ValueType::I64, ValueType::I32, ValueType::F32, ValueType::F64],
        Some(ValueType::I32),
    );
    assert_eq!(
        signature.params(),
        &vec![ValueType::I64, ValueType::I32, ValueType::F32, ValueType::F64],
    );
    assert_eq!(signature.return_type(), Some(ValueType::I32));
}
