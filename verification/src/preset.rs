//! Named preset interface contracts; currently the single "ewasm" preset,
//! the fixed set of host functions of the ewasm execution environment.

use vstd::prelude::*;

use crate::imports::ImportError;
use crate::imports::ImportList;
use crate::imports::ImportType;
use crate::imports::ImportView;
use crate::types::FunctionType;
use crate::types::SignatureView;
use crate::types::ValueType;

verus! {

broadcast use vstd::array::group_array_axioms;

/// A function import under host module `module` with field name `field`
/// and the given signature.
pub open spec fn func_import_view(
    module: Seq<char>,
    field: Seq<char>,
    params: Seq<ValueType>,
    ret: Option<ValueType>,
) -> ImportView {
    ImportView::Function { module, field, signature: SignatureView { params, ret } }
}

/// The ewasm host-function contract: every host function the ewasm
/// execution environment defines, in declaration order, each a function
/// import under host module "ethereum" with its exact signature.
pub open spec fn ewasm_imports() -> Seq<ImportView> {
    Seq::<ImportView>::empty().push(
        func_import_view("ethereum"@, "useGas"@, seq![ValueType::I64], None),
    ).push(
        func_import_view("ethereum"@, "getGasLeft"@, seq![], Some(ValueType::I64)),
    ).push(
        func_import_view("ethereum"@, "getAddress"@, seq![ValueType::I32], None),
    ).push(
        func_import_view(
            "ethereum"@,
            "getExternalBalance"@,
            seq![ValueType::I32, ValueType::I32],
            None,
        ),
    ).push(
        func_import_view(
            "ethereum"@,
            "getBlockHash"@,
            seq![ValueType::I64, ValueType::I32],
            Some(ValueType::I32),
        ),
    ).push(
        func_import_view(
            "ethereum"@,
            "call"@,
            seq![ValueType::I64, ValueType::I32, ValueType::I32, ValueType::I32, ValueType::I32],
            Some(ValueType::I32),
        ),
    ).push(
        func_import_view(
            "ethereum"@,
            "callCode"@,
            seq![ValueType::I64, ValueType::I32, ValueType::I32, ValueType::I32, ValueType::I32],
            Some(ValueType::I32),
        ),
    ).push(
        func_import_view(
            "ethereum"@,
            "callDelegate"@,
            seq![ValueType::I64, ValueType::I32, ValueType::I32, ValueType::I32],
            Some(ValueType::I32),
        ),
    ).push(
        func_import_view(
            "ethereum"@,
            "callStatic"@,
            seq![ValueType::I64, ValueType::I32, ValueType::I32, ValueType::I32],
            Some(ValueType::I32),
        ),
    ).push(
        func_import_view(
            "ethereum"@,
            "create"@,
            seq![ValueType::I64, ValueType::I32, ValueType::I32, ValueType::I32],
            Some(ValueType::I32),
        ),
    ).push(
        func_import_view(
            "ethereum"@,
            "callDataCopy"@,
            seq![ValueType::I32, ValueType::I32, ValueType::I32],
            None,
        ),
    ).push(
        func_import_view("ethereum"@, "getCallDataSize"@, seq![], Some(ValueType::I32)),
    ).push(
        func_import_view(
            "ethereum"@,
            "codeCopy"@,
            seq![ValueType::I32, ValueType::I32, ValueType::I32],
            None,
        ),
    ).push(
        func_import_view("ethereum"@, "getCodeSize"@, seq![], Some(ValueType::I32)),
    ).push(
        func_import_view(
            "ethereum"@,
            "externalCodeCopy"@,
            seq![ValueType::I32, ValueType::I32, ValueType::I32, ValueType::I32],
            None,
        ),
    ).push(
        func_import_view("ethereum"@, "getCaller"@, seq![ValueType::I32], None),
    ).push(
        func_import_view("ethereum"@, "getCallValue"@, seq![ValueType::I32], None),
    ).push(
        func_import_view("ethereum"@, "getBlockDifficulty"@, seq![ValueType::I32], None),
    ).push(
        func_import_view("ethereum"@, "getBlockCoinbase"@, seq![ValueType::I32], None),
    ).push(
        func_import_view("ethereum"@, "getBlockNumber"@, seq![], Some(ValueType::I64)),
    ).push(
        func_import_view("ethereum"@, "getBlockGasLimit"@, seq![], Some(ValueType::I64)),
    ).push(
        func_import_view("ethereum"@, "getBlockTimestamp"@, seq![], Some(ValueType::I64)),
    ).push(
        func_import_view("ethereum"@, "getTxGasPrice"@, seq![ValueType::I32], None),
    ).push(
        func_import_view("ethereum"@, "getTxOrigin"@, seq![ValueType::I32], None),
    ).push(
        func_import_view(
            "ethereum"@,
            "storageStore"@,
            seq![ValueType::I32, ValueType::I32],
            None,
        ),
    ).push(
        func_import_view(
            "ethereum"@,
            "storageLoad"@,
            seq![ValueType::I32, ValueType::I32],
            None,
        ),
    ).push(
        func_import_view(
            "ethereum"@,
            "log"@,
            seq![
                ValueType::I32,
                ValueType::I32,
                ValueType::I32,
                ValueType::I32,
                ValueType::I32,
                ValueType::I32,
                ValueType::I32,
            ],
            None,
        ),
    ).push(
        func_import_view("ethereum"@, "getReturnDataSize"@, seq![], Some(ValueType::I32)),
    ).push(
        func_import_view(
            "ethereum"@,
            "returnDataCopy"@,
            seq![ValueType::I32, ValueType::I32, ValueType::I32],
            None,
        ),
    ).push(
        func_import_view("ethereum"@, "finish"@, seq![ValueType::I32, ValueType::I32], None),
    ).push(
        func_import_view("ethereum"@, "revert"@, seq![ValueType::I32, ValueType::I32], None),
    ).push(
        func_import_view("ethereum"@, "selfDestruct"@, seq![ValueType::I32], None),
    )
}

/// The number of host functions the ewasm contract defines.
pub proof fn lemma_ewasm_count()
    ensures
        ewasm_imports().len() == 32,
{
}

/// Whether a declaration is a function import under host module "ethereum".
pub open spec fn is_ethereum_function(v: ImportView) -> bool {
    v matches ImportView::Function { module, .. } && module == "ethereum"@
}

/// Every entry of the ewasm contract is a function import under host
/// module "ethereum".
pub proof fn lemma_ewasm_all_ethereum_functions()
    ensures
        forall|i: int|
            0 <= i < ewasm_imports().len() ==> is_ethereum_function(#[trigger] ewasm_imports()[i]),
{
    assert forall|i: int| 0 <= i < ewasm_imports().len() implies is_ethereum_function(
        #[trigger] ewasm_imports()[i],
    ) by {
        lemma_ewasm_count();
    }
}

fn no_params() -> (r: Vec<ValueType>)
    ensures
        r@ == Seq::<ValueType>::empty(),
{
    Vec::new()
}

fn params1(a: ValueType) -> (r: Vec<ValueType>)
    ensures
        r@ == seq![a],
{
    let mut v: Vec<ValueType> = Vec::new();
    v.push(a);
    v
}

fn params2(a: ValueType, b: ValueType) -> (r: Vec<ValueType>)
    ensures
        r@ == seq![a, b],
{
    let mut v: Vec<ValueType> = Vec::new();
    v.push(a);
    v.push(b);
    proof {
        assert(v@ =~= seq![a, b]);
    }
    v
}

fn params3(a: ValueType, b: ValueType, c: ValueType) -> (r: Vec<ValueType>)
    ensures
        r@ == seq![a, b, c],
{
    let mut v: Vec<ValueType> = Vec::new();
    v.push(a);
    v.push(b);
    v.push(c);
    proof {
        assert(v@ =~= seq![a, b, c]);
    }
    v
}

fn params4(a: ValueType, b: ValueType, c: ValueType, d: ValueType) -> (r: Vec<ValueType>)
    ensures
        r@ == seq![a, b, c, d],
{
    let mut v: Vec<ValueType> = Vec::new();
    v.push(a);
    v.push(b);
    v.push(c);
    v.push(d);
    proof {
        assert(v@ =~= seq![a, b, c, d]);
    }
    v
}

fn params5(a: ValueType, b: ValueType, c: ValueType, d: ValueType, e: ValueType) -> (r: Vec<
    ValueType,
>)
    ensures
        r@ == seq![a, b, c, d, e],
{
    let mut v: Vec<ValueType> = Vec::new();
    v.push(a);
    v.push(b);
    v.push(c);
    v.push(d);
    v.push(e);
    proof {
        assert(v@ =~= seq![a, b, c, d, e]);
    }
    v
}

fn params7(
    a: ValueType,
    b: ValueType,
    c: ValueType,
    d: ValueType,
    e: ValueType,
    f: ValueType,
    g: ValueType,
) -> (r: Vec<ValueType>)
    ensures
        r@ == seq![a, b, c, d, e, f, g],
{
    let mut v: Vec<ValueType> = Vec::new();
    v.push(a);
    v.push(b);
    v.push(c);
    v.push(d);
    v.push(e);
    v.push(f);
    v.push(g);
    proof {
        assert(v@ =~= seq![a, b, c, d, e, f, g]);
    }
    v
}

/// A function import descriptor that owns its strings.
fn func_import(module: &str, field: &str, params: Vec<ValueType>, ret: Option<ValueType>) -> (r:
    ImportType)
    ensures
        r@ == func_import_view(module@, field@, params@, ret),
{
    ImportType::Function(module.to_owned(), field.to_owned(), FunctionType::new(params, ret))
}

impl ImportList {
    /// Builds the registry of a recognized, named preset interface
    /// contract. The recognized names are exactly {"ewasm"}; any other
    /// name fails with `UnknownPreset`.
    pub fn with_preset(preset: &str) -> (r: Result<ImportList, ImportError>)
        ensures
            preset@ == "ewasm"@ ==> (r matches Ok(reg) && reg@ == ewasm_imports()),
            preset@ != "ewasm"@ ==> r == Err::<ImportList, ImportError>(ImportError::UnknownPreset),
    {
        let p: String = preset.to_owned();
        let ewasm_name: String = "ewasm".to_owned();
        if p == ewasm_name {
            let i32t = ValueType::I32;
            let i64t = ValueType::I64;
            let mut entries: Vec<ImportType> = Vec::new();
            entries.push(func_import("ethereum", "useGas", params1(i64t), None));
            entries.push(func_import("ethereum", "getGasLeft", no_params(), Some(i64t)));
            entries.push(func_import("ethereum", "getAddress", params1(i32t), None));
            entries.push(func_import("ethereum", "getExternalBalance", params2(i32t, i32t), None));
            entries.push(func_import("ethereum", "getBlockHash", params2(i64t, i32t), Some(i32t)));
            entries.push(
                func_import("ethereum", "call", params5(i64t, i32t, i32t, i32t, i32t), Some(i32t)),
            );
            entries.push(
                func_import(
                    "ethereum",
                    "callCode",
                    params5(i64t, i32t, i32t, i32t, i32t),
                    Some(i32t),
                ),
            );
            entries.push(
                func_import(
                    "ethereum",
                    "callDelegate",
                    params4(i64t, i32t, i32t, i32t),
                    Some(i32t),
                ),
            );
            entries.push(
                func_import("ethereum", "callStatic", params4(i64t, i32t, i32t, i32t), Some(i32t)),
            );
            entries.push(
                func_import("ethereum", "create", params4(i64t, i32t, i32t, i32t), Some(i32t)),
            );
            entries.push(func_import("ethereum", "callDataCopy", params3(i32t, i32t, i32t), None));
            entries.push(func_import("ethereum", "getCallDataSize", no_params(), Some(i32t)));
            entries.push(func_import("ethereum", "codeCopy", params3(i32t, i32t, i32t), None));
            entries.push(func_import("ethereum", "getCodeSize", no_params(), Some(i32t)));
            entries.push(
                func_import("ethereum", "externalCodeCopy", params4(i32t, i32t, i32t, i32t), None),
            );
            entries.push(func_import("ethereum", "getCaller", params1(i32t), None));
            entries.push(func_import("ethereum", "getCallValue", params1(i32t), None));
            entries.push(func_import("ethereum", "getBlockDifficulty", params1(i32t), None));
            entries.push(func_import("ethereum", "getBlockCoinbase", params1(i32t), None));
            entries.push(func_import("ethereum", "getBlockNumber", no_params(), Some(i64t)));
            entries.push(func_import("ethereum", "getBlockGasLimit", no_params(), Some(i64t)));
            entries.push(func_import("ethereum", "getBlockTimestamp", no_params(), Some(i64t)));
            entries.push(func_import("ethereum", "getTxGasPrice", params1(i32t), None));
            entries.push(func_import("ethereum", "getTxOrigin", params1(i32t), None));
            entries.push(func_import("ethereum", "storageStore", params2(i32t, i32t), None));
            entries.push(func_import("ethereum", "storageLoad", params2(i32t, i32t), None));
            entries.push(
                func_import(
                    "ethereum",
                    "log",
                    params7(i32t, i32t, i32t, i32t, i32t, i32t, i32t),
                    None,
                ),
            );
            entries.push(func_import("ethereum", "getReturnDataSize", no_params(), Some(i32t)));
            entries.push(
                func_import("ethereum", "returnDataCopy", params3(i32t, i32t, i32t), None),
            );
            entries.push(func_import("ethereum", "finish", params2(i32t, i32t), None));
            entries.push(func_import("ethereum", "revert", params2(i32t, i32t), None));
            entries.push(func_import("ethereum", "selfDestruct", params1(i32t), None));
            let reg = ImportList(entries);
            proof {
                assert(reg@ =~= ewasm_imports());
            }
            Ok(reg)
        } else {
            Err(ImportError::UnknownPreset)
        }
    }
}

} // verus!

