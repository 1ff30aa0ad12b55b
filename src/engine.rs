use crate::invoke::export_views;
use crate::marshal::{ArgValue, ResultValue, ValType};
use crate::registry::{ExportInfo, ExportView, Signature};
use vstd::prelude::*;
use wasmer::sys::{Cranelift, EngineBuilder, Features};
use wasmer::{Engine, ExternType, Imports, Instance, Module, Store, Type, Value};

verus! {

#[verifier::external_type_specification]
#[verifier::external_body]
pub struct ExEngine(wasmer::Engine);

#[verifier::external_type_specification]
#[verifier::external_body]
pub struct ExStore(wasmer::Store);

#[verifier::external_type_specification]
#[verifier::external_body]
pub struct ExModule(wasmer::Module);

#[verifier::external_type_specification]
#[verifier::external_body]
pub struct ExInstance(wasmer::Instance);

#[verifier::external_type_specification]
#[verifier::external_body]
pub struct ExType(wasmer::Type);

/// An engine that compiles with Cranelift and accepts exactly the default set of
/// WebAssembly features, whatever the machine. Only `new_engine` builds one.
pub struct FixedEngine {
    engine: Engine,
}

/// A compiled module, with the names and signatures of its exports.
pub struct CompiledModule {
    pub(crate) module: Module,
    pub(crate) exports: Vec<ExportInfo>,
}

/// An instance together with the store it was created in. Only
/// `instantiate_module` builds one, so the two always belong together.
pub struct LoadedInstance {
    store: Store,
    instance: Instance,
}

/// The hexadecimal content hash of a module's bytes.
pub uninterp spec fn content_hash_hex(bytes: Seq<u8>) -> Seq<char>;

/// Whether bytes form a binary module that passes validation with the default
/// set of WebAssembly features.
pub uninterp spec fn module_is_valid(bytes: Seq<u8>) -> bool;

/// The exports that the module in `bytes` declares, in declaration order.
pub uninterp spec fn module_exports(bytes: Seq<u8>) -> Seq<ExportView>;

/// Relies on `WasmHash::generate` (a 32-byte digest of the bytes) and
/// `WasmHash::encode` (`hex::encode` of it): 64 hexadecimal digits that depend on
/// the bytes alone.
#[verifier::external_body]
pub(crate) fn content_id(bytes: &[u8]) -> (r: String)
    ensures
        r@ == content_hash_hex(bytes@),
        r@.len() == 64,
{
    wasmer_runtime_core::cache::WasmHash::generate(bytes).encode()
}

/// Relies on `EngineBuilder`: a Cranelift engine with `Features::default()` set
/// explicitly, rather than the features that Cranelift picks for the target.
#[verifier::external_body]
pub(crate) fn new_engine() -> (r: FixedEngine) {
    let builder = EngineBuilder::new(Cranelift::default()).set_features(Some(Features::default()));
    FixedEngine { engine: Engine::from(builder) }
}

/// Relies on `Module::validate`: with the features of a `FixedEngine`, which
/// are always the same, validity depends on the bytes alone.
#[verifier::external_body]
pub(crate) fn is_valid_module(engine: &FixedEngine, bytes: &[u8]) -> (r: bool)
    ensures
        r == module_is_valid(bytes@),
{
    Module::validate(&engine.engine, bytes).is_ok()
}

/// Relies on `Type`: one library type for each engine type, the reference
/// types all becoming `Reference`.
#[verifier::external_body]
fn val_types(tys: &[Type]) -> (r: Vec<ValType>) {
    tys.iter().map(|t| match t {
        Type::I32 => ValType::I32,
        Type::I64 => ValType::I64,
        Type::F32 => ValType::F32,
        Type::F64 => ValType::F64,
        Type::V128 => ValType::V128,
        Type::ExternRef | Type::FuncRef | Type::ExceptionRef => ValType::Reference,
    }).collect()
}

/// Relies on `Module::new`, and on `Module::exports`, which lists the exports
/// that the bytes declare; a failure is handed back as the engine's message.
#[verifier::external_body]
pub(crate) fn compile_module(engine: &FixedEngine, bytes: &[u8]) -> (r: Result<
    CompiledModule,
    String,
>)
    requires
        module_is_valid(bytes@),
    ensures
        r matches Ok(c) ==> export_views(c.exports@) == module_exports(bytes@),
{
    Module::new(&engine.engine, bytes).map(|module| {
        let exports = module.exports().map(|e| ExportInfo {
            name: e.name().to_string(),
            function: match e.ty() {
                ExternType::Function(f) => Some(
                    Signature { params: val_types(f.params()), results: val_types(f.results()) },
                ),
                _ => None,
            },
        }).collect();
        CompiledModule { module, exports }
    }).map_err(|e| e.to_string())
}

/// Relies on `Store::new` and `Instance::new`, with no imports: the instance is
/// created in a fresh store of the same engine. A failure is handed back as the
/// engine's message.
#[verifier::external_body]
pub(crate) fn instantiate_module(engine: &FixedEngine, compiled: &CompiledModule) -> (r: Result<
    LoadedInstance,
    String,
>) {
    let mut store = Store::new(engine.engine.clone());
    Instance::new(&mut store, &compiled.module, &Imports::new()).map(
        |instance| LoadedInstance { store, instance },
    ).map_err(|e| e.to_string())
}

/// Relies on `Exports::get_function` and `Function::call`: runs the function
/// exported under `name` in the instance's own store, and hands back its
/// results, or the engine's message where it is missing, trapped or failed.
#[verifier::external_body]
pub(crate) fn call_export(loaded: &mut LoadedInstance, name: &str, args: &Vec<ArgValue>) -> (r:
    Result<Vec<ResultValue>, String>) {
    let params: Vec<Value> = args.iter().map(|a| match a {
        ArgValue::I32(v) => Value::I32(*v),
        ArgValue::I64(v) => Value::I64(*v),
    }).collect();
    let function = loaded.instance.exports.get_function(name).map_err(|e| e.to_string())?;
    function.call(&mut loaded.store, &params).map(|values| values.iter().map(|v| match v {
        Value::I32(x) => ResultValue::I32(*x),
        Value::I64(x) => ResultValue::I64(*x),
        _ => ResultValue::Other,
    }).collect()).map_err(|e| e.to_string())
}

} // verus!
