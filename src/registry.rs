use crate::engine::{
    call_export, compile_module, content_hash_hex, content_id, instantiate_module,
    is_valid_module, module_exports, module_is_valid, new_engine, LoadedInstance,
};
use crate::invoke::export_views;
use crate::marshal::{ArgValue, ResultValue, ValType};
use vstd::prelude::*;

verus! {

/// The parameter and result types of an exported function.
pub struct Signature {
    pub params: Vec<ValType>,
    pub results: Vec<ValType>,
}

/// One export of a module: its name, and its signature where it is a function.
pub struct ExportInfo {
    pub name: String,
    pub function: Option<Signature>,
}

pub ghost struct SignatureView {
    pub params: Seq<ValType>,
    pub results: Seq<ValType>,
}

pub ghost struct ExportView {
    pub name: Seq<char>,
    pub function: Option<SignatureView>,
}

/// What the registry knows of one loaded module.
pub ghost struct ModuleView {
    pub id: Seq<char>,
    pub source_path: Seq<char>,
    pub exports: Seq<ExportView>,
}

impl View for Signature {
    type V = SignatureView;

    open spec fn view(&self) -> SignatureView {
        SignatureView { params: self.params@, results: self.results@ }
    }
}

impl View for ExportInfo {
    type V = ExportView;

    open spec fn view(&self) -> ExportView {
        ExportView {
            name: self.name@,
            function: match self.function {
                Some(s) => Some(s@),
                None => None,
            },
        }
    }
}

/// A loaded module: its content identifier, the path it was loaded from, the
/// metadata of its exports, and the running instance.
pub struct ModuleEntry {
    pub id: String,
    pub source_path: String,
    pub exports: Vec<ExportInfo>,
    pub instance: LoadedInstance,
}

impl View for ModuleEntry {
    type V = ModuleView;

    open spec fn view(&self) -> ModuleView {
        ModuleView {
            id: self.id@,
            source_path: self.source_path@,
            exports: self.exports@.map_values(|e: ExportInfo| e@),
        }
    }
}

/// Why a module could not be loaded.
#[derive(Debug, PartialEq, Eq)]
pub enum LoadError {
    /// The module's file could not be read.
    Unreadable(String),
    /// The bytes are not a valid module.
    Invalid,
    /// The engine could not compile the module.
    Compile(String),
    /// The engine could not instantiate the compiled module.
    Instantiate(String),
}

/// The loaded modules, keyed by content identifier.
pub struct Registry {
    entries: Vec<ModuleEntry>,
}

/// The position of the module with identifier `id`, if there is one.
pub open spec fn find_module_spec(ms: Seq<ModuleView>, id: Seq<char>) -> Option<int>
    decreases ms.len(),
{
    if ms.len() == 0 {
        None
    } else if ms.last().id == id {
        Some(ms.len() - 1)
    } else {
        find_module_spec(ms.drop_last(), id)
    }
}

/// The registry after `bytes` are loaded from `path`: unchanged where a module
/// with the same content identifier is already there, else with the module added
/// after all others.
pub open spec fn load_spec(ms: Seq<ModuleView>, bytes: Seq<u8>, path: Seq<char>) -> Seq<
    ModuleView,
> {
    let id = content_hash_hex(bytes);
    match find_module_spec(ms, id) {
        Some(_) => ms,
        None => ms.push(ModuleView { id, source_path: path, exports: module_exports(bytes) }),
    }
}

pub open spec fn ids_unique(ms: Seq<ModuleView>) -> bool {
    forall|i: int, j: int| 0 <= i < j < ms.len() ==> ms[i].id != ms[j].id
}

pub proof fn lemma_find_module(ms: Seq<ModuleView>, id: Seq<char>)
    ensures
        find_module_spec(ms, id) matches Some(i) ==> 0 <= i < ms.len() && ms[i].id == id,
        find_module_spec(ms, id) is None ==> forall|i: int| 0 <= i < ms.len() ==> ms[i].id != id,
    decreases ms.len(),
{
    if ms.len() > 0 && ms.last().id != id {
        lemma_find_module(ms.drop_last(), id);
        assert forall|i: int| 0 <= i < ms.len() - 1 implies ms[i] == ms.drop_last()[i] by {}
    }
}

pub proof fn lemma_find_unique(ms: Seq<ModuleView>, id: Seq<char>, i: int)
    requires
        ids_unique(ms),
        0 <= i < ms.len(),
        ms[i].id == id,
    ensures
        find_module_spec(ms, id) == Some(i),
{
    lemma_find_module(ms, id);
}

impl Registry {
    pub closed spec fn view(&self) -> Seq<ModuleView> {
        self.entries@.map_values(|e: ModuleEntry| e@)
    }

    /// Identifiers are unique keys.
    pub open spec fn wf(&self) -> bool {
        ids_unique(self@)
    }

    /// An empty registry.
    pub fn new() -> (r: Registry)
        ensures
            r.wf(),
            r@ == Seq::<ModuleView>::empty(),
    {
        let r = Registry { entries: Vec::new() };
        assert(r@ =~= Seq::<ModuleView>::empty());
        r
    }

    /// The number of loaded modules.
    pub fn len(&self) -> (r: usize)
        ensures
            r == self@.len(),
    {
        self.entries.len()
    }

    /// The module at position `i`.
    pub fn entry(&self, i: usize) -> (r: &ModuleEntry)
        requires
            i < self@.len(),
        ensures
            r@ == self@[i as int],
    {
        &self.entries[i]
    }

    /// The position of the module with identifier `id`.
    pub fn find(&self, id: &str) -> (r: Option<usize>)
        requires
            self.wf(),
        ensures
            r matches Some(i) ==> find_module_spec(self@, id@) == Some(i as int),
            r is None ==> find_module_spec(self@, id@) is None,
    {
        let key = id.to_owned();
        let mut i: usize = 0;
        while i < self.entries.len()
            invariant
                self.wf(),
                0 <= i <= self@.len(),
                key@ == id@,
                forall|j: int| 0 <= j < i ==> (#[trigger] self@[j]).id != id@,
            decreases self@.len() - i,
        {
            if self.entries[i].id == key {
                proof {
                    lemma_find_unique(self@, id@, i as int);
                }
                return Some(i);
            }
            i = i + 1;
        }
        proof {
            lemma_find_module(self@, id@);
        }
        None
    }

    /// Adds an instantiated module under an identifier that is not there yet.
    pub fn insert_module(
        &mut self,
        id: String,
        source_path: String,
        exports: Vec<ExportInfo>,
        instance: LoadedInstance,
    )
        requires
            old(self).wf(),
            find_module_spec(old(self)@, id@) is None,
        ensures
            final(self).wf(),
            final(self)@ == old(self)@.push(
                ModuleView {
                    id: id@,
                    source_path: source_path@,
                    exports: export_views(exports@),
                },
            ),
    {
        let entry = ModuleEntry { id, source_path, exports, instance };
        proof {
            lemma_find_module(old(self)@, entry@.id);
        }
        self.entries.push(entry);
        assert(self@ =~= old(self)@.push(entry@));
    }

    /// Validates module bytes and, where no module with their content identifier
    /// is loaded yet, compiles and instantiates them and adds the instance under
    /// that identifier, which it returns. On failure the registry is left as it was.
    pub fn load(&mut self, bytes: &[u8], source_path: String) -> (r: Result<String, LoadError>)
        requires
            old(self).wf(),
        ensures
            final(self).wf(),
            (r == Err::<String, LoadError>(LoadError::Invalid)) <==> !module_is_valid(bytes@),
            !(r matches Err(LoadError::Unreadable(_))),
            r is Err ==> final(self)@ == old(self)@,
            module_is_valid(bytes@) && find_module_spec(old(self)@, content_hash_hex(bytes@))
                is Some ==> r is Ok,
            r matches Ok(id) ==> id@ == content_hash_hex(bytes@) && final(self)@ == load_spec(
                old(self)@,
                bytes@,
                source_path@,
            ),
    {
        let engine = new_engine();
        if !is_valid_module(&engine, bytes) {
            return Err(LoadError::Invalid);
        }
        let id = content_id(bytes);
        if self.find(id.as_str()).is_some() {
            return Ok(id);
        }
        proof {
            lemma_find_module(self@, id@);
        }
        let compiled = match compile_module(&engine, bytes) {
            Ok(c) => c,
            Err(msg) => return Err(LoadError::Compile(msg)),
        };
        let instance = match instantiate_module(&engine, &compiled) {
            Ok(i) => i,
            Err(msg) => return Err(LoadError::Instantiate(msg)),
        };
        self.insert_module(id.clone(), source_path, compiled.exports, instance);
        Ok(id)
    }

    /// Runs the function exported as `name` by the module at position `i`. What the
    /// registry knows of its modules is left as it was.
    pub fn call_at(&mut self, i: usize, name: &str, args: &Vec<ArgValue>) -> (r: Result<
        Vec<ResultValue>,
        String,
    >)
        requires
            old(self).wf(),
            i < old(self)@.len(),
        ensures
            final(self).wf(),
            final(self)@ == old(self)@,
    {
        let entry = &mut self.entries[i];
        let ghost before = entry@;
        let r = call_export(&mut entry.instance, name, args);
        assert(entry@ == before);
        proof {
            assert(self@ =~= old(self)@);
        }
        r
    }
}

/// Loading the same bytes gives the same content identifier each time: the
/// identifier that `load` returns is a function of the bytes alone.
pub proof fn lemma_load_id_deterministic(
    b1: Seq<u8>,
    b2: Seq<u8>,
    id1: Seq<char>,
    id2: Seq<char>,
)
    requires
        b1 == b2,
        id1 == content_hash_hex(b1),
        id2 == content_hash_hex(b2),
    ensures
        id1 == id2,
{
}

} // verus!
