use crate::invoke::export_views;
use crate::marshal::{join_labels, join_labels_spec};
use crate::engine::{content_hash_hex, module_exports};
use crate::registry::{find_module_spec, load_spec, ExportView, ModuleView, Registry};
use vstd::prelude::*;
use vstd::string::StringExecFns;

verus! {

/// A row of the modules view: a module's identifier and the path it came from.
pub struct InstanceRow {
    pub id: String,
    pub wasm_file: String,
}

/// A row of the exported-functions view: the module, the function's name, and
/// the labels of its parameter and result types, separated by commas.
pub struct ExportedFunctionRow {
    pub instance_id: String,
    pub name: String,
    pub inputs: String,
    pub outputs: String,
}

pub ghost struct InstanceRowView {
    pub id: Seq<char>,
    pub wasm_file: Seq<char>,
}

pub ghost struct FunctionRowView {
    pub instance_id: Seq<char>,
    pub name: Seq<char>,
    pub inputs: Seq<char>,
    pub outputs: Seq<char>,
}

impl View for InstanceRow {
    type V = InstanceRowView;

    open spec fn view(&self) -> InstanceRowView {
        InstanceRowView { id: self.id@, wasm_file: self.wasm_file@ }
    }
}

impl View for ExportedFunctionRow {
    type V = FunctionRowView;

    open spec fn view(&self) -> FunctionRowView {
        FunctionRowView {
            instance_id: self.instance_id@,
            name: self.name@,
            inputs: self.inputs@,
            outputs: self.outputs@,
        }
    }
}

pub open spec fn instance_row_views(rows: Seq<InstanceRow>) -> Seq<InstanceRowView> {
    rows.map_values(|r: InstanceRow| r@)
}

pub open spec fn function_row_views(rows: Seq<ExportedFunctionRow>) -> Seq<FunctionRowView> {
    rows.map_values(|r: ExportedFunctionRow| r@)
}

/// One row per loaded module, in registry order.
pub open spec fn module_rows_spec(ms: Seq<ModuleView>) -> Seq<InstanceRowView> {
    ms.map_values(|m: ModuleView| InstanceRowView { id: m.id, wasm_file: m.source_path })
}

/// One row per function export of the module `id`, in export order.
pub open spec fn export_rows_spec(id: Seq<char>, exs: Seq<ExportView>) -> Seq<FunctionRowView>
    decreases exs.len(),
{
    if exs.len() == 0 {
        Seq::empty()
    } else {
        let rest = export_rows_spec(id, exs.drop_last());
        match exs.last().function {
            Some(sig) => rest.push(
                FunctionRowView {
                    instance_id: id,
                    name: exs.last().name,
                    inputs: join_labels_spec(sig.params),
                    outputs: join_labels_spec(sig.results),
                },
            ),
            None => rest,
        }
    }
}

/// One row per function export of each loaded module, module by module.
pub open spec fn function_rows_spec(ms: Seq<ModuleView>) -> Seq<FunctionRowView>
    decreases ms.len(),
{
    if ms.len() == 0 {
        Seq::empty()
    } else {
        function_rows_spec(ms.drop_last()) + export_rows_spec(ms.last().id, ms.last().exports)
    }
}

proof fn lemma_function_rows_step(ms: Seq<ModuleView>, i: int)
    requires
        0 <= i < ms.len(),
    ensures
        function_rows_spec(ms.subrange(0, i + 1)) == function_rows_spec(ms.subrange(0, i))
            + export_rows_spec(ms[i].id, ms[i].exports),
{
    let s = ms.subrange(0, i + 1);
    assert(s.drop_last() =~= ms.subrange(0, i));
}

proof fn lemma_export_rows_step(id: Seq<char>, exs: Seq<ExportView>, j: int)
    requires
        0 <= j < exs.len(),
    ensures
        export_rows_spec(id, exs.subrange(0, j + 1)) == match exs[j].function {
            Some(sig) => export_rows_spec(id, exs.subrange(0, j)).push(
                FunctionRowView {
                    instance_id: id,
                    name: exs[j].name,
                    inputs: join_labels_spec(sig.params),
                    outputs: join_labels_spec(sig.results),
                },
            ),
            None => export_rows_spec(id, exs.subrange(0, j)),
        },
{
    let s = exs.subrange(0, j + 1);
    assert(s.drop_last() =~= exs.subrange(0, j));
}

impl Registry {
    /// The modules view: one row per loaded module.
    pub fn list_modules(&self) -> (r: Vec<InstanceRow>)
        ensures
            instance_row_views(r@) == module_rows_spec(self@),
    {
        let mut rows: Vec<InstanceRow> = Vec::new();
        let mut i: usize = 0;
        while i < self.len()
            invariant
                0 <= i <= self@.len(),
                rows@.len() == i,
                instance_row_views(rows@) == module_rows_spec(self@.subrange(0, i as int)),
            decreases self@.len() - i,
        {
            let entry = self.entry(i);
            let row = InstanceRow { id: entry.id.clone(), wasm_file: entry.source_path.clone() };
            let ghost prev = rows@;
            rows.push(row);
            proof {
                let want = module_rows_spec(self@.subrange(0, i + 1));
                assert forall|k: int| 0 <= k < rows@.len() implies instance_row_views(rows@)[k]
                    == want[k] by {
                    if k < i {
                        assert(rows@[k] == prev[k]);
                        assert(instance_row_views(prev)[k] == module_rows_spec(
                            self@.subrange(0, i as int),
                        )[k]);
                    }
                }
                assert(instance_row_views(rows@) =~= want);
            }
            i = i + 1;
        }
        assert(self@.subrange(0, self@.len() as int) =~= self@);
        rows
    }

    /// The exported-functions view: one row per function export of each module.
    pub fn list_exported_functions(&self) -> (r: Vec<ExportedFunctionRow>)
        ensures
            function_row_views(r@) == function_rows_spec(self@),
    {
        let mut rows: Vec<ExportedFunctionRow> = Vec::new();
        let mut i: usize = 0;
        while i < self.len()
            invariant
                0 <= i <= self@.len(),
                function_row_views(rows@) == function_rows_spec(self@.subrange(0, i as int)),
            decreases self@.len() - i,
        {
            let entry = self.entry(i);
            let ghost m = self@[i as int];
            let ghost before = function_row_views(rows@);
            assert(m.exports == export_views(entry.exports@));
            let mut j: usize = 0;
            while j < entry.exports.len()
                invariant
                    0 <= j <= entry.exports@.len(),
                    m == entry@,
                    m.exports == export_views(entry.exports@),
                    function_row_views(rows@) == before + export_rows_spec(
                        m.id,
                        m.exports.subrange(0, j as int),
                    ),
                decreases entry.exports@.len() - j,
            {
                let export = &entry.exports[j];
                assert(m.exports[j as int] == export@);
                proof {
                    lemma_export_rows_step(m.id, m.exports, j as int);
                }
                match &export.function {
                    Some(sig) => {
                        let row = ExportedFunctionRow {
                            instance_id: entry.id.clone(),
                            name: export.name.clone(),
                            inputs: join_labels(&sig.params),
                            outputs: join_labels(&sig.results),
                        };
                        let ghost prev = rows@;
                        rows.push(row);
                        assert(function_row_views(rows@) =~= function_row_views(prev).push(row@));
                        assert(function_row_views(rows@) =~= before + export_rows_spec(
                            m.id,
                            m.exports.subrange(0, j + 1),
                        ));
                    },
                    None => {},
                }
                j = j + 1;
            }
            proof {
                assert(m.exports.subrange(0, m.exports.len() as int) =~= m.exports);
                lemma_function_rows_step(self@, i as int);
            }
            i = i + 1;
        }
        assert(self@.subrange(0, self@.len() as int) =~= self@);
        rows
    }
}

/// The rows of the modules view that a scan has not handed out yet.
pub struct InstancesTable {
    rows: Vec<InstanceRow>,
}

impl InstancesTable {
    pub closed spec fn view(&self) -> Seq<InstanceRowView> {
        instance_row_views(self.rows@)
    }

    /// Starts a scan over a snapshot of the registry.
    pub fn begin(registry: &Registry) -> (r: InstancesTable)
        ensures
            r@ == module_rows_spec(registry@),
    {
        InstancesTable { rows: registry.list_modules() }
    }

    /// Hands out the next row, taking it from the end of the snapshot.
    pub fn next(&mut self) -> (r: Option<InstanceRow>)
        ensures
            old(self)@.len() == 0 ==> r is None && final(self)@ == old(self)@,
            old(self)@.len() > 0 ==> (r matches Some(row) && row@ == old(self)@.last()
                && final(self)@ == old(self)@.drop_last()),
    {
        let r = self.rows.pop();
        proof {
            if old(self)@.len() > 0 {
                assert(self@ =~= old(self)@.drop_last());
            }
        }
        r
    }

    /// The statement that creates the view as a table in `local_schema` on
    /// the server `server_name`.
    pub fn schema(server_name: &str, local_schema: &str) -> (r: Option<Vec<String>>)
        ensures
            r matches Some(v) && v@.len() == 1 && v@[0]@ == "CREATE FOREIGN TABLE "@
                + local_schema@ + ".instances (id text, wasm_file text) SERVER "@
                + server_name@,
    {
        let mut s = String::from_str("CREATE FOREIGN TABLE ");
        s.append(local_schema);
        s.append(".instances (id text, wasm_file text) SERVER ");
        s.append(server_name);
        Some(vec![s])
    }
}

impl InstanceRow {
    /// The value of the column `name`, or an error for a column the view lacks.
    pub fn get_field(&self, name: &str) -> (r: Result<String, &'static str>)
        ensures
            name@ == "id"@ ==> (r matches Ok(v) && v@ == self.id@),
            name@ == "wasm_file"@ ==> (r matches Ok(v) && v@ == self.wasm_file@),
            name@ != "id"@ && name@ != "wasm_file"@ ==> (r matches Err(e) && e@
                == "Unknown field"@),
    {
        proof {
            reveal_strlit("id");
            reveal_strlit("wasm_file");
            assert("id"@.len() != "wasm_file"@.len());
        }
        let n = name.to_owned();
        if n == "id".to_owned() {
            Ok(self.id.clone())
        } else if n == "wasm_file".to_owned() {
            Ok(self.wasm_file.clone())
        } else {
            Err("Unknown field")
        }
    }
}

/// The rows of the exported-functions view that a scan has not handed out yet.
pub struct ExportedFunctionsTable {
    rows: Vec<ExportedFunctionRow>,
}

impl ExportedFunctionsTable {
    pub closed spec fn view(&self) -> Seq<FunctionRowView> {
        function_row_views(self.rows@)
    }

    /// Starts a scan over a snapshot of the registry.
    pub fn begin(registry: &Registry) -> (r: ExportedFunctionsTable)
        ensures
            r@ == function_rows_spec(registry@),
    {
        ExportedFunctionsTable { rows: registry.list_exported_functions() }
    }

    /// Hands out the next row, taking it from the end of the snapshot.
    pub fn next(&mut self) -> (r: Option<ExportedFunctionRow>)
        ensures
            old(self)@.len() == 0 ==> r is None && final(self)@ == old(self)@,
            old(self)@.len() > 0 ==> (r matches Some(row) && row@ == old(self)@.last()
                && final(self)@ == old(self)@.drop_last()),
    {
        let r = self.rows.pop();
        proof {
            if old(self)@.len() > 0 {
                assert(self@ =~= old(self)@.drop_last());
            }
        }
        r
    }

    /// The statement that creates the view as a table in `local_schema` on
    /// the server `server_name`.
    pub fn schema(server_name: &str, local_schema: &str) -> (r: Option<Vec<String>>)
        ensures
            r matches Some(v) && v@.len() == 1 && v@[0]@ == "CREATE FOREIGN TABLE "@
                + local_schema@
                + ".exported_functions (instance_id text, name text, inputs text, outputs text) SERVER "@
                + server_name@,
    {
        let mut s = String::from_str("CREATE FOREIGN TABLE ");
        s.append(local_schema);
        s.append(
            ".exported_functions (instance_id text, name text, inputs text, outputs text) SERVER ",
        );
        s.append(server_name);
        Some(vec![s])
    }
}

impl ExportedFunctionRow {
    /// The value of the column `name`, or an error for a column the view lacks.
    pub fn get_field(&self, name: &str) -> (r: Result<String, &'static str>)
        ensures
            name@ == "instance_id"@ ==> (r matches Ok(v) && v@ == self.instance_id@),
            name@ == "name"@ ==> (r matches Ok(v) && v@ == self.name@),
            name@ == "inputs"@ ==> (r matches Ok(v) && v@ == self.inputs@),
            name@ == "outputs"@ ==> (r matches Ok(v) && v@ == self.outputs@),
            name@ != "instance_id"@ && name@ != "name"@ && name@ != "inputs"@ && name@
                != "outputs"@ ==> (r matches Err(e) && e@ == "Unknown field"@),
    {
        proof {
            reveal_strlit("instance_id");
            reveal_strlit("name");
            reveal_strlit("inputs");
            reveal_strlit("outputs");
            assert("instance_id"@.len() == 11 && "name"@.len() == 4);
            assert("inputs"@.len() == 6 && "outputs"@.len() == 7);
        }
        let n = name.to_owned();
        if n == "instance_id".to_owned() {
            Ok(self.instance_id.clone())
        } else if n == "name".to_owned() {
            Ok(self.name.clone())
        } else if n == "inputs".to_owned() {
            Ok(self.inputs.clone())
        } else if n == "outputs".to_owned() {
            Ok(self.outputs.clone())
        } else {
            Err("Unknown field")
        }
    }
}

/// Loading never takes a row away from the exported-functions view: the rows
/// it had come first, unchanged, afterwards. Where the module is new, exactly its
/// function exports follow them.
pub proof fn lemma_load_grows_function_rows(old: Seq<ModuleView>, bytes: Seq<u8>, path: Seq<char>)
    ensures
        function_rows_spec(old).len() <= function_rows_spec(load_spec(old, bytes, path)).len(),
        function_rows_spec(load_spec(old, bytes, path)).subrange(
            0,
            function_rows_spec(old).len() as int,
        ) == function_rows_spec(old),
        find_module_spec(old, content_hash_hex(bytes)) is None ==> function_rows_spec(
            load_spec(old, bytes, path),
        ) == function_rows_spec(old) + export_rows_spec(
            content_hash_hex(bytes),
            module_exports(bytes),
        ),
{
    let new = load_spec(old, bytes, path);
    if find_module_spec(old, content_hash_hex(bytes)) is None {
        assert(new.drop_last() =~= old);
        let rows = function_rows_spec(new);
        assert(rows.subrange(0, function_rows_spec(old).len() as int) =~= function_rows_spec(old));
    } else {
        assert(function_rows_spec(new).subrange(0, function_rows_spec(old).len() as int)
            =~= function_rows_spec(old));
    }
}

/// Two loads of modules whose content identifiers differ, into an empty
/// registry, make the modules view list exactly those two modules, in load
/// order, each with the path it was loaded from.
pub proof fn lemma_two_loads_list_modules(b1: Seq<u8>, p1: Seq<char>, b2: Seq<u8>, p2: Seq<char>)
    requires
        content_hash_hex(b1) != content_hash_hex(b2),
    ensures
        module_rows_spec(load_spec(load_spec(Seq::empty(), b1, p1), b2, p2)) == seq![
            InstanceRowView { id: content_hash_hex(b1), wasm_file: p1 },
            InstanceRowView { id: content_hash_hex(b2), wasm_file: p2 },
        ],
{
    let one = load_spec(Seq::empty(), b1, p1);
    assert(one.drop_last() =~= Seq::<ModuleView>::empty());
    assert(one.last().id == content_hash_hex(b1));
    assert(find_module_spec(one.drop_last(), content_hash_hex(b2)) is None);
    assert(find_module_spec(one, content_hash_hex(b2)) is None);
    let two = load_spec(one, b2, p2);
    assert(module_rows_spec(two) =~= seq![
        InstanceRowView { id: content_hash_hex(b1), wasm_file: p1 },
        InstanceRowView { id: content_hash_hex(b2), wasm_file: p2 },
    ]);
}

} // verus!
