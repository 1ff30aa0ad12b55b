use crate::marshal::{
    is_integer_type, marshal_all_spec, marshal_arguments, unmarshal_results, unmarshal_spec,
    ArgValue, ResultValue,
};
use crate::registry::{
    find_module_spec, lemma_find_module, ExportInfo, ExportView, ModuleView, Registry,
    SignatureView,
};
use vstd::prelude::*;

verus! {

/// Why a call into a loaded module did not give a result.
#[derive(Debug, PartialEq, Eq)]
pub enum InvokeError {
    /// No module is loaded under the identifier.
    InstanceNotFound,
    /// The module exports nothing of that name, or the export is no function.
    FunctionNotFound,
    /// The number of arguments differs from the function's number of parameters.
    ArityMismatch,
    /// A parameter of the function has a type other than an integer type.
    UnsupportedArgumentType { function: String, module: String },
    /// The module trapped or the engine failed during the call; its message.
    ExecutionError(String),
}

pub ghost enum InvokeErrorView {
    InstanceNotFound,
    FunctionNotFound,
    ArityMismatch,
    UnsupportedArgumentType { function: Seq<char>, module: Seq<char> },
    ExecutionError(Seq<char>),
}

impl View for InvokeError {
    type V = InvokeErrorView;

    open spec fn view(&self) -> InvokeErrorView {
        match self {
            InvokeError::InstanceNotFound => InvokeErrorView::InstanceNotFound,
            InvokeError::FunctionNotFound => InvokeErrorView::FunctionNotFound,
            InvokeError::ArityMismatch => InvokeErrorView::ArityMismatch,
            InvokeError::UnsupportedArgumentType { function, module } =>
                InvokeErrorView::UnsupportedArgumentType { function: function@, module: module@ },
            InvokeError::ExecutionError(m) => InvokeErrorView::ExecutionError(m@),
        }
    }
}

pub open spec fn export_views(exports: Seq<ExportInfo>) -> Seq<ExportView> {
    exports.map_values(|e: ExportInfo| e@)
}

/// The position of the export named `name`, if there is one.
pub open spec fn find_export_spec(exs: Seq<ExportView>, name: Seq<char>) -> Option<int>
    decreases exs.len(),
{
    if exs.len() == 0 {
        None
    } else if exs.last().name == name {
        Some(exs.len() - 1)
    } else {
        find_export_spec(exs.drop_last(), name)
    }
}

/// The signature of the function exported as `name` by the module `id`.
pub open spec fn resolve_spec(ms: Seq<ModuleView>, id: Seq<char>, name: Seq<char>) -> Option<
    SignatureView,
> {
    match find_module_spec(ms, id) {
        None => None,
        Some(mi) => match find_export_spec(ms[mi].exports, name) {
            None => None,
            Some(ei) => ms[mi].exports[ei].function,
        },
    }
}

/// Everything that is decided before a call runs: which module runs it and with
/// which values, or why the call is refused.
pub open spec fn prepare_spec(
    ms: Seq<ModuleView>,
    id: Seq<char>,
    name: Seq<char>,
    args: Seq<i64>,
) -> Result<(int, Seq<ArgValue>), InvokeErrorView> {
    match find_module_spec(ms, id) {
        None => Err(InvokeErrorView::InstanceNotFound),
        Some(mi) => match resolve_spec(ms, id, name) {
            None => Err(InvokeErrorView::FunctionNotFound),
            Some(sig) => if sig.params.len() != args.len() {
                Err(InvokeErrorView::ArityMismatch)
            } else {
                match marshal_all_spec(sig.params, args) {
                    None => Err(
                        InvokeErrorView::UnsupportedArgumentType { function: name, module: id },
                    ),
                    Some(vals) => Ok((mi, vals)),
                }
            },
        },
    }
}

/// What the host gets from what the engine handed back.
pub open spec fn finish_spec(outcome: Result<Seq<ResultValue>, String>) -> Result<
    Option<i64>,
    InvokeError,
> {
    match outcome {
        Ok(vs) => Ok(unmarshal_spec(vs)),
        Err(m) => Err(InvokeError::ExecutionError(m)),
    }
}

pub open spec fn outcome_view(outcome: Result<Vec<ResultValue>, String>) -> Result<
    Seq<ResultValue>,
    String,
> {
    match outcome {
        Ok(vs) => Ok(vs@),
        Err(m) => Err(m),
    }
}

/// What a call may give: the refusal decided before it runs, or whatever the
/// engine's outcome turns into.
pub open spec fn invoke_spec(
    ms: Seq<ModuleView>,
    id: Seq<char>,
    name: Seq<char>,
    args: Seq<i64>,
    r: Result<Option<i64>, InvokeError>,
) -> bool {
    match prepare_spec(ms, id, name, args) {
        Err(ev) => r matches Err(e) && e@ == ev,
        Ok(_) => exists|o: Result<Seq<ResultValue>, String>| r == finish_spec(o),
    }
}

/// A call that is ready to run: the module's position and the converted arguments.
pub struct CallPlan {
    pub module: usize,
    pub args: Vec<ArgValue>,
}

proof fn lemma_find_export(exs: Seq<ExportView>, name: Seq<char>)
    ensures
        find_export_spec(exs, name) matches Some(i) ==> 0 <= i < exs.len() && exs[i].name == name,
    decreases exs.len(),
{
    if exs.len() > 0 && exs.last().name != name {
        lemma_find_export(exs.drop_last(), name);
    }
}

proof fn lemma_find_export_last(exs: Seq<ExportView>, name: Seq<char>, i: int)
    requires
        0 <= i <= exs.len(),
        forall|j: int| i <= j < exs.len() ==> (#[trigger] exs[j]).name != name,
    ensures
        find_export_spec(exs, name) == find_export_spec(exs.subrange(0, i), name),
    decreases exs.len() - i,
{
    if i < exs.len() {
        lemma_find_export_last(exs, name, i + 1);
        let s = exs.subrange(0, i + 1);
        assert(s.drop_last() =~= exs.subrange(0, i));
    } else {
        assert(exs.subrange(0, i) =~= exs);
    }
}

/// The position of the export named `name`.
pub fn find_export(exports: &Vec<ExportInfo>, name: &str) -> (r: Option<usize>)
    ensures
        r matches Some(i) ==> find_export_spec(export_views(exports@), name@) == Some(i as int),
        r is None ==> find_export_spec(export_views(exports@), name@) is None,
{
    let ghost v = export_views(exports@);
    let key = name.to_owned();
    let mut i: usize = exports.len();
    while i > 0
        invariant
            i <= exports@.len(),
            v == export_views(exports@),
            key@ == name@,
            forall|j: int| i <= j < v.len() ==> (#[trigger] v[j]).name != name@,
        decreases i,
    {
        if exports[i - 1].name == key {
            proof {
                lemma_find_export_last(v, name@, i as int);
                let s = v.subrange(0, i as int);
                assert(s.last() == v[i - 1]);
            }
            return Some(i - 1);
        }
        i = i - 1;
    }
    proof {
        lemma_find_export_last(v, name@, 0);
    }
    None
}

/// Turns what the engine handed back into the host's result.
pub fn finish_call(outcome: Result<Vec<ResultValue>, String>) -> (r: Result<
    Option<i64>,
    InvokeError,
>)
    ensures
        r == finish_spec(outcome_view(outcome)),
{
    match outcome {
        Ok(values) => Ok(unmarshal_results(&values)),
        Err(msg) => Err(InvokeError::ExecutionError(msg)),
    }
}

impl Registry {
    /// Resolves the module and the function, checks the call's shape and converts
    /// the arguments, without running anything.
    pub fn prepare_call(
        &self,
        instance_id: &str,
        function_name: &str,
        arguments: &[i64],
    ) -> (r: Result<CallPlan, InvokeError>)
        requires
            self.wf(),
        ensures
            r matches Ok(p) ==> prepare_spec(self@, instance_id@, function_name@, arguments@)
                == Ok::<(int, Seq<ArgValue>), InvokeErrorView>((p.module as int, p.args@)),
            r matches Err(e) ==> prepare_spec(self@, instance_id@, function_name@, arguments@)
                == Err::<(int, Seq<ArgValue>), InvokeErrorView>(e@),
    {
        let mi = match self.find(instance_id) {
            Some(i) => i,
            None => return Err(InvokeError::InstanceNotFound),
        };
        proof {
            lemma_find_module(self@, instance_id@);
        }
        let entry = self.entry(mi);
        assert(entry@.exports == export_views(entry.exports@));
        let ei = match find_export(&entry.exports, function_name) {
            Some(i) => i,
            None => return Err(InvokeError::FunctionNotFound),
        };
        proof {
            lemma_find_export(entry@.exports, function_name@);
        }
        assert(entry@.exports[ei as int] == entry.exports@[ei as int]@);
        let sig = match &entry.exports[ei].function {
            Some(s) => s,
            None => return Err(InvokeError::FunctionNotFound),
        };
        if sig.params.len() != arguments.len() {
            return Err(InvokeError::ArityMismatch);
        }
        match marshal_arguments(&sig.params, arguments) {
            Some(vals) => Ok(CallPlan { module: mi, args: vals }),
            None => Err(
                InvokeError::UnsupportedArgumentType {
                    function: function_name.to_owned(),
                    module: instance_id.to_owned(),
                },
            ),
        }
    }

    /// Calls the function `function_name` of the module `instance_id` with host
    /// integers, and hands back its one integer result, if it has one.
    pub fn invoke_function(
        &mut self,
        instance_id: &str,
        function_name: &str,
        arguments: &[i64],
    ) -> (r: Result<Option<i64>, InvokeError>)
        requires
            old(self).wf(),
        ensures
            final(self).wf(),
            final(self)@ == old(self)@,
            invoke_spec(old(self)@, instance_id@, function_name@, arguments@, r),
    {
        let plan = match self.prepare_call(instance_id, function_name, arguments) {
            Ok(p) => p,
            Err(e) => return Err(e),
        };
        proof {
            lemma_find_module(self@, instance_id@);
        }
        let outcome = self.call_at(plan.module, function_name, &plan.args);
        let ghost o = outcome_view(outcome);
        let r = finish_call(outcome);
        assert(r == finish_spec(o));
        r
    }

    /// A call with no argument.
    pub fn invoke_function_0(&mut self, instance_id: &str, function_name: &str) -> (r: Result<
        Option<i64>,
        InvokeError,
    >)
        requires
            old(self).wf(),
        ensures
            final(self).wf(),
            final(self)@ == old(self)@,
            invoke_spec(old(self)@, instance_id@, function_name@, seq![], r),
    {
        let args: Vec<i64> = Vec::new();
        assert(args@ =~= seq![]);
        self.invoke_function(instance_id, function_name, args.as_slice())
    }

    /// A call with one argument.
    pub fn invoke_function_1(
        &mut self,
        instance_id: &str,
        function_name: &str,
        argument0: i64,
    ) -> (r: Result<Option<i64>, InvokeError>)
        requires
            old(self).wf(),
        ensures
            final(self).wf(),
            final(self)@ == old(self)@,
            invoke_spec(old(self)@, instance_id@, function_name@, seq![argument0], r),
    {
        let args: Vec<i64> = vec![argument0];
        assert(args@ =~= seq![argument0]);
        self.invoke_function(instance_id, function_name, args.as_slice())
    }

    /// A call with two arguments.
    pub fn invoke_function_2(
        &mut self,
        instance_id: &str,
        function_name: &str,
        argument0: i64,
        argument1: i64,
    ) -> (r: Result<Option<i64>, InvokeError>)
        requires
            old(self).wf(),
        ensures
            final(self).wf(),
            final(self)@ == old(self)@,
            invoke_spec(old(self)@, instance_id@, function_name@, seq![argument0, argument1], r),
    {
        let args: Vec<i64> = vec![argument0, argument1];
        assert(args@ =~= seq![argument0, argument1]);
        self.invoke_function(instance_id, function_name, args.as_slice())
    }

    /// A call with three arguments.
    pub fn invoke_function_3(
        &mut self,
        instance_id: &str,
        function_name: &str,
        argument0: i64,
        argument1: i64,
        argument2: i64,
    ) -> (r: Result<Option<i64>, InvokeError>)
        requires
            old(self).wf(),
        ensures
            final(self).wf(),
            final(self)@ == old(self)@,
            invoke_spec(
                old(self)@,
                instance_id@,
                function_name@,
                seq![argument0, argument1, argument2],
                r,
            ),
    {
        let args: Vec<i64> = vec![argument0, argument1, argument2];
        assert(args@ =~= seq![argument0, argument1, argument2]);
        self.invoke_function(instance_id, function_name, args.as_slice())
    }

    /// A call with four arguments.
    pub fn invoke_function_4(
        &mut self,
        instance_id: &str,
        function_name: &str,
        argument0: i64,
        argument1: i64,
        argument2: i64,
        argument3: i64,
    ) -> (r: Result<Option<i64>, InvokeError>)
        requires
            old(self).wf(),
        ensures
            final(self).wf(),
            final(self)@ == old(self)@,
            invoke_spec(
                old(self)@,
                instance_id@,
                function_name@,
                seq![argument0, argument1, argument2, argument3],
                r,
            ),
    {
        let args: Vec<i64> = vec![argument0, argument1, argument2, argument3];
        assert(args@ =~= seq![argument0, argument1, argument2, argument3]);
        self.invoke_function(instance_id, function_name, args.as_slice())
    }

    /// A call with five arguments.
    pub fn invoke_function_5(
        &mut self,
        instance_id: &str,
        function_name: &str,
        argument0: i64,
        argument1: i64,
        argument2: i64,
        argument3: i64,
        argument4: i64,
    ) -> (r: Result<Option<i64>, InvokeError>)
        requires
            old(self).wf(),
        ensures
            final(self).wf(),
            final(self)@ == old(self)@,
            invoke_spec(
                old(self)@,
                instance_id@,
                function_name@,
                seq![argument0, argument1, argument2, argument3, argument4],
                r,
            ),
    {
        let args: Vec<i64> = vec![argument0, argument1, argument2, argument3, argument4];
        assert(args@ =~= seq![argument0, argument1, argument2, argument3, argument4]);
        self.invoke_function(instance_id, function_name, args.as_slice())
    }
}

/// For a function whose parameters are all integers, a call with as many
/// arguments as parameters is accepted and succeeds exactly when the engine's run
/// does not fail; a call with any other number of arguments is refused with
/// `ArityMismatch`, whatever the function would do.
pub proof fn lemma_integer_call_outcome(
    ms: Seq<ModuleView>,
    id: Seq<char>,
    name: Seq<char>,
    args: Seq<i64>,
    outcome: Result<Seq<ResultValue>, String>,
)
    requires
        resolve_spec(ms, id, name) is Some,
        forall|i: int|
            0 <= i < resolve_spec(ms, id, name)->Some_0.params.len() ==> is_integer_type(
                #[trigger] resolve_spec(ms, id, name)->Some_0.params[i],
            ),
    ensures
        args.len() == resolve_spec(ms, id, name)->Some_0.params.len() ==> {
            &&& prepare_spec(ms, id, name, args) is Ok
            &&& (finish_spec(outcome) is Ok <==> outcome is Ok)
        },
        args.len() != resolve_spec(ms, id, name)->Some_0.params.len() ==> prepare_spec(
            ms,
            id,
            name,
            args,
        ) == Err::<(int, Seq<ArgValue>), InvokeErrorView>(InvokeErrorView::ArityMismatch),
{
}

/// A function with a parameter of floating-point, vector or reference type is
/// refused with `UnsupportedArgumentType`, naming the function and the module,
/// before anything runs, when the number of arguments is right.
pub proof fn lemma_non_integer_parameter_refused(
    ms: Seq<ModuleView>,
    id: Seq<char>,
    name: Seq<char>,
    args: Seq<i64>,
    k: int,
)
    requires
        resolve_spec(ms, id, name) is Some,
        args.len() == resolve_spec(ms, id, name)->Some_0.params.len(),
        0 <= k < args.len(),
        !is_integer_type(resolve_spec(ms, id, name)->Some_0.params[k]),
    ensures
        prepare_spec(ms, id, name, args) == Err::<(int, Seq<ArgValue>), InvokeErrorView>(
            InvokeErrorView::UnsupportedArgumentType { function: name, module: id },
        ),
{
}

} // verus!
