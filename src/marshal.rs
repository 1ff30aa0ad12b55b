use vstd::arithmetic::div_mod::lemma_fundamental_div_mod_converse;
use vstd::prelude::*;
use vstd::string::StringExecFns;

verus! {

/// The type that a module function declares for one of its parameters or results.
#[derive(Clone, Copy, Debug, PartialEq, Eq, Structural)]
pub enum ValType {
    I32,
    I64,
    F32,
    F64,
    V128,
    /// A reference to a function or to host data.
    Reference,
}

/// A value handed to a module function. Only integers cross the call boundary.
#[derive(Clone, Copy, Debug, PartialEq, Eq, Structural)]
pub enum ArgValue {
    I32(i32),
    I64(i64),
}

/// A value handed back by a module function. Floating-point and vector results
/// carry no scalar that a caller could use, so they are all `Other`.
#[derive(Clone, Copy, Debug, PartialEq, Eq, Structural)]
pub enum ResultValue {
    I32(i32),
    I64(i64),
    Other,
}

pub const TWO_POW_32: i64 = 0x1_0000_0000;

pub const TWO_POW_31: i64 = 0x8000_0000;

/// The low 32 bits of `a`, read as a two's-complement signed integer.
pub open spec fn narrow_i32(a: int) -> int {
    let m = a % 0x1_0000_0000;
    if m >= 0x8000_0000 {
        m - 0x1_0000_0000
    } else {
        m
    }
}

pub open spec fn is_integer_type(ty: ValType) -> bool {
    ty is I32 || ty is I64
}

/// What a host integer becomes when it is passed for a parameter of type `ty`;
/// `None` where that type cannot be called with a host integer.
pub open spec fn marshal_spec(ty: ValType, a: i64) -> Option<ArgValue> {
    match ty {
        ValType::I32 => Some(ArgValue::I32(narrow_i32(a as int) as i32)),
        ValType::I64 => Some(ArgValue::I64(a)),
        _ => None,
    }
}

/// The values for a whole argument list, position by position, or `None`
/// where any parameter has a type other than an integer.
pub open spec fn marshal_all_spec(params: Seq<ValType>, args: Seq<i64>) -> Option<Seq<ArgValue>>
    recommends
        params.len() == args.len(),
{
    if forall|i: int| 0 <= i < params.len() ==> is_integer_type(#[trigger] params[i]) {
        Some(Seq::new(params.len(), |i: int| marshal_spec(params[i], args[i])->Some_0))
    } else {
        None
    }
}

/// What a call's result list gives the host: the one integer result, widened to
/// 64 bits, or nothing where there are zero results, several, or one that is no integer.
pub open spec fn unmarshal_spec(results: Seq<ResultValue>) -> Option<i64> {
    if results.len() == 1 {
        match results[0] {
            ResultValue::I32(v) => Some(v as i64),
            ResultValue::I64(v) => Some(v),
            ResultValue::Other => None,
        }
    } else {
        None
    }
}

/// The label under which introspection shows a value type.
pub open spec fn type_label_spec(ty: ValType) -> Seq<char> {
    match ty {
        ValType::I32 => "integer"@,
        ValType::I64 => "bigint"@,
        ValType::F32 | ValType::F64 => "numeric"@,
        ValType::V128 => "decimal"@,
        ValType::Reference => "reference"@,
    }
}

/// The labels of `tys`, in order, separated by commas.
pub open spec fn join_labels_spec(tys: Seq<ValType>) -> Seq<char>
    decreases tys.len(),
{
    if tys.len() == 0 {
        Seq::empty()
    } else if tys.len() == 1 {
        type_label_spec(tys[0])
    } else {
        join_labels_spec(tys.drop_last()) + ","@ + type_label_spec(tys.last())
    }
}

/// The low 32 bits of a host integer as a signed 32-bit value.
pub fn narrow(a: i64) -> (r: i32)
    ensures
        r as int == narrow_i32(a as int),
{
    let m: i64 = if a >= 0 {
        a % TWO_POW_32
    } else {
        let b: i64 = -(a + 1);
        let rb: i64 = b % TWO_POW_32;
        proof {
            let k = 0x1_0000_0000int;
            let q = (b as int) / k;
            assert(b as int == q * k + rb) by (nonlinear_arith)
                requires
                    q == (b as int) / k,
                    rb as int == (b as int) % k,
                    k > 0,
            ;
            lemma_fundamental_div_mod_converse(a as int, k, -q - 1, k - 1 - rb);
        }
        TWO_POW_32 - 1 - rb
    };
    if m >= TWO_POW_31 {
        (m - TWO_POW_32) as i32
    } else {
        m as i32
    }
}

/// Converts a host integer for a parameter of type `ty`.
pub fn marshal_argument(ty: ValType, a: i64) -> (r: Option<ArgValue>)
    ensures
        r == marshal_spec(ty, a),
{
    match ty {
        ValType::I32 => Some(ArgValue::I32(narrow(a))),
        ValType::I64 => Some(ArgValue::I64(a)),
        _ => None,
    }
}

/// Converts a whole argument list against the declared parameter types; `None`
/// as soon as a parameter is not an integer type.
pub fn marshal_arguments(params: &Vec<ValType>, args: &[i64]) -> (r: Option<Vec<ArgValue>>)
    requires
        params@.len() == args@.len(),
    ensures
        r matches Some(v) ==> marshal_all_spec(params@, args@) == Some(v@),
        r is None <==> marshal_all_spec(params@, args@) is None,
{
    let mut out: Vec<ArgValue> = Vec::with_capacity(params.len());
    let mut i: usize = 0;
    while i < params.len()
        invariant
            params@.len() == args@.len(),
            0 <= i <= params@.len(),
            out@.len() == i,
            forall|j: int| 0 <= j < i ==> is_integer_type(#[trigger] params@[j]),
            forall|j: int|
                0 <= j < i ==> #[trigger] out@[j] == marshal_spec(params@[j], args@[j])->Some_0,
        decreases params@.len() - i,
    {
        match marshal_argument(params[i], args[i]) {
            Some(v) => out.push(v),
            None => {
                assert(!is_integer_type(params@[i as int]));
                return None;
            },
        }
        i = i + 1;
    }
    assert(out@ =~= Seq::new(
        params@.len(),
        |j: int| marshal_spec(params@[j], args@[j])->Some_0,
    ));
    Some(out)
}

/// Reads the host integer out of a call's results.
pub fn unmarshal_results(results: &Vec<ResultValue>) -> (r: Option<i64>)
    ensures
        r == unmarshal_spec(results@),
{
    if results.len() == 1 {
        match results[0] {
            ResultValue::I32(v) => Some(v as i64),
            ResultValue::I64(v) => Some(v),
            ResultValue::Other => None,
        }
    } else {
        None
    }
}

/// The introspection label of a value type.
pub fn type_label(ty: ValType) -> (r: &'static str)
    ensures
        r@ == type_label_spec(ty),
{
    proof {
        reveal_strlit("integer");
        reveal_strlit("bigint");
        reveal_strlit("numeric");
        reveal_strlit("decimal");
        reveal_strlit("reference");
    }
    match ty {
        ValType::I32 => "integer",
        ValType::I64 => "bigint",
        ValType::F32 | ValType::F64 => "numeric",
        ValType::V128 => "decimal",
        ValType::Reference => "reference",
    }
}

/// The labels of a type list, separated by commas.
pub fn join_labels(tys: &Vec<ValType>) -> (r: String)
    ensures
        r@ == join_labels_spec(tys@),
{
    let mut out = String::new();
    let mut i: usize = 0;
    while i < tys.len()
        invariant
            0 <= i <= tys@.len(),
            out@ == join_labels_spec(tys@.subrange(0, i as int)),
        decreases tys@.len() - i,
    {
        if i > 0 {
            out.append(",");
        }
        out.append(type_label(tys[i]));
        proof {
            let s = tys@.subrange(0, i as int + 1);
            assert(s.drop_last() =~= tys@.subrange(0, i as int));
            reveal_strlit(",");
        }
        i = i + 1;
    }
    assert(tys@.subrange(0, tys@.len() as int) =~= tys@);
    out
}

} // verus!
