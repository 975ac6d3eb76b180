//! The export surface: named remote procedures and their dispatch.
//!
//! The payload's exports are data: a table of remote procedures, each a name
//! with a declared parameter schema and return type. The wire names `load`,
//! `is_unloaded` and `remove_hostfxr` must match verbatim between controller
//! and payload. Dispatch is the one adapter shape every export shares:
//! decode the argument blob against the procedure's schema, invoke the
//! operation on the payload state, encode the result — and a blob that does
//! not match the schema answers `MarshalError` without touching the state.

use vstd::prelude::*;
use crate::codec::{
    decode_args, encode_args, seq_view, spec_decode_args, spec_encode_args, ParamType, SpecValue,
    Value,
};
use crate::errors::Error;
use crate::payload::{PayloadEvent, PayloadState};

verus! {

/// One remotely-invokable export: a unique name, the declared parameter
/// types in order, and the return type. Immutable once built.
#[derive(Debug)]
pub struct RemoteProcedure {
    pub name: String,
    pub params: Vec<ParamType>,
    pub ret: ParamType,
}

/// The declared schema of the "load" export: the UTF-8 configuration path
/// as bytes, the stderr-log flag, the popup-log flag.
pub open spec fn spec_load_schema() -> Seq<ParamType> {
    seq![ParamType::Bytes, ParamType::Bool, ParamType::Bool]
}

/// The table of every procedure the payload exports.
pub fn payload_exports() -> (r: Vec<RemoteProcedure>)
    ensures
        r@.len() == 3,
        r@[0].name@ == "load"@,
        r@[0].params@ == spec_load_schema(),
        r@[0].ret == ParamType::Unit,
        r@[1].name@ == "is_unloaded"@,
        r@[1].params@ == Seq::<ParamType>::empty(),
        r@[1].ret == ParamType::Bool,
        r@[2].name@ == "remove_hostfxr"@,
        r@[2].params@ == Seq::<ParamType>::empty(),
        r@[2].ret == ParamType::Unit,
{
    let mut load_params: Vec<ParamType> = Vec::new();
    load_params.push(ParamType::Bytes);
    load_params.push(ParamType::Bool);
    load_params.push(ParamType::Bool);
    proof {
        assert(load_params@ =~= spec_load_schema());
    }
    let mut table: Vec<RemoteProcedure> = Vec::new();
    table.push(
        RemoteProcedure {
            name: String::from_str("load"),
            params: load_params,
            ret: ParamType::Unit,
        },
    );
    table.push(
        RemoteProcedure {
            name: String::from_str("is_unloaded"),
            params: Vec::new(),
            ret: ParamType::Bool,
        },
    );
    table.push(
        RemoteProcedure {
            name: String::from_str("remove_hostfxr"),
            params: Vec::new(),
            ret: ParamType::Unit,
        },
    );
    table
}

/// Entry `i` is the first whose name matches.
pub open spec fn spec_first_named(table: Seq<RemoteProcedure>, name: Seq<char>, i: int) -> bool {
    &&& 0 <= i < table.len()
    &&& table[i].name@ == name
    &&& forall|j: int| #![trigger table[j]] 0 <= j < i ==> table[j].name@ != name
}

/// Resolve an export by name against a declared signature: the index of the
/// first entry with that name, provided its declared parameter types and
/// return type match exactly. An absent name and a signature mismatch both
/// answer `ProcedureNotFound`.
pub fn resolve_procedure(
    table: &Vec<RemoteProcedure>,
    name: &String,
    params: &Vec<ParamType>,
    ret: ParamType,
) -> (r: Result<usize, Error>)
    ensures
        match r {
            Ok(i) => {
                &&& spec_first_named(table@, name@, i as int)
                &&& table@[i as int].params@ == params@
                &&& table@[i as int].ret == ret
            },
            Err(e) => {
                &&& e == Error::ProcedureNotFound
                &&& forall|i: int|
                    #[trigger] spec_first_named(table@, name@, i) ==> !(table@[i].params@
                        == params@ && table@[i].ret == ret)
            },
        },
{
    let mut i: usize = 0;
    while i < table.len()
        invariant
            i <= table@.len(),
            forall|j: int| #![trigger table@[j]] 0 <= j < i ==> table@[j].name@ != name@,
        decreases table@.len() - i,
    {
        if table[i].name.eq(name) {
            proof {
                assert(spec_first_named(table@, name@, i as int));
                assert(forall|m: int|
                    #[trigger] spec_first_named(table@, name@, m) ==> m == i as int);
            }
            if table[i].ret == ret && params_match(&table[i].params, params) {
                return Ok(i);
            } else {
                return Err(Error::ProcedureNotFound);
            }
        }
        i = i + 1;
    }
    proof {
        assert(forall|m: int| !(#[trigger] spec_first_named(table@, name@, m)));
    }
    Err(Error::ProcedureNotFound)
}

/// Whether two declared parameter lists agree exactly.
fn params_match(a: &Vec<ParamType>, b: &Vec<ParamType>) -> (r: bool)
    ensures
        r == (a@ == b@),
{
    if a.len() != b.len() {
        return false;
    }
    let mut i: usize = 0;
    while i < a.len()
        invariant
            i <= a@.len(),
            a@.len() == b@.len(),
            forall|j: int| 0 <= j < i ==> a@[j] == b@[j],
        decreases a@.len() - i,
    {
        if a[i] != b[i] {
            return false;
        }
        i = i + 1;
    }
    proof {
        assert(a@ =~= b@);
    }
    true
}

/// What dispatching one named call does to the payload state and answers
/// over the wire. Unit-returning procedures transmit no result payload.
pub open spec fn spec_dispatch(
    state: PayloadState,
    name: Seq<char>,
    blob: Seq<u8>,
    bring_up_ok: bool,
) -> (PayloadState, Result<Seq<u8>, Error>) {
    if name == "load"@ {
        match spec_decode_args(blob, spec_load_schema()) {
            Some(_) => (
                state.spec_step(PayloadEvent::Load(bring_up_ok)),
                Ok(Seq::<u8>::empty()),
            ),
            None => (state, Err(Error::MarshalError)),
        }
    } else if name == "is_unloaded"@ {
        match spec_decode_args(blob, Seq::<ParamType>::empty()) {
            Some(_) => (state, Ok(spec_encode_args(seq![SpecValue::Bool(state.unloaded)]))),
            None => (state, Err(Error::MarshalError)),
        }
    } else if name == "remove_hostfxr"@ {
        match spec_decode_args(blob, Seq::<ParamType>::empty()) {
            Some(_) => (state.spec_step(PayloadEvent::RemoveHost), Ok(Seq::<u8>::empty())),
            None => (state, Err(Error::MarshalError)),
        }
    } else {
        (state, Err(Error::ProcedureNotFound))
    }
}

/// Dispatch one call by name: decode the blob against the named export's
/// schema, invoke the operation, encode the answer. `bring_up_ok` is the
/// outcome of the managed-runtime bring-up the "load" body performs; it
/// shapes the state, never the answer — the caller cannot learn of it.
pub fn dispatch(
    state: &mut PayloadState,
    name: &String,
    blob: &Vec<u8>,
    bring_up_ok: bool,
) -> (r: Result<Vec<u8>, Error>)
    ensures
        *final(state) == spec_dispatch(*old(state), name@, blob@, bring_up_ok).0,
        (match (r, spec_dispatch(*old(state), name@, blob@, bring_up_ok).1) {
            (Ok(v), Ok(bs)) => v@ == bs,
            (Err(e), Err(e2)) => e == e2,
            _ => false,
        }),
{
    let load_name = String::from_str("load");
    let is_unloaded_name = String::from_str("is_unloaded");
    let remove_name = String::from_str("remove_hostfxr");
    if name.eq(&load_name) {
        let mut schema: Vec<ParamType> = Vec::new();
        schema.push(ParamType::Bytes);
        schema.push(ParamType::Bool);
        schema.push(ParamType::Bool);
        proof {
            assert(schema@ =~= spec_load_schema());
        }
        match decode_args(blob, &schema) {
            Ok(_) => {
                state.on_load(bring_up_ok);
                Ok(Vec::new())
            },
            Err(e) => Err(e),
        }
    } else if name.eq(&is_unloaded_name) {
        let schema: Vec<ParamType> = Vec::new();
        match decode_args(blob, &schema) {
            Ok(_) => {
                let b = state.is_unloaded();
                let mut answer: Vec<Value> = Vec::new();
                answer.push(Value::Bool(b));
                proof {
                    assert(seq_view(answer@) =~= seq![SpecValue::Bool(b)]);
                }
                Ok(encode_args(&answer))
            },
            Err(e) => Err(e),
        }
    } else if name.eq(&remove_name) {
        let schema: Vec<ParamType> = Vec::new();
        match decode_args(blob, &schema) {
            Ok(_) => {
                state.remove_host();
                Ok(Vec::new())
            },
            Err(e) => Err(e),
        }
    } else {
        Err(Error::ProcedureNotFound)
    }
}

/// The adapter behaves like a direct in-process call: a blob produced by
/// the matching encoder always decodes, "load" performs exactly the load
/// step, and the answer is the empty payload of a unit return.
pub proof fn lemma_dispatch_load_total(state: PayloadState, vs: Seq<SpecValue>, bring_up_ok: bool)
    requires
        crate::codec::spec_schema_of(vs) == spec_load_schema(),
        forall|i: int| 0 <= i < vs.len() ==> crate::codec::spec_value_fits(#[trigger] vs[i]),
    ensures
        spec_dispatch(state, "load"@, spec_encode_args(vs), bring_up_ok) == (
            state.spec_step(PayloadEvent::Load(bring_up_ok)),
            Ok::<Seq<u8>, Error>(Seq::<u8>::empty()),
        ),
{
    crate::codec::lemma_decode_encode(vs);
}

/// The adapter behaves like a direct read of the flag: an empty blob — the
/// encoding of the empty tuple — always dispatches, leaves the state alone,
/// and answers the encoded unload flag.
pub proof fn lemma_dispatch_is_unloaded_total(state: PayloadState)
    ensures
        spec_dispatch(state, "is_unloaded"@, Seq::<u8>::empty(), false) == (
            state,
            Ok::<Seq<u8>, Error>(spec_encode_args(seq![SpecValue::Bool(state.unloaded)])),
        ),
{
    proof_strings_differ();
}

/// The adapter behaves like a direct teardown: an empty blob always
/// dispatches, performs exactly the remove-host step, and answers the empty
/// payload of a unit return.
pub proof fn lemma_dispatch_remove_host_total(state: PayloadState)
    ensures
        spec_dispatch(state, "remove_hostfxr"@, Seq::<u8>::empty(), false) == (
            state.spec_step(PayloadEvent::RemoveHost),
            Ok::<Seq<u8>, Error>(Seq::<u8>::empty()),
        ),
{
    proof_strings_differ();
}

/// The three wire names are pairwise distinct.
proof fn proof_strings_differ()
    ensures
        "load"@ != "is_unloaded"@,
        "load"@ != "remove_hostfxr"@,
        "is_unloaded"@ != "remove_hostfxr"@,
{
    reveal_strlit("load");
    reveal_strlit("is_unloaded");
    reveal_strlit("remove_hostfxr");
    assert("load"@.len() == 4);
    assert("is_unloaded"@.len() == 11);
    assert("remove_hostfxr"@.len() == 14);
}

} // verus!
