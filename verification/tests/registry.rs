use goalnet::codec::{encode_args, ParamType, Value};
use goalnet::errors::Error;
use goalnet::payload::PayloadState;
use goalnet::registry::{dispatch, payload_exports, resolve_procedure};

#[test]
fn exports_carry_the_wire_names() {
    let table = payload_exports();
    let names: Vec<&str> = table.iter().map(|p| p.name.as_str()).collect();
    assert_eq!(names, vec!["load", "is_unloaded", "remove_hostfxr"]);
}

#[test]
fn resolve_finds_load_with_matching_signature() {
    let table = payload_exports();
    let r = resolve_procedure(
        &table,
        &String::from("load"),
        &vec![ParamType::Bytes, ParamType::Bool, ParamType::Bool],
        ParamType::Unit,
    );
    assert_eq!(r, Ok(0));
}

#[test]
fn resolve_rejects_signature_mismatch() {
    let table = payload_exports();
    let r = resolve_procedure(&table, &String::from("load"), &Vec::new(), ParamType::Unit);
    assert_eq!(r, Err(Error::ProcedureNotFound));
}

#[test]
fn resolve_rejects_absent_name() {
    let table = payload_exports();
    let r = resolve_procedure(&table, &String::from("unload"), &Vec::new(), ParamType::Unit);
    assert_eq!(r, Err(Error::ProcedureNotFound));
}

#[test]
fn dispatch_load_decodes_and_activates_hosting() {
    let mut state = PayloadState::new();
    let blob = encode_args(&vec![
        Value::Bytes(b"C:/cfg/app.toml".to_vec()),
        Value::Bool(false),
        Value::Bool(true),
    ]);
    let r = dispatch(&mut state, &String::from("load"), &blob, true);
    assert_eq!(r, Ok(Vec::new()));
    assert!(state.hosting_active);
}

#[test]
fn dispatch_load_hides_bring_up_failure_from_the_answer() {
    let mut state = PayloadState::new();
    let blob = encode_args(&vec![
        Value::Bytes(b"C:/cfg/app.toml".to_vec()),
        Value::Bool(true),
        Value::Bool(false),
    ]);
    let r = dispatch(&mut state, &String::from("load"), &blob, false);
    assert_eq!(r, Ok(Vec::new()));
    assert!(!state.hosting_active);
}

#[test]
fn dispatch_is_unloaded_answers_the_flag() {
    let mut state = PayloadState::new();
    state.mark_unloaded();
    let r = dispatch(&mut state, &String::from("is_unloaded"), &Vec::new(), false);
    assert_eq!(r, Ok(vec![1u8, 1u8]));
    let mut fresh = PayloadState::new();
    let r2 = dispatch(&mut fresh, &String::from("is_unloaded"), &Vec::new(), false);
    assert_eq!(r2, Ok(vec![1u8, 0u8]));
}

#[test]
fn dispatch_remove_host_resets_the_state() {
    let mut state = PayloadState::new();
    state.on_load(true);
    state.mark_unloaded();
    let r = dispatch(&mut state, &String::from("remove_hostfxr"), &Vec::new(), false);
    assert_eq!(r, Ok(Vec::new()));
    assert!(!state.hosting_active);
    assert!(!state.is_unloaded());
}

#[test]
fn dispatch_rejects_mismatched_blob() {
    let mut state = PayloadState::new();
    let blob = vec![9u8, 9u8, 9u8];
    let r = dispatch(&mut state, &String::from("load"), &blob, true);
    assert_eq!(r, Err(Error::MarshalError));
    assert!(!state.hosting_active);
}

#[test]
fn dispatch_rejects_unknown_name() {
    let mut state = PayloadState::new();
    let r = dispatch(&mut state, &String::from("reload"), &Vec::new(), true);
    assert_eq!(r, Err(Error::ProcedureNotFound));
}
