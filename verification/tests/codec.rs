use goalnet::codec::{decode_args, encode_args, ParamType, Value};
use goalnet::errors::Error;

fn schema_of(values: &[Value]) -> Vec<ParamType> {
    values
        .iter()
        .map(|v| match v {
            Value::Unit => ParamType::Unit,
            Value::Bool(_) => ParamType::Bool,
            Value::Bytes(_) => ParamType::Bytes,
        })
        .collect()
}

#[test]
fn round_trip_mixed_tuple() {
    let tuple = vec![
        Value::Bytes(vec![1, 2, 3]),
        Value::Bool(true),
        Value::Unit,
        Value::Bool(false),
        Value::Bytes(vec![]),
    ];
    let blob = encode_args(&tuple);
    let schema = schema_of(&tuple);
    let decoded = decode_args(&blob, &schema).expect("matching encoder output must decode");
    assert_eq!(decoded, tuple);
}

#[test]
fn round_trip_empty_tuple() {
    let tuple: Vec<Value> = vec![];
    let blob = encode_args(&tuple);
    assert!(blob.is_empty());
    let decoded = decode_args(&blob, &Vec::new()).expect("empty blob matches empty schema");
    assert_eq!(decoded, tuple);
}

#[test]
fn wire_bytes_are_exact() {
    assert_eq!(encode_args(&vec![Value::Unit]), vec![0u8]);
    assert_eq!(encode_args(&vec![Value::Bool(true)]), vec![1u8, 1u8]);
    assert_eq!(encode_args(&vec![Value::Bool(false)]), vec![1u8, 0u8]);
    assert_eq!(
        encode_args(&vec![Value::Bytes(vec![0xab, 0xcd])]),
        vec![2u8, 2, 0, 0, 0, 0, 0, 0, 0, 0xab, 0xcd]
    );
}

#[test]
fn decode_rejects_schema_mismatch() {
    let blob = encode_args(&vec![Value::Bool(true)]);
    let r = decode_args(&blob, &vec![ParamType::Bytes]);
    assert_eq!(r, Err(Error::MarshalError));
}

#[test]
fn decode_rejects_trailing_bytes() {
    let mut blob = encode_args(&vec![Value::Unit]);
    blob.push(7);
    let r = decode_args(&blob, &vec![ParamType::Unit]);
    assert_eq!(r, Err(Error::MarshalError));
}

#[test]
fn decode_rejects_truncated_byte_sequence() {
    let mut blob = encode_args(&vec![Value::Bytes(vec![9, 9, 9])]);
    blob.pop();
    let r = decode_args(&blob, &vec![ParamType::Bytes]);
    assert_eq!(r, Err(Error::MarshalError));
}

#[test]
fn decode_rejects_bad_bool_payload() {
    let blob = vec![1u8, 2u8];
    let r = decode_args(&blob, &vec![ParamType::Bool]);
    assert_eq!(r, Err(Error::MarshalError));
}
