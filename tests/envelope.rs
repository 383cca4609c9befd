use tfc_state::{resolve, EnvelopeError, JsonValue, TerraformData, TerraformResult};

fn s(x: &str) -> String {
    x.to_string()
}

fn obj(ms: Vec<(&str, JsonValue)>) -> JsonValue {
    JsonValue::Object(ms.into_iter().map(|(k, v)| (s(k), v)).collect())
}

fn id_one() -> JsonValue {
    obj(vec![("id", JsonValue::Str(s("1")))])
}

fn list_doc() -> JsonValue {
    obj(vec![("data", JsonValue::Array(vec![id_one()]))])
}

fn single_doc() -> JsonValue {
    obj(vec![("data", id_one())])
}

fn errors_doc() -> JsonValue {
    obj(vec![(
        "errors",
        JsonValue::Array(vec![obj(vec![("detail", JsonValue::Str(s("x")))])]),
    )])
}

fn id_of(v: &JsonValue) -> String {
    match v {
        JsonValue::Object(ms) => match &ms[0].1 {
            JsonValue::Str(t) => t.clone(),
            _ => panic!("id is not a string"),
        },
        _ => panic!("not an object"),
    }
}

#[test]
fn list_payload_resolves_as_list() {
    let items = resolve(list_doc()).ok().unwrap().to_list().ok().unwrap();
    assert_eq!(items.len(), 1);
    assert_eq!(id_of(&items[0]), "1");
}

#[test]
fn list_payload_refused_as_single() {
    let r = resolve(list_doc()).ok().unwrap().to_unique();
    assert!(matches!(r, Err(EnvelopeError::ExpectedSingle)));
}

#[test]
fn single_payload_resolves_as_single() {
    let item = resolve(single_doc()).ok().unwrap().to_unique().ok().unwrap();
    assert_eq!(id_of(&item), "1");
}

#[test]
fn single_payload_refused_as_list() {
    let r = resolve(single_doc()).ok().unwrap().to_list();
    assert!(matches!(r, Err(EnvelopeError::ExpectedList)));
}

#[test]
fn errors_payload_is_an_error_as_single() {
    let r = resolve(errors_doc()).ok().unwrap();
    assert!(matches!(r, TerraformResult::Error { .. }));
    assert!(matches!(r.to_unique(), Err(EnvelopeError::Server(JsonValue::Array(_)))));
}

#[test]
fn errors_payload_is_an_error_as_list() {
    let r = resolve(errors_doc()).ok().unwrap().to_list();
    assert!(matches!(r, Err(EnvelopeError::Server(JsonValue::Array(_)))));
}

#[test]
fn errors_take_precedence_over_data() {
    let doc = obj(vec![
        ("data", id_one()),
        ("errors", JsonValue::Array(vec![])),
    ]);
    let r = resolve(doc).ok().unwrap();
    assert!(matches!(r, TerraformResult::Error { .. }));
}

#[test]
fn document_without_envelope_is_malformed() {
    assert!(matches!(resolve(JsonValue::Null), Err(EnvelopeError::Malformed)));
    let doc = obj(vec![("meta", JsonValue::Null)]);
    assert!(matches!(resolve(doc), Err(EnvelopeError::Malformed)));
    let doc = obj(vec![("data", JsonValue::Str(s("x")))]);
    assert!(matches!(resolve(doc), Err(EnvelopeError::Malformed)));
}

#[test]
fn to_data_passes_data_through() {
    let r = resolve(list_doc()).ok().unwrap().to_data();
    assert!(matches!(r, Ok(TerraformData::ResourceList(_))));
}
