use tfc_state::{DecodeError, JsonValue, Organization, Varset, VarsetVariable, Workspace, WorkspaceVariable};

fn s(x: &str) -> String {
    x.to_string()
}

fn obj(ms: Vec<(&str, JsonValue)>) -> JsonValue {
    JsonValue::Object(ms.into_iter().map(|(k, v)| (s(k), v)).collect())
}

fn st(x: &str) -> JsonValue {
    JsonValue::Str(s(x))
}

#[test]
fn organization_reads_and_displays() {
    let v = obj(vec![
        ("id", st("org-1")),
        ("type", st("organizations")),
        ("attributes", obj(vec![("name", st("acme")), ("email", st("ops@acme.test")), ("plan", st("free"))])),
        ("links", obj(vec![])),
    ]);
    let o = match Organization::from_json(v) {
        Ok(o) => o,
        Err(_) => panic!("organization refused"),
    };
    assert_eq!(o.to_string(), "acme (org-1)");
    assert_eq!(o.attributes.email, "ops@acme.test");
    assert_eq!(o.attributes.extra.len(), 1);
    assert_eq!(o.attributes.extra[0].0, "plan");
    assert_eq!(o.extra.len(), 1);
    assert_eq!(o.extra[0].0, "links");
}

#[test]
fn organization_without_email_names_it() {
    let v = obj(vec![
        ("id", st("org-1")),
        ("type", st("organizations")),
        ("attributes", obj(vec![("name", st("acme"))])),
    ]);
    match Organization::from_json(v) {
        Err(DecodeError::Field(f)) => assert_eq!(f, "email"),
        _ => panic!("expected a field error"),
    }
}

#[test]
fn workspace_reads_and_displays() {
    let v = obj(vec![
        ("id", st("ws-1")),
        ("type", st("workspaces")),
        ("attributes", obj(vec![("name", st("prod"))])),
    ]);
    let w = match Workspace::from_json(v) {
        Ok(w) => w,
        Err(_) => panic!("workspace refused"),
    };
    assert_eq!(w.to_string(), "prod (ws-1)");
    match Workspace::from_json(obj(vec![("id", st("ws-1"))])) {
        Err(DecodeError::Field(f)) => assert_eq!(f, "type"),
        _ => panic!("expected a field error"),
    }
}

#[test]
fn workspace_variable_reads() {
    let v = obj(vec![
        ("id", st("var-1")),
        ("type", st("vars")),
        (
            "attributes",
            obj(vec![
                ("key", st("region")),
                ("value", JsonValue::Null),
                ("category", st("terraform")),
                ("sensitive", JsonValue::Bool(true)),
                ("hcl", JsonValue::Bool(false)),
            ]),
        ),
    ]);
    let w = match WorkspaceVariable::from_json(v) {
        Ok(w) => w,
        Err(_) => panic!("variable refused"),
    };
    let a = w.attributes.unwrap();
    assert_eq!(a.key, "region");
    assert_eq!(a.value, None);
    assert_eq!(a.category, "terraform");
    assert!(a.sensitive);
    assert!(!a.hcl);
}

#[test]
fn workspace_variable_with_bad_flag() {
    let v = obj(vec![
        ("id", st("var-1")),
        ("type", st("vars")),
        (
            "attributes",
            obj(vec![
                ("key", st("region")),
                ("category", st("env")),
                ("sensitive", st("yes")),
                ("hcl", JsonValue::Bool(false)),
            ]),
        ),
    ]);
    match WorkspaceVariable::from_json(v) {
        Err(DecodeError::Field(f)) => assert_eq!(f, "sensitive"),
        _ => panic!("expected a field error"),
    }
}

fn varset_variable(id: &str, key: &str) -> JsonValue {
    obj(vec![
        ("id", st(id)),
        ("type", st("vars")),
        ("attributes", obj(vec![("key", st(key)), ("value", st("v"))])),
    ])
}

#[test]
fn varset_reads_its_variables() {
    let v = obj(vec![
        ("id", st("varset-1")),
        ("type", st("varsets")),
        ("attributes", obj(vec![("name", st("shared")), ("global", JsonValue::Bool(true))])),
        (
            "relationships",
            obj(vec![
                ("vars", obj(vec![("data", JsonValue::Array(vec![varset_variable("v1", "a"), varset_variable("v2", "b")]))])),
                ("workspaces", obj(vec![])),
            ]),
        ),
    ]);
    let x = match Varset::from_json(v) {
        Ok(x) => x,
        Err(_) => panic!("varset refused"),
    };
    assert_eq!(x.attributes.name, "shared");
    assert!(x.attributes.global);
    assert_eq!(x.relationships.vars.data.len(), 2);
    assert_eq!(x.relationships.vars.data[1].id, "v2");
    assert_eq!(x.relationships.vars.data[1].attributes.as_ref().unwrap().key, "b");
    assert_eq!(x.relationships.extra.len(), 1);
    assert_eq!(x.relationships.extra[0].0, "workspaces");
}

#[test]
fn varset_with_bad_variable_is_refused() {
    let v = obj(vec![
        ("id", st("varset-1")),
        ("type", st("varsets")),
        ("attributes", obj(vec![("name", st("shared")), ("global", JsonValue::Bool(false))])),
        ("relationships", obj(vec![("vars", obj(vec![("data", JsonValue::Array(vec![JsonValue::Null]))]))])),
    ]);
    assert!(matches!(Varset::from_json(v), Err(DecodeError::NotAnObject)));
}

#[test]
fn varset_variable_without_attributes() {
    let v = obj(vec![("id", st("v1")), ("type", st("vars")), ("other", st("dropped"))]);
    let x = match VarsetVariable::from_json(v) {
        Ok(x) => x,
        Err(_) => panic!("variable refused"),
    };
    assert!(x.attributes.is_none());
    assert_eq!(x.id, "v1");
}
