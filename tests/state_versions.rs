use base64::Engine;
use md5::Digest;
use tfc_state::{
    state_version_from_reply, CreateStateVersionInput, DecodeError, EnvelopeError, JsonValue,
    ReplyError, RequestError, StateVersion, TerraformResource, TerraformState,
    TerraformStateOutput,
};

fn s(x: &str) -> String {
    x.to_string()
}

fn obj(ms: Vec<(&str, JsonValue)>) -> JsonValue {
    JsonValue::Object(ms.into_iter().map(|(k, v)| (s(k), v)).collect())
}

fn minimal_state() -> TerraformState {
    TerraformState {
        version: 4,
        terraform_version: s("1.5.0"),
        serial: 1,
        lineage: s("abc"),
        outputs: vec![],
        resources: vec![],
    }
}

const MINIMAL_TEXT: &str = "{\"version\":4,\"terraform_version\":\"1.5.0\",\"serial\":1,\"lineage\":\"abc\",\"outputs\":{},\"resources\":[]}";

fn resource(mode: &str, module: Option<&str>, ty: &str, name: &str) -> TerraformResource {
    TerraformResource {
        type_: s(ty),
        name: s(name),
        provider: s("provider[\"registry.terraform.io/hashicorp/aws\"]"),
        mode: s(mode),
        instances: vec![],
        module: module.map(s),
        extra: vec![],
    }
}

#[test]
fn display_data_resource_in_module() {
    let r = resource("data", Some("net"), "aws_vpc", "main");
    assert_eq!(r.to_string(), "data.net.aws_vpc.main");
}

#[test]
fn display_managed_resource_without_module() {
    let r = resource("managed", None, "aws_instance", "web");
    assert_eq!(r.to_string(), "aws_instance.web");
}

#[test]
fn canonical_encoding_of_minimal_state() {
    assert_eq!(minimal_state().to_json(), MINIMAL_TEXT);
}

#[test]
fn canonical_encoding_is_deterministic() {
    let a = minimal_state().to_json();
    let b = minimal_state().to_json();
    assert_eq!(a, b);
    assert_eq!(minimal_state().md5(), minimal_state().md5());
}

#[test]
fn fingerprint_of_minimal_state() {
    let expected = format!("{:x}", md5::Md5::digest(MINIMAL_TEXT.as_bytes()));
    let got = minimal_state().md5();
    assert_eq!(got, expected);
    assert_eq!(got.len(), 32);
    assert!(got.chars().all(|c| c.is_ascii_digit() || ('a'..='f').contains(&c)));
}

#[test]
fn fingerprint_changes_with_serial() {
    let mut other = minimal_state();
    other.serial = 2;
    assert_ne!(other.md5(), minimal_state().md5());
}

#[test]
fn transport_encoding_is_unpadded_base64() {
    let got = minimal_state().to_base64_encoded_json();
    let expected = base64::engine::general_purpose::STANDARD_NO_PAD.encode(MINIMAL_TEXT);
    assert_eq!(got, expected);
    assert!(!got.contains('='));
    assert_ne!(got, MINIMAL_TEXT);
}

#[test]
fn canonical_encoding_of_outputs_and_resources() {
    let mut st = minimal_state();
    st.serial = 1234567890;
    st.outputs = vec![(
        s("ip"),
        TerraformStateOutput {
            sensitive: None,
            type_: JsonValue::Str(s("string")),
            value: JsonValue::Str(s("10.0.0.1")),
        },
    )];
    let mut r = resource("managed", None, "aws_instance", "web");
    r.instances = vec![obj(vec![("schema_version", JsonValue::Number(s("0")))])];
    st.resources = vec![r];
    let expected = "{\"version\":4,\"terraform_version\":\"1.5.0\",\"serial\":1234567890,\"lineage\":\"abc\",\
\"outputs\":{\"ip\":{\"sensitive\":null,\"type\":\"string\",\"value\":\"10.0.0.1\"}},\
\"resources\":[{\"type\":\"aws_instance\",\"name\":\"web\",\
\"provider\":\"provider[\\\"registry.terraform.io/hashicorp/aws\\\"]\",\
\"mode\":\"managed\",\"instances\":[{\"schema_version\":0}],\"module\":null}]}";
    assert_eq!(st.to_json(), expected);
}

#[test]
fn resource_round_trip_keeps_extra_members() {
    let payload = obj(vec![
        ("module", JsonValue::Str(s("module.net"))),
        ("mode", JsonValue::Str(s("managed"))),
        ("type", JsonValue::Str(s("aws_vpc"))),
        ("name", JsonValue::Str(s("main"))),
        ("provider", JsonValue::Str(s("aws"))),
        ("each", JsonValue::Str(s("list"))),
        ("instances", JsonValue::Array(vec![JsonValue::Bool(true)])),
        ("future", obj(vec![("x", JsonValue::Number(s("1.5")))])),
    ]);
    let r = match TerraformResource::from_json(payload) {
        Ok(r) => r,
        Err(_) => panic!("decoding failed"),
    };
    assert_eq!(r.extra.len(), 2);
    assert_eq!(r.extra[0].0, "each");
    assert_eq!(r.extra[1].0, "future");
    assert_eq!(
        r.to_json(),
        "{\"type\":\"aws_vpc\",\"name\":\"main\",\"provider\":\"aws\",\"mode\":\"managed\",\"instances\":[true],\"module\":\"module.net\",\"each\":\"list\",\"future\":{\"x\":1.5}}"
    );
}

#[test]
fn resource_decoding_names_the_bad_field() {
    let payload = obj(vec![
        ("type", JsonValue::Str(s("aws_vpc"))),
        ("name", JsonValue::Number(s("3"))),
    ]);
    match TerraformResource::from_json(payload) {
        Err(DecodeError::Field(f)) => assert_eq!(f, "name"),
        _ => panic!("expected a field error"),
    }
    assert!(matches!(
        TerraformResource::from_json(JsonValue::Null),
        Err(DecodeError::NotAnObject)
    ));
}

#[test]
fn builder_without_state_fails_naming_state() {
    let b = CreateStateVersionInput::builder().md5(s("d41d8cd98f00b204e9800998ecf8427e")).serial(1);
    match b.build() {
        Err(e) => {
            assert_eq!(e, RequestError::StateRequired);
            assert_eq!(e.message(), "state is required");
        }
        Ok(_) => panic!("a request without state was built"),
    }
}

#[test]
fn builder_checks_md5_then_serial() {
    let b = CreateStateVersionInput::builder().state(s("e30"));
    match CreateStateVersionInput::try_from_builder(b) {
        Err(e) => {
            assert_eq!(e, RequestError::Md5Required);
            assert_eq!(e.message(), "md5 is required");
        }
        Ok(_) => panic!("built without md5"),
    }
    let b = CreateStateVersionInput::builder().state(s("e30")).md5(s("m"));
    match b.build() {
        Err(e) => {
            assert_eq!(e, RequestError::SerialRequired);
            assert_eq!(e.message(), "serial is required");
        }
        Ok(_) => panic!("built without serial"),
    }
}

#[test]
fn builder_with_required_fields_omits_relationships() {
    let b = CreateStateVersionInput::builder().md5(s("abc")).serial(7).state(s("e30"));
    let input = match b.build() {
        Ok(i) => i,
        Err(_) => panic!("build failed"),
    };
    let body = input.to_json();
    assert_eq!(
        body,
        "{\"data\":{\"type\":\"state-versions\",\"attributes\":{\"md5\":\"abc\",\"serial\":7,\"lineage\":null,\"state\":\"e30\",\"json-state\":null,\"json-state-outputs\":null}}}"
    );
    assert!(!body.contains("relationships"));
}

#[test]
fn builder_with_run_adds_relationship() {
    let b = CreateStateVersionInput::builder()
        .md5(s("abc"))
        .serial(7)
        .state(s("e30"))
        .lineage(s("lin"))
        .run_id(s("run-1"));
    let input = match b.build() {
        Ok(i) => i,
        Err(_) => panic!("build failed"),
    };
    assert_eq!(
        input.to_json(),
        "{\"data\":{\"type\":\"state-versions\",\"attributes\":{\"md5\":\"abc\",\"serial\":7,\"lineage\":\"lin\",\"state\":\"e30\",\"json-state\":null,\"json-state-outputs\":null},\"relationships\":{\"run\":{\"data\":{\"type\":\"runs\",\"id\":\"run-1\"}}}}}"
    );
}

#[test]
fn request_from_state_derives_fields() {
    let st = minimal_state();
    let input = match CreateStateVersionInput::try_from_state(&st) {
        Ok(i) => i,
        Err(_) => panic!("conversion failed"),
    };
    let a = &input.data.attributes;
    assert_eq!(a.md5, st.md5());
    assert_eq!(a.serial, 1);
    assert_eq!(a.lineage, Some(s("abc")));
    assert_eq!(a.state, st.to_base64_encoded_json());
    assert!(input.data.relationships.is_none());
}

fn state_version_object(with_attributes: bool) -> JsonValue {
    let mut ms = vec![
        ("id", JsonValue::Str(s("sv-1"))),
        ("type", JsonValue::Str(s("state-versions"))),
        ("links", obj(vec![("self", JsonValue::Str(s("/sv-1")))])),
    ];
    if with_attributes {
        ms.push((
            "attributes",
            obj(vec![
                ("created-at", JsonValue::Str(s("2024-01-01T00:00:00Z"))),
                ("hosted-json-state-download-url", JsonValue::Str(s("https://j"))),
                ("hosted-state-download-url", JsonValue::Str(s("https://s"))),
                ("size", JsonValue::Number(s("10"))),
            ]),
        ));
    }
    obj(ms)
}

#[test]
fn state_version_reply_decodes() {
    let doc = obj(vec![("data", state_version_object(true))]);
    let sv: StateVersion = match state_version_from_reply(doc) {
        Ok(sv) => sv,
        Err(_) => panic!("reply refused"),
    };
    assert_eq!(sv.id, "sv-1");
    assert_eq!(sv.type_, "state-versions");
    let a = sv.attributes.unwrap();
    assert_eq!(a.created_at, "2024-01-01T00:00:00Z");
    assert_eq!(a.hosted_json_state_download_url, "https://j");
    assert_eq!(a.hosted_state_download_url, "https://s");
    assert_eq!(sv.extra.len(), 1);
    assert_eq!(sv.extra[0].0, "links");
}

#[test]
fn state_version_without_attributes() {
    let sv = match StateVersion::from_json(state_version_object(false)) {
        Ok(sv) => sv,
        Err(_) => panic!("refused"),
    };
    assert!(sv.attributes.is_none());
}

#[test]
fn state_version_reply_errors() {
    let doc = obj(vec![("data", JsonValue::Array(vec![state_version_object(true)]))]);
    assert!(matches!(
        state_version_from_reply(doc),
        Err(ReplyError::Envelope(EnvelopeError::ExpectedSingle))
    ));
    let doc = obj(vec![("errors", JsonValue::Array(vec![]))]);
    assert!(matches!(
        state_version_from_reply(doc),
        Err(ReplyError::Envelope(EnvelopeError::Server(_)))
    ));
    let doc = obj(vec![("data", obj(vec![("id", JsonValue::Str(s("x")))]))]);
    match state_version_from_reply(doc) {
        Err(ReplyError::Decode(DecodeError::Field(f))) => assert_eq!(f, "type"),
        _ => panic!("expected a decode error"),
    }
}

fn state_object(version: &str, serial: &str) -> JsonValue {
    obj(vec![
        ("version", JsonValue::Number(s(version))),
        ("terraform_version", JsonValue::Str(s("1.5.0"))),
        ("serial", JsonValue::Number(s(serial))),
        ("lineage", JsonValue::Str(s("abc"))),
        (
            "outputs",
            obj(vec![(
                "ip",
                obj(vec![
                    ("value", JsonValue::Str(s("10.0.0.1"))),
                    ("type", JsonValue::Str(s("string"))),
                ]),
            )]),
        ),
        (
            "resources",
            JsonValue::Array(vec![obj(vec![
                ("mode", JsonValue::Str(s("data"))),
                ("type", JsonValue::Str(s("aws_vpc"))),
                ("name", JsonValue::Str(s("main"))),
                ("provider", JsonValue::Str(s("aws"))),
                ("instances", JsonValue::Array(vec![])),
                ("module", JsonValue::Str(s("net"))),
            ])]),
        ),
        ("check_results", JsonValue::Null),
    ])
}

#[test]
fn state_document_reads() {
    let st = match TerraformState::from_json(state_object("4", "18446744073709551615")) {
        Ok(st) => st,
        Err(_) => panic!("state refused"),
    };
    assert_eq!(st.version, 4);
    assert_eq!(st.serial, u64::MAX);
    assert_eq!(st.outputs.len(), 1);
    assert_eq!(st.outputs[0].0, "ip");
    assert_eq!(st.outputs[0].1.sensitive, None);
    assert_eq!(st.resources.len(), 1);
    assert_eq!(st.resources[0].to_string(), "data.net.aws_vpc.main");
}

#[test]
fn state_document_numbers_must_be_plain_u64() {
    for bad in ["18446744073709551616", "007", "-1", "1.0", ""] {
        match TerraformState::from_json(state_object("4", bad)) {
            Err(DecodeError::Field(f)) => assert_eq!(f, "serial"),
            _ => panic!("serial {bad} accepted"),
        }
    }
    match TerraformState::from_json(state_object("x", "1")) {
        Err(DecodeError::Field(f)) => assert_eq!(f, "version"),
        _ => panic!("version accepted"),
    }
}

#[test]
fn state_document_round_trips_through_canonical_text() {
    let st = match TerraformState::from_json(state_object("4", "1")) {
        Ok(st) => st,
        Err(_) => panic!("state refused"),
    };
    assert_eq!(
        st.to_json(),
        "{\"version\":4,\"terraform_version\":\"1.5.0\",\"serial\":1,\"lineage\":\"abc\",\"outputs\":{\"ip\":{\"sensitive\":null,\"type\":\"string\",\"value\":\"10.0.0.1\"}},\"resources\":[{\"type\":\"aws_vpc\",\"name\":\"main\",\"provider\":\"aws\",\"mode\":\"data\",\"instances\":[],\"module\":\"net\"}]}"
    );
}

#[test]
fn default_builder_is_empty() {
    let b = tfc_state::CreateStateVersionInputBuilder::default();
    assert!(b.md5.is_none() && b.serial.is_none() && b.state.is_none() && b.run_id.is_none());
    assert!(matches!(b.build(), Err(RequestError::Md5Required)));
}
