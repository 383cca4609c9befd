//! The request body that creates a state version, and its builder.
use vstd::prelude::*;
use crate::json::{decimal, json_quoted, quote, write_decimal};
use crate::state::{
    base64_of, fingerprint_text, opt_str_text, state_text, write_opt_str, TerraformState,
};

verus! {

broadcast use vstd::string::to_string_from_display_ensures_for_str;

/// A field that a request cannot do without.
#[derive(PartialEq, Eq, Structural, Debug, Clone, Copy)]
pub enum RequestError {
    Md5Required,
    SerialRequired,
    StateRequired,
}

impl RequestError {
    /// The name of the missing field.
    pub open spec fn field_spec(self) -> Seq<char> {
        match self {
            RequestError::Md5Required => "md5"@,
            RequestError::SerialRequired => "serial"@,
            RequestError::StateRequired => "state"@,
        }
    }

    /// `"<field> is required"`.
    pub fn message(&self) -> (r: String)
        ensures
            r@ == self.field_spec() + " is required"@,
    {
        let mut out = String::new();
        match self {
            RequestError::Md5Required => out.append("md5"),
            RequestError::SerialRequired => out.append("serial"),
            RequestError::StateRequired => out.append("state"),
        }
        out.append(" is required");
        out
    }
}

/// The request body that creates a state version.
#[derive(Debug)]
pub struct CreateStateVersionInput {
    pub data: CreateStateVersionInputData,
}

#[derive(Debug)]
pub struct CreateStateVersionInputData {
    pub type_: String,
    pub attributes: CreateStateVersionInputAttributes,
    pub relationships: Option<CreateStateVersionInputRelationships>,
}

#[derive(Debug)]
pub struct CreateStateVersionInputAttributes {
    pub md5: String,
    pub serial: u64,
    pub lineage: Option<String>,
    pub state: String,
    pub json_state: Option<String>,
    pub json_state_outputs: Option<String>,
}

/// The run that produced a state version.
#[derive(Debug)]
pub struct CreateStateVersionInputRelationships {
    pub run: CreateStateVersionInputRunRelationship,
}

#[derive(Debug)]
pub struct CreateStateVersionInputRunRelationship {
    pub data: CreateStateVersionInputRelationshipData,
}

#[derive(Debug)]
pub struct CreateStateVersionInputRelationshipData {
    pub type_: String,
    pub id: String,
}

/// Collects the fields of a request; `build` checks that the required ones
/// are there.
#[derive(Debug)]
pub struct CreateStateVersionInputBuilder {
    pub lineage: Option<String>,
    pub md5: Option<String>,
    pub serial: Option<u64>,
    pub state: Option<String>,
    pub json_state: Option<String>,
    pub json_state_outputs: Option<String>,
    pub run_id: Option<String>,
}

/// The error that building from `b` gives, if any: the first missing
/// required field, in the order md5, serial, state.
pub open spec fn missing_field(b: CreateStateVersionInputBuilder) -> Option<RequestError> {
    if b.md5 is None {
        Some(RequestError::Md5Required)
    } else if b.serial is None {
        Some(RequestError::SerialRequired)
    } else if b.state is None {
        Some(RequestError::StateRequired)
    } else {
        None
    }
}

/// `r` carries exactly the fields that were collected in `b`.
pub open spec fn built_from(b: CreateStateVersionInputBuilder, r: CreateStateVersionInput) -> bool {
    &&& r.data.type_@ == "state-versions"@
    &&& b.md5 == Some(r.data.attributes.md5)
    &&& b.serial == Some(r.data.attributes.serial)
    &&& b.state == Some(r.data.attributes.state)
    &&& r.data.attributes.lineage == b.lineage
    &&& r.data.attributes.json_state == b.json_state
    &&& r.data.attributes.json_state_outputs == b.json_state_outputs
    &&& match b.run_id {
        None => r.data.relationships is None,
        Some(id) => {
            &&& r.data.relationships is Some
            &&& r.data.relationships->Some_0.run.data.type_@ == "runs"@
            &&& r.data.relationships->Some_0.run.data.id == id
        },
    }
}

/// The encoding of the attributes, members in declaration order with
/// kebab-case names.
pub open spec fn attributes_text(a: CreateStateVersionInputAttributes) -> Seq<char> {
    "{\"md5\":"@ + json_quoted(a.md5@) + ",\"serial\":"@ + decimal(a.serial as nat)
        + ",\"lineage\":"@ + opt_str_text(a.lineage) + ",\"state\":"@ + json_quoted(a.state@)
        + ",\"json-state\":"@ + opt_str_text(a.json_state) + ",\"json-state-outputs\":"@
        + opt_str_text(a.json_state_outputs) + "}"@
}

/// The `relationships` member, or nothing at all when there is no run.
pub open spec fn relationships_text(o: Option<CreateStateVersionInputRelationships>) -> Seq<
    char,
> {
    match o {
        None => Seq::empty(),
        Some(rel) => ",\"relationships\":{\"run\":{\"data\":{\"type\":"@ + json_quoted(
            rel.run.data.type_@,
        ) + ",\"id\":"@ + json_quoted(rel.run.data.id@) + "}}}"@,
    }
}

/// The encoding of a request body.
pub open spec fn request_text(r: CreateStateVersionInput) -> Seq<char> {
    "{\"data\":{\"type\":"@ + json_quoted(r.data.type_@) + ",\"attributes\":"@ + attributes_text(
        r.data.attributes,
    ) + relationships_text(r.data.relationships) + "}}"@
}

impl CreateStateVersionInput {
    /// An empty builder.
    pub fn builder() -> (r: CreateStateVersionInputBuilder)
        ensures
            r.lineage is None,
            r.md5 is None,
            r.serial is None,
            r.state is None,
            r.json_state is None,
            r.json_state_outputs is None,
            r.run_id is None,
    {
        CreateStateVersionInputBuilder {
            lineage: None,
            md5: None,
            serial: None,
            state: None,
            json_state: None,
            json_state_outputs: None,
            run_id: None,
        }
    }

    /// Checks that md5, serial and state were given, in that order, and
    /// builds the request from the collected fields.
    pub fn try_from_builder(b: CreateStateVersionInputBuilder) -> (r: Result<
        CreateStateVersionInput,
        RequestError,
    >)
        ensures
            match r {
                Ok(v) => missing_field(b) is None && built_from(b, v),
                Err(e) => missing_field(b) == Some(e),
            },
    {
        let md5 = match b.md5 {
            Some(m) => m,
            None => return Err(RequestError::Md5Required),
        };
        let serial = match b.serial {
            Some(n) => n,
            None => return Err(RequestError::SerialRequired),
        };
        let state = match b.state {
            Some(t) => t,
            None => return Err(RequestError::StateRequired),
        };
        let relationships = match b.run_id {
            Some(id) => Some(
                CreateStateVersionInputRelationships {
                    run: CreateStateVersionInputRunRelationship {
                        data: CreateStateVersionInputRelationshipData {
                            type_: "runs".to_string(),
                            id,
                        },
                    },
                },
            ),
            None => None,
        };
        Ok(
            CreateStateVersionInput {
                data: CreateStateVersionInputData {
                    type_: "state-versions".to_string(),
                    attributes: CreateStateVersionInputAttributes {
                        md5,
                        serial,
                        lineage: b.lineage,
                        state,
                        json_state: b.json_state,
                        json_state_outputs: b.json_state_outputs,
                    },
                    relationships,
                },
            },
        )
    }

    /// Builds the request for a state document: its lineage, fingerprint,
    /// serial and transport encoding.
    pub fn try_from_state(state: &TerraformState) -> (r: Result<
        CreateStateVersionInput,
        RequestError,
    >)
        ensures
            r is Ok,
            r matches Ok(v) && {
                &&& v.data.type_@ == "state-versions"@
                &&& v.data.attributes.md5@ == fingerprint_text(*state)
                &&& v.data.attributes.serial == state.serial
                &&& v.data.attributes.state@ == base64_of(state_text(*state))
                &&& v.data.attributes.lineage == Some(state.lineage)
                &&& v.data.attributes.json_state is None
                &&& v.data.attributes.json_state_outputs is None
                &&& v.data.relationships is None
            },
    {
        let mut builder = CreateStateVersionInput::builder();
        builder.lineage = Some(state.lineage.clone());
        builder.md5 = Some(state.md5());
        builder.serial = Some(state.serial);
        builder.state = Some(state.to_base64_encoded_json());
        CreateStateVersionInput::try_from_builder(builder)
    }

    /// The request body as compact JSON; without a run the
    /// `relationships` member is left out.
    pub fn to_json(&self) -> (r: String)
        ensures
            r@ == request_text(*self),
    {
        let a = &self.data.attributes;
        let mut out = String::new();
        out.append("{\"data\":{\"type\":");
        out.append(quote(self.data.type_.as_str()).as_str());
        out.append(",\"attributes\":");
        let ghost attrs_start = out@;
        out.append("{\"md5\":");
        out.append(quote(a.md5.as_str()).as_str());
        out.append(",\"serial\":");
        write_decimal(a.serial, &mut out);
        out.append(",\"lineage\":");
        write_opt_str(&a.lineage, &mut out);
        out.append(",\"state\":");
        out.append(quote(a.state.as_str()).as_str());
        out.append(",\"json-state\":");
        write_opt_str(&a.json_state, &mut out);
        out.append(",\"json-state-outputs\":");
        write_opt_str(&a.json_state_outputs, &mut out);
        out.append("}");
        assert(out@ =~= attrs_start + attributes_text(*a));
        let ghost mid = out@;
        match &self.data.relationships {
            Some(rel) => {
                out.append(",\"relationships\":{\"run\":{\"data\":{\"type\":");
                out.append(quote(rel.run.data.type_.as_str()).as_str());
                out.append(",\"id\":");
                out.append(quote(rel.run.data.id.as_str()).as_str());
                out.append("}}}");
            },
            None => {},
        }
        assert(out@ =~= mid + relationships_text(self.data.relationships));
        out.append("}}");
        assert(out@ =~= request_text(*self));
        out
    }
}

impl Default for CreateStateVersionInputBuilder {
    /// An empty builder.
    fn default() -> (r: Self)
        ensures
            r.lineage is None,
            r.md5 is None,
            r.serial is None,
            r.state is None,
            r.json_state is None,
            r.json_state_outputs is None,
            r.run_id is None,
    {
        CreateStateVersionInput::builder()
    }
}

impl CreateStateVersionInputBuilder {
    pub fn lineage(self, lineage: String) -> (r: Self)
        ensures
            r == (Self { lineage: Some(lineage), ..self }),
    {
        Self { lineage: Some(lineage), ..self }
    }

    pub fn md5(self, md5: String) -> (r: Self)
        ensures
            r == (Self { md5: Some(md5), ..self }),
    {
        Self { md5: Some(md5), ..self }
    }

    pub fn serial(self, serial: u64) -> (r: Self)
        ensures
            r == (Self { serial: Some(serial), ..self }),
    {
        Self { serial: Some(serial), ..self }
    }

    pub fn state(self, state: String) -> (r: Self)
        ensures
            r == (Self { state: Some(state), ..self }),
    {
        Self { state: Some(state), ..self }
    }

    pub fn json_state(self, json_state: String) -> (r: Self)
        ensures
            r == (Self { json_state: Some(json_state), ..self }),
    {
        Self { json_state: Some(json_state), ..self }
    }

    pub fn json_state_outputs(self, json_state_outputs: String) -> (r: Self)
        ensures
            r == (Self { json_state_outputs: Some(json_state_outputs), ..self }),
    {
        Self { json_state_outputs: Some(json_state_outputs), ..self }
    }

    pub fn run_id(self, run_id: String) -> (r: Self)
        ensures
            r == (Self { run_id: Some(run_id), ..self }),
    {
        Self { run_id: Some(run_id), ..self }
    }

    /// Same as `CreateStateVersionInput::try_from_builder`.
    pub fn build(self) -> (r: Result<CreateStateVersionInput, RequestError>)
        ensures
            match r {
                Ok(v) => missing_field(self) is None && built_from(self, v),
                Err(e) => missing_field(self) == Some(e),
            },
    {
        CreateStateVersionInput::try_from_builder(self)
    }
}

/// A request is built exactly when md5, serial and state were all given;
/// without `state` building fails, and with no run the body has no
/// `relationships` member.
pub proof fn lemma_builder_completeness(b: CreateStateVersionInputBuilder, r: CreateStateVersionInput)
    ensures
        b.state is None ==> missing_field(b) is Some,
        b.md5 is Some && b.serial is Some && b.state is None ==> missing_field(b) == Some(
            RequestError::StateRequired,
        ),
        b.md5 is Some && b.serial is Some && b.state is Some ==> missing_field(b) is None,
        built_from(b, r) && b.run_id is None ==> request_text(r) == "{\"data\":{\"type\":"@
            + json_quoted("state-versions"@) + ",\"attributes\":"@ + attributes_text(
            r.data.attributes,
        ) + "}}"@,
{
    if built_from(b, r) && b.run_id is None {
        assert(request_text(r) =~= "{\"data\":{\"type\":"@ + json_quoted("state-versions"@)
            + ",\"attributes\":"@ + attributes_text(r.data.attributes) + "}}"@);
    }
}

} // verus!
