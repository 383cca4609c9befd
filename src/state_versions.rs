//! State versions as the service returns them, read from its replies.
use vstd::prelude::*;
use crate::envelope::{resolve, resolve_spec, EnvelopeError, TerraformData, TerraformResult};
use crate::json::{
    field_error, is_str, lemma_without_other, member, take_member, without, DecodeError, JsonValue,
};

verus! {

broadcast use vstd::string::to_string_from_display_ensures_for_str;

/// A state version as the service describes it.
#[derive(Debug)]
pub struct StateVersion {
    pub id: String,
    pub type_: String,
    pub attributes: Option<StateVersionAttributes>,
    pub extra: Vec<(String, JsonValue)>,
}

/// Where a state version's content can be downloaded, and when it was made.
#[derive(Debug)]
pub struct StateVersionAttributes {
    pub created_at: String,
    pub hosted_json_state_download_url: String,
    pub hosted_state_download_url: String,
}

/// The first attribute that is missing or not a string.
pub open spec fn attributes_error(ms: Seq<(String, JsonValue)>) -> Option<Seq<char>> {
    if !is_str(member(ms, "created-at"@)) {
        Some("created-at"@)
    } else if !is_str(member(ms, "hosted-json-state-download-url"@)) {
        Some("hosted-json-state-download-url"@)
    } else if !is_str(member(ms, "hosted-state-download-url"@)) {
        Some("hosted-state-download-url"@)
    } else {
        None
    }
}

/// The first member of a state version that is missing or of the wrong
/// kind; `attributes` may be absent or null.
pub open spec fn state_version_error(ms: Seq<(String, JsonValue)>) -> Option<Seq<char>> {
    if !is_str(member(ms, "id"@)) {
        Some("id"@)
    } else if !is_str(member(ms, "type"@)) {
        Some("type"@)
    } else {
        match member(ms, "attributes"@) {
            None => None,
            Some(JsonValue::Null) => None,
            Some(JsonValue::Object(a)) => attributes_error(a@),
            _ => Some("attributes"@),
        }
    }
}

/// `r` holds the members of `ms`; the unnamed ones stay in `extra`.
pub open spec fn state_version_decoded(ms: Seq<(String, JsonValue)>, r: StateVersion) -> bool {
    &&& member(ms, "id"@) == Some(JsonValue::Str(r.id))
    &&& member(ms, "type"@) == Some(JsonValue::Str(r.type_))
    &&& match r.attributes {
        None => member(ms, "attributes"@) is None || member(ms, "attributes"@) == Some(
            JsonValue::Null,
        ),
        Some(a) => exists|am: Vec<(String, JsonValue)>|
            {
                &&& member(ms, "attributes"@) == Some(JsonValue::Object(am))
                &&& member(am@, "created-at"@) == Some(JsonValue::Str(a.created_at))
                &&& member(am@, "hosted-json-state-download-url"@) == Some(
                    JsonValue::Str(a.hosted_json_state_download_url),
                )
                &&& member(am@, "hosted-state-download-url"@) == Some(
                    JsonValue::Str(a.hosted_state_download_url),
                )
            },
    }
    &&& r.extra@ == without(without(without(ms, "id"@), "type"@), "attributes"@)
}

impl StateVersionAttributes {
    fn from_members(ms: Vec<(String, JsonValue)>) -> (r: Result<StateVersionAttributes, DecodeError>)
        ensures
            match r {
                Ok(a) => attributes_error(ms@) is None && {
                    &&& member(ms@, "created-at"@) == Some(JsonValue::Str(a.created_at))
                    &&& member(ms@, "hosted-json-state-download-url"@) == Some(
                        JsonValue::Str(a.hosted_json_state_download_url),
                    )
                    &&& member(ms@, "hosted-state-download-url"@) == Some(
                        JsonValue::Str(a.hosted_state_download_url),
                    )
                },
                Err(DecodeError::Field(f)) => attributes_error(ms@) == Some(f@),
                Err(DecodeError::NotAnObject) => false,
            },
    {
        let mut ms = ms;
        let ghost m0 = ms@;
        proof {
            reveal_strlit("created-at");
            reveal_strlit("hosted-json-state-download-url");
            reveal_strlit("hosted-state-download-url");
            assert("created-at"@.len() != "hosted-json-state-download-url"@.len());
            assert("created-at"@.len() != "hosted-state-download-url"@.len());
            assert("hosted-json-state-download-url"@.len() != "hosted-state-download-url"@.len());
        }
        let c = take_member(&mut ms, "created-at");
        let ghost m1 = ms@;
        let j = take_member(&mut ms, "hosted-json-state-download-url");
        let h = take_member(&mut ms, "hosted-state-download-url");
        proof {
            lemma_without_other(m0, "created-at"@, "hosted-json-state-download-url"@);
            lemma_without_other(m0, "created-at"@, "hosted-state-download-url"@);
            lemma_without_other(m1, "hosted-json-state-download-url"@, "hosted-state-download-url"@);
        }
        let created_at = match c {
            Some(JsonValue::Str(s)) => s,
            _ => return Err(field_error("created-at")),
        };
        let hosted_json_state_download_url = match j {
            Some(JsonValue::Str(s)) => s,
            _ => return Err(field_error("hosted-json-state-download-url")),
        };
        let hosted_state_download_url = match h {
            Some(JsonValue::Str(s)) => s,
            _ => return Err(field_error("hosted-state-download-url")),
        };
        Ok(StateVersionAttributes { created_at, hosted_json_state_download_url, hosted_state_download_url })
    }
}

impl StateVersion {
    /// Reads a state version from a JSON object; members other than `id`,
    /// `type` and `attributes` are kept in `extra`.
    pub fn from_json(v: JsonValue) -> (r: Result<StateVersion, DecodeError>)
        ensures
            match v {
                JsonValue::Object(ms) => match r {
                    Ok(sv) => state_version_error(ms@) is None && state_version_decoded(ms@, sv),
                    Err(DecodeError::Field(f)) => state_version_error(ms@) == Some(f@),
                    Err(DecodeError::NotAnObject) => false,
                },
                _ => r matches Err(DecodeError::NotAnObject),
            },
    {
        let mut ms = match v {
            JsonValue::Object(ms) => ms,
            _ => return Err(DecodeError::NotAnObject),
        };
        let ghost m0 = ms@;
        proof {
            reveal_strlit("id");
            reveal_strlit("type");
            reveal_strlit("attributes");
            assert("id"@.len() != "type"@.len());
            assert("id"@.len() != "attributes"@.len());
            assert("type"@.len() != "attributes"@.len());
        }
        let i = take_member(&mut ms, "id");
        let ghost m1 = ms@;
        let t = take_member(&mut ms, "type");
        let a = take_member(&mut ms, "attributes");
        proof {
            lemma_without_other(m0, "id"@, "type"@);
            lemma_without_other(m0, "id"@, "attributes"@);
            lemma_without_other(m1, "type"@, "attributes"@);
        }
        let id = match i {
            Some(JsonValue::Str(s)) => s,
            _ => return Err(field_error("id")),
        };
        let type_ = match t {
            Some(JsonValue::Str(s)) => s,
            _ => return Err(field_error("type")),
        };
        let attributes = match a {
            None => None,
            Some(JsonValue::Null) => None,
            Some(JsonValue::Object(am)) => {
                let ghost amv = am;
                match StateVersionAttributes::from_members(am) {
                    Ok(attrs) => {
                        assert(member(m0, "attributes"@) == Some(JsonValue::Object(amv)));
                        Some(attrs)
                    },
                    Err(e) => return Err(e),
                }
            },
            _ => return Err(field_error("attributes")),
        };
        Ok(StateVersion { id, type_, attributes, extra: ms })
    }
}

/// Why a reply did not give a state version.
#[derive(Debug)]
pub enum ReplyError {
    Envelope(EnvelopeError),
    Decode(DecodeError),
}

/// Reads the reply of the state-version endpoints: one resource, decoded
/// as a state version.
pub fn state_version_from_reply(doc: JsonValue) -> (r: Result<StateVersion, ReplyError>)
    ensures
        match resolve_spec(doc) {
            Err(e) => r == Err::<StateVersion, ReplyError>(ReplyError::Envelope(e)),
            Ok(TerraformResult::Error { errors }) => r == Err::<StateVersion, ReplyError>(
                ReplyError::Envelope(EnvelopeError::Server(errors)),
            ),
            Ok(TerraformResult::Success(TerraformData::ResourceList(_))) => r == Err::<
                StateVersion,
                ReplyError,
            >(ReplyError::Envelope(EnvelopeError::ExpectedSingle)),
            Ok(TerraformResult::Success(TerraformData::UniqueResource(w))) => match w.data {
                JsonValue::Object(ms) => match r {
                    Ok(sv) => state_version_error(ms@) is None && state_version_decoded(ms@, sv),
                    Err(ReplyError::Decode(DecodeError::Field(f))) => state_version_error(ms@)
                        == Some(f@),
                    _ => false,
                },
                _ => false,
            },
        },
{
    let resolved = match resolve(doc) {
        Ok(t) => t,
        Err(e) => return Err(ReplyError::Envelope(e)),
    };
    let item = match resolved.to_unique() {
        Ok(v) => v,
        Err(e) => return Err(ReplyError::Envelope(e)),
    };
    match StateVersion::from_json(item) {
        Ok(sv) => Ok(sv),
        Err(e) => Err(ReplyError::Decode(e)),
    }
}

} // verus!
