//! The response envelope: one resource, a list of resources, or an error,
//! told apart by the shape of the document.
use vstd::prelude::*;
use crate::json::{has_key, member, take_member, JsonValue};

verus! {

/// `{"data": [...]}`.
#[derive(Debug)]
pub struct ResourceList<T> {
    pub data: Vec<T>,
}

/// `{"data": {...}}`.
#[derive(Debug)]
pub struct WrappedResource<T> {
    pub data: T,
}

/// A successful reply: a list, or a single resource.
#[derive(Debug)]
pub enum TerraformData<T> {
    ResourceList(ResourceList<T>),
    UniqueResource(WrappedResource<T>),
}

/// A reply: the server's diagnostics, or data.
#[derive(Debug)]
pub enum TerraformResult<T> {
    Error { errors: JsonValue },
    Success(TerraformData<T>),
}

/// Why a reply did not give what the caller asked for.
#[derive(Debug)]
pub enum EnvelopeError {
    /// The server answered with diagnostics, passed on untouched.
    Server(JsonValue),
    /// A single resource was expected and a list came.
    ExpectedSingle,
    /// A list was expected and a single resource came.
    ExpectedList,
    /// The document is neither an error nor a data envelope.
    Malformed,
}

/// How a document resolves: diagnostics take precedence; otherwise an
/// array under `data` is a list and an object under `data` a single
/// resource.
pub open spec fn resolve_spec(doc: JsonValue) -> Result<TerraformResult<JsonValue>, EnvelopeError> {
    match doc {
        JsonValue::Object(ms) => {
            if has_key(ms@, "errors"@) {
                Ok(TerraformResult::Error { errors: member(ms@, "errors"@)->Some_0 })
            } else {
                match member(ms@, "data"@) {
                    Some(JsonValue::Array(items)) => Ok(
                        TerraformResult::Success(
                            TerraformData::ResourceList(ResourceList { data: items }),
                        ),
                    ),
                    Some(JsonValue::Object(fields)) => Ok(
                        TerraformResult::Success(
                            TerraformData::UniqueResource(
                                WrappedResource { data: JsonValue::Object(fields) },
                            ),
                        ),
                    ),
                    _ => Err(EnvelopeError::Malformed),
                }
            }
        },
        _ => Err(EnvelopeError::Malformed),
    }
}

/// Resolves a decoded document by its shape; the resources stay undecoded.
pub fn resolve(doc: JsonValue) -> (r: Result<TerraformResult<JsonValue>, EnvelopeError>)
    ensures
        r == resolve_spec(doc),
{
    match doc {
        JsonValue::Object(ms) => {
            let mut ms = ms;
            match take_member(&mut ms, "errors") {
                Some(errors) => Ok(TerraformResult::Error { errors }),
                None => match take_member(&mut ms, "data") {
                    Some(JsonValue::Array(items)) => Ok(
                        TerraformResult::Success(
                            TerraformData::ResourceList(ResourceList { data: items }),
                        ),
                    ),
                    Some(JsonValue::Object(fields)) => Ok(
                        TerraformResult::Success(
                            TerraformData::UniqueResource(
                                WrappedResource { data: JsonValue::Object(fields) },
                            ),
                        ),
                    ),
                    _ => Err(EnvelopeError::Malformed),
                },
            }
        },
        _ => Err(EnvelopeError::Malformed),
    }
}

/// What `to_unique` gives for a resolved reply.
pub open spec fn unique_of<T>(t: TerraformResult<T>) -> Result<T, EnvelopeError> {
    match t {
        TerraformResult::Error { errors } => Err(EnvelopeError::Server(errors)),
        TerraformResult::Success(TerraformData::ResourceList(_)) => Err(
            EnvelopeError::ExpectedSingle,
        ),
        TerraformResult::Success(TerraformData::UniqueResource(w)) => Ok(w.data),
    }
}

/// What `to_list` gives for a resolved reply.
pub open spec fn list_of<T>(t: TerraformResult<T>) -> Result<Vec<T>, EnvelopeError> {
    match t {
        TerraformResult::Error { errors } => Err(EnvelopeError::Server(errors)),
        TerraformResult::Success(TerraformData::ResourceList(l)) => Ok(l.data),
        TerraformResult::Success(TerraformData::UniqueResource(_)) => Err(
            EnvelopeError::ExpectedList,
        ),
    }
}

impl<T> TerraformResult<T> {
    /// The data, or the server's diagnostics as an error.
    pub fn to_data(self) -> (r: Result<TerraformData<T>, EnvelopeError>)
        ensures
            match self {
                TerraformResult::Error { errors } => r == Err::<TerraformData<T>, EnvelopeError>(
                    EnvelopeError::Server(errors),
                ),
                TerraformResult::Success(d) => r == Ok::<TerraformData<T>, EnvelopeError>(d),
            },
    {
        match self {
            TerraformResult::Error { errors } => Err(EnvelopeError::Server(errors)),
            TerraformResult::Success(data) => Ok(data),
        }
    }

    /// The single resource; a list is a shape mismatch, never cut down to
    /// its first element.
    pub fn to_unique(self) -> (r: Result<T, EnvelopeError>)
        ensures
            r == unique_of(self),
    {
        match self.to_data() {
            Err(e) => Err(e),
            Ok(TerraformData::ResourceList(_)) => Err(EnvelopeError::ExpectedSingle),
            Ok(TerraformData::UniqueResource(resource)) => Ok(resource.data),
        }
    }

    /// The list of resources; a single resource is a shape mismatch.
    pub fn to_list(self) -> (r: Result<Vec<T>, EnvelopeError>)
        ensures
            r == list_of(self),
    {
        match self.to_data() {
            Err(e) => Err(e),
            Ok(TerraformData::ResourceList(list)) => Ok(list.data),
            Ok(TerraformData::UniqueResource(_)) => Err(EnvelopeError::ExpectedList),
        }
    }
}

/// A document with diagnostics never resolves to data: asked for one
/// resource or for a list, it gives the diagnostics as an error.
pub proof fn lemma_error_precedence(ms: Vec<(String, JsonValue)>)
    requires
        has_key(ms@, "errors"@),
    ensures
        resolve_spec(JsonValue::Object(ms)) matches Ok(t) && {
            &&& unique_of(t) == Err::<JsonValue, EnvelopeError>(
                EnvelopeError::Server(member(ms@, "errors"@)->Some_0),
            )
            &&& list_of(t) == Err::<Vec<JsonValue>, EnvelopeError>(
                EnvelopeError::Server(member(ms@, "errors"@)->Some_0),
            )
        },
{
}

/// Without diagnostics, a list under `data` is taken as a list and refused
/// as a single resource; an object under `data` the other way round.
pub proof fn lemma_envelope_disambiguation(ms: Vec<(String, JsonValue)>)
    requires
        !has_key(ms@, "errors"@),
    ensures
        member(ms@, "data"@) matches Some(JsonValue::Array(items)) ==> resolve_spec(
            JsonValue::Object(ms),
        ) matches Ok(t) && list_of(t) == Ok::<Vec<JsonValue>, EnvelopeError>(items)
            && unique_of(t) == Err::<JsonValue, EnvelopeError>(EnvelopeError::ExpectedSingle),
        member(ms@, "data"@) matches Some(JsonValue::Object(fields)) ==> resolve_spec(
            JsonValue::Object(ms),
        ) matches Ok(t) && unique_of(t) == Ok::<JsonValue, EnvelopeError>(
            JsonValue::Object(fields),
        ) && list_of(t) == Err::<Vec<JsonValue>, EnvelopeError>(EnvelopeError::ExpectedList),
{
}

} // verus!
