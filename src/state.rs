//! The state document: its model, canonical encoding, fingerprint,
//! transport text and display path, and how it is read from JSON.
use vstd::prelude::*;
use crate::json::{
    decimal, digit_char, field_error, is_opt_str, is_str, json_quoted, lemma_without_other, member,
    parse_u64, quote, render, render_items, render_members, take_member, take_str, without,
    write_decimal, write_digit, write_items, write_json, write_members, DecodeError, JsonValue,
};

verus! {

broadcast use vstd::string::to_string_from_display_ensures_for_str;

/// One output of a state document. The declared type and the value are
/// carried as they were decoded.
#[derive(Debug)]
pub struct TerraformStateOutput {
    pub sensitive: Option<bool>,
    pub type_: JsonValue,
    pub value: JsonValue,
}

/// One resource of a state document. Members that this model does not name
/// are kept in `extra`, in their order, and written back after the others.
#[derive(Debug)]
pub struct TerraformResource {
    pub type_: String,
    pub name: String,
    pub provider: String,
    pub mode: String,
    pub instances: Vec<JsonValue>,
    pub module: Option<String>,
    pub extra: Vec<(String, JsonValue)>,
}

/// A state document. Outputs keep the order in which they are written.
#[derive(Debug)]
pub struct TerraformState {
    pub version: u64,
    pub terraform_version: String,
    pub serial: u64,
    pub lineage: String,
    pub outputs: Vec<(String, TerraformStateOutput)>,
    pub resources: Vec<TerraformResource>,
}

/// `null`, or the quoted string.
pub open spec fn opt_str_text(o: Option<String>) -> Seq<char> {
    match o {
        Some(s) => json_quoted(s@),
        None => "null"@,
    }
}

/// `null`, `true` or `false`.
pub open spec fn opt_bool_text(o: Option<bool>) -> Seq<char> {
    match o {
        Some(b) => if b { "true"@ } else { "false"@ },
        None => "null"@,
    }
}

/// The canonical encoding of an output.
pub open spec fn output_text(o: TerraformStateOutput) -> Seq<char> {
    "{\"sensitive\":"@ + opt_bool_text(o.sensitive) + ",\"type\":"@ + render(o.type_)
        + ",\"value\":"@ + render(o.value) + "}"@
}

/// The extra members of a resource, each preceded by a comma.
pub open spec fn extra_text(ms: Seq<(String, JsonValue)>) -> Seq<char> {
    if ms.len() == 0 {
        Seq::empty()
    } else {
        ","@ + render_members(ms)
    }
}

/// The canonical encoding of a resource: its named members in declaration
/// order, then its extra members.
pub open spec fn resource_text(r: TerraformResource) -> Seq<char> {
    "{\"type\":"@ + json_quoted(r.type_@) + ",\"name\":"@ + json_quoted(r.name@)
        + ",\"provider\":"@ + json_quoted(r.provider@) + ",\"mode\":"@ + json_quoted(r.mode@)
        + ",\"instances\":["@ + render_items(r.instances@) + "],\"module\":"@ + opt_str_text(
        r.module,
    ) + extra_text(r.extra@) + "}"@
}

/// The comma-separated `"name":output` members.
pub open spec fn outputs_text(s: Seq<(String, TerraformStateOutput)>) -> Seq<char>
    decreases s.len(),
{
    if s.len() == 0 {
        Seq::empty()
    } else if s.len() == 1 {
        json_quoted(s[0].0@) + ":"@ + output_text(s[0].1)
    } else {
        outputs_text(s.drop_last()) + ","@ + json_quoted(s.last().0@) + ":"@ + output_text(
            s.last().1,
        )
    }
}

/// The comma-separated resource encodings.
pub open spec fn resources_text(s: Seq<TerraformResource>) -> Seq<char>
    decreases s.len(),
{
    if s.len() == 0 {
        Seq::empty()
    } else if s.len() == 1 {
        resource_text(s[0])
    } else {
        resources_text(s.drop_last()) + ","@ + resource_text(s.last())
    }
}

/// The canonical encoding of a state document: compact JSON, members in
/// declaration order.
pub open spec fn state_text(s: TerraformState) -> Seq<char> {
    "{\"version\":"@ + decimal(s.version as nat) + ",\"terraform_version\":"@ + json_quoted(
        s.terraform_version@,
    ) + ",\"serial\":"@ + decimal(s.serial as nat) + ",\"lineage\":"@ + json_quoted(s.lineage@)
        + ",\"outputs\":{"@ + outputs_text(s.outputs@) + "},\"resources\":["@ + resources_text(
        s.resources@,
    ) + "]}"@
}

pub(crate) fn write_opt_str(o: &Option<String>, out: &mut String)
    ensures
        final(out)@ == old(out)@ + opt_str_text(*o),
{
    match o {
        Some(s) => {
            let q = quote(s.as_str());
            out.append(q.as_str());
        },
        None => out.append("null"),
    }
}

fn write_output(o: &TerraformStateOutput, out: &mut String)
    ensures
        final(out)@ == old(out)@ + output_text(*o),
{
    let ghost start = out@;
    out.append("{\"sensitive\":");
    match o.sensitive {
        Some(true) => out.append("true"),
        Some(false) => out.append("false"),
        None => out.append("null"),
    }
    out.append(",\"type\":");
    write_json(&o.type_, out);
    out.append(",\"value\":");
    write_json(&o.value, out);
    out.append("}");
    assert(out@ =~= start + output_text(*o));
}

fn write_resource(r: &TerraformResource, out: &mut String)
    ensures
        final(out)@ == old(out)@ + resource_text(*r),
{
    let ghost start = out@;
    out.append("{\"type\":");
    out.append(quote(r.type_.as_str()).as_str());
    out.append(",\"name\":");
    out.append(quote(r.name.as_str()).as_str());
    out.append(",\"provider\":");
    out.append(quote(r.provider.as_str()).as_str());
    out.append(",\"mode\":");
    out.append(quote(r.mode.as_str()).as_str());
    out.append(",\"instances\":[");
    write_items(&r.instances, out);
    out.append("],\"module\":");
    write_opt_str(&r.module, out);
    let ghost mid = out@;
    if r.extra.len() > 0 {
        out.append(",");
        write_members(&r.extra, out);
    }
    assert(out@ =~= mid + extra_text(r.extra@));
    out.append("}");
    assert(out@ =~= start + resource_text(*r));
}

fn write_outputs(s: &Vec<(String, TerraformStateOutput)>, out: &mut String)
    ensures
        final(out)@ == old(out)@ + outputs_text(s@),
{
    let ghost start = out@;
    let mut i: usize = 0;
    while i < s.len()
        invariant
            i <= s.len(),
            out@ == start + outputs_text(s@.subrange(0, i as int)),
        decreases s.len() - i,
    {
        let ghost before = out@;
        if i > 0 {
            out.append(",");
        }
        out.append(quote(s[i].0.as_str()).as_str());
        out.append(":");
        write_output(&s[i].1, out);
        proof {
            let t = s@.subrange(0, i as int + 1);
            assert(t.drop_last() =~= s@.subrange(0, i as int));
            if i == 0 {
                assert(out@ =~= start + outputs_text(t));
            } else {
                assert(out@ =~= before + ","@ + json_quoted(t.last().0@) + ":"@ + output_text(
                    t.last().1,
                ));
            }
        }
        i = i + 1;
    }
    assert(s@.subrange(0, s.len() as int) =~= s@);
}

fn write_resources(s: &Vec<TerraformResource>, out: &mut String)
    ensures
        final(out)@ == old(out)@ + resources_text(s@),
{
    let ghost start = out@;
    let mut i: usize = 0;
    while i < s.len()
        invariant
            i <= s.len(),
            out@ == start + resources_text(s@.subrange(0, i as int)),
        decreases s.len() - i,
    {
        let ghost before = out@;
        if i > 0 {
            out.append(",");
        }
        write_resource(&s[i], out);
        proof {
            let t = s@.subrange(0, i as int + 1);
            assert(t.drop_last() =~= s@.subrange(0, i as int));
            if i == 0 {
                assert(out@ =~= start + resources_text(t));
            } else {
                assert(out@ =~= before + ","@ + resource_text(t.last()));
            }
        }
        i = i + 1;
    }
    assert(s@.subrange(0, s.len() as int) =~= s@);
}

impl TerraformResource {
    /// The canonical encoding of this resource.
    pub fn to_json(&self) -> (r: String)
        ensures
            r@ == resource_text(*self),
    {
        let mut out = String::new();
        write_resource(self, &mut out);
        assert(out@ =~= resource_text(*self));
        out
    }
}

impl TerraformState {
    /// The canonical encoding of this state document.
    pub fn to_json(&self) -> (r: String)
        ensures
            r@ == state_text(*self),
    {
        let mut out = String::new();
        out.append("{\"version\":");
        write_decimal(self.version, &mut out);
        out.append(",\"terraform_version\":");
        out.append(quote(self.terraform_version.as_str()).as_str());
        out.append(",\"serial\":");
        write_decimal(self.serial, &mut out);
        out.append(",\"lineage\":");
        out.append(quote(self.lineage.as_str()).as_str());
        out.append(",\"outputs\":{");
        write_outputs(&self.outputs, &mut out);
        out.append("},\"resources\":[");
        write_resources(&self.resources, &mut out);
        out.append("]}");
        assert(out@ =~= state_text(*self));
        out
    }
}

/// The MD5 digest of the UTF-8 encoding of a text.
pub uninterp spec fn md5_of(s: Seq<char>) -> Seq<u8>;

/// Relies on md-5's `Md5` through `Digest::digest`: the 16-byte MD5 digest
/// of the text's UTF-8 bytes.
#[verifier::external_body]
fn md5_digest(s: &str) -> (r: [u8; 16])
    ensures
        r@ == md5_of(s@),
{
    <md5::Md5 as md5::Digest>::digest(s.as_bytes()).into()
}

/// The standard-alphabet base64 encoding, without padding, of the UTF-8
/// encoding of a text.
pub uninterp spec fn base64_of(s: Seq<char>) -> Seq<char>;

/// Relies on base64's `STANDARD_NO_PAD` engine (`Engine::encode`): the
/// standard alphabet, no `=` padding, over the text's UTF-8 bytes.
#[verifier::external_body]
fn base64_no_pad(s: &str) -> (r: String)
    ensures
        r@ == base64_of(s@),
{
    base64::Engine::encode(&base64::engine::general_purpose::STANDARD_NO_PAD, s)
}

/// Lowercase hexadecimal, two digits per byte, high nibble first.
pub open spec fn hex_of(b: Seq<u8>) -> Seq<char>
    decreases b.len(),
{
    if b.len() == 0 {
        Seq::empty()
    } else {
        hex_of(b.drop_last()) + seq![
            digit_char((b.last() / 16) as int),
            digit_char((b.last() % 16) as int),
        ]
    }
}

/// A lowercase hexadecimal digit.
pub open spec fn is_hex_digit(c: char) -> bool {
    ('0' <= c <= '9') || ('a' <= c <= 'f')
}

/// The fingerprint of a state document: the hex MD5 digest of its
/// canonical encoding.
pub open spec fn fingerprint_text(s: TerraformState) -> Seq<char> {
    hex_of(md5_of(state_text(s)))
}

/// The canonical encoding and the fingerprint are functions of the state
/// alone, and the fingerprint depends on nothing but the canonical
/// encoding: the same bytes give the same digest.
pub proof fn lemma_fingerprint_depends_on_bytes(a: TerraformState, b: TerraformState)
    ensures
        a == b ==> state_text(a) == state_text(b),
        state_text(a) == state_text(b) ==> fingerprint_text(a) == fingerprint_text(b),
{
}

fn write_hex(b: &[u8; 16], out: &mut String)
    ensures
        final(out)@ == old(out)@ + hex_of(b@),
{
    let ghost start = out@;
    let mut i: usize = 0;
    while i < 16
        invariant
            i <= 16,
            b@.len() == 16,
            out@ == start + hex_of(b@.subrange(0, i as int)),
        decreases 16 - i,
    {
        let ghost before = out@;
        write_digit((b[i] / 16) as u64, out);
        write_digit((b[i] % 16) as u64, out);
        proof {
            let t = b@.subrange(0, i as int + 1);
            assert(t.drop_last() =~= b@.subrange(0, i as int));
            assert(out@ =~= start + hex_of(t));
        }
        i = i + 1;
    }
    assert(b@.subrange(0, 16) =~= b@);
}

/// `hex_of` writes two digits per byte, each a lowercase hex digit.
pub proof fn lemma_hex_shape(b: Seq<u8>)
    ensures
        hex_of(b).len() == 2 * b.len(),
        forall|i: int| 0 <= i < hex_of(b).len() ==> is_hex_digit(#[trigger] hex_of(b)[i]),
    decreases b.len(),
{
    reveal_strlit("0123456789abcdef");
    if b.len() > 0 {
        lemma_hex_shape(b.drop_last());
        let h = hex_of(b.drop_last());
        let hi = (b.last() / 16) as int;
        let lo = (b.last() % 16) as int;
        assert(is_hex_digit(digit_char(hi)));
        assert(is_hex_digit(digit_char(lo)));
        assert forall|i: int| 0 <= i < hex_of(b).len() implies is_hex_digit(#[trigger] hex_of(b)[i]) by {
            if i >= h.len() {
            } else {
                assert(hex_of(b)[i] == h[i]);
            }
        }
    }
}

/// The dot-joined identification of a resource: `data` for a data source,
/// then the module if any, then the type and the name.
pub open spec fn display_text(r: TerraformResource) -> Seq<char> {
    (if r.mode@ == "data"@ { "data."@ } else { Seq::empty() }) + (match r.module {
        Some(m) => m@ + "."@,
        None => Seq::empty(),
    }) + r.type_@ + "."@ + r.name@
}

impl TerraformResource {
    /// The dot-joined identification of this resource.
    pub fn to_string(&self) -> (r: String)
        ensures
            r@ == display_text(*self),
    {
        let mut out = String::new();
        if self.mode == "data".to_string() {
            out.append("data.");
        }
        match &self.module {
            Some(m) => {
                out.append(m.as_str());
                out.append(".");
            },
            None => {},
        }
        out.append(self.type_.as_str());
        out.append(".");
        out.append(self.name.as_str());
        assert(out@ =~= display_text(*self));
        out
    }
}

impl TerraformState {
    /// The fingerprint of this state document: the MD5 digest of its
    /// canonical encoding as 32 lowercase hex digits.
    pub fn md5(&self) -> (r: String)
        ensures
            r@ == fingerprint_text(*self),
            r@.len() == 32,
            forall|i: int| 0 <= i < r@.len() ==> is_hex_digit(#[trigger] r@[i]),
    {
        let text = self.to_json();
        let digest = md5_digest(text.as_str());
        let mut out = String::new();
        write_hex(&digest, &mut out);
        proof {
            lemma_hex_shape(digest@);
            assert(out@ =~= fingerprint_text(*self));
        }
        out
    }

    /// The canonical encoding in standard base64 without padding, as it
    /// travels in a request.
    pub fn to_base64_encoded_json(&self) -> (r: String)
        ensures
            r@ == base64_of(state_text(*self)),
    {
        let text = self.to_json();
        base64_no_pad(text.as_str())
    }
}

/// The first member of a resource that is missing or of the wrong kind.
pub open spec fn resource_error(ms: Seq<(String, JsonValue)>) -> Option<Seq<char>> {
    if !is_str(member(ms, "type"@)) {
        Some("type"@)
    } else if !is_str(member(ms, "name"@)) {
        Some("name"@)
    } else if !is_str(member(ms, "provider"@)) {
        Some("provider"@)
    } else if !is_str(member(ms, "mode"@)) {
        Some("mode"@)
    } else if !(member(ms, "instances"@) matches Some(JsonValue::Array(_))) {
        Some("instances"@)
    } else if !is_opt_str(member(ms, "module"@)) {
        Some("module"@)
    } else {
        None
    }
}

/// The members of a resource that the model does not name, in order.
pub open spec fn resource_rest(ms: Seq<(String, JsonValue)>) -> Seq<(String, JsonValue)> {
    without(
        without(
            without(without(without(without(ms, "type"@), "name"@), "provider"@), "mode"@),
            "instances"@,
        ),
        "module"@,
    )
}

/// `r` holds the named members of `ms` and keeps the others in `extra`.
pub open spec fn resource_decoded(ms: Seq<(String, JsonValue)>, r: TerraformResource) -> bool {
    &&& member(ms, "type"@) == Some(JsonValue::Str(r.type_))
    &&& member(ms, "name"@) == Some(JsonValue::Str(r.name))
    &&& member(ms, "provider"@) == Some(JsonValue::Str(r.provider))
    &&& member(ms, "mode"@) == Some(JsonValue::Str(r.mode))
    &&& member(ms, "instances"@) == Some(JsonValue::Array(r.instances))
    &&& match r.module {
        Some(m) => member(ms, "module"@) == Some(JsonValue::Str(m)),
        None => member(ms, "module"@) is None || member(ms, "module"@) == Some(JsonValue::Null),
    }
    &&& r.extra@ == resource_rest(ms)
}

impl TerraformResource {
    /// Reads a resource from a JSON object. Members other than the named
    /// ones are kept, in order, in `extra`.
    pub fn from_json(v: JsonValue) -> (r: Result<TerraformResource, DecodeError>)
        ensures
            match v {
                JsonValue::Object(ms) => match r {
                    Ok(res) => resource_error(ms@) is None && resource_decoded(ms@, res),
                    Err(DecodeError::Field(f)) => resource_error(ms@) == Some(f@),
                    Err(DecodeError::NotAnObject) => false,
                },
                _ => r matches Err(DecodeError::NotAnObject),
            },
    {
        let mut ms = match v {
            JsonValue::Object(ms) => ms,
            _ => return Err(DecodeError::NotAnObject),
        };
        let ghost m0 = ms@;
        proof {
            reveal_strlit("type");
            reveal_strlit("name");
            reveal_strlit("provider");
            reveal_strlit("mode");
            reveal_strlit("instances");
            reveal_strlit("module");
            assert("type"@[0] != "name"@[0]);
            assert("type"@[0] != "mode"@[0]);
            assert("name"@[0] != "mode"@[0]);
            assert("type"@.len() != "provider"@.len());
            assert("mode"@.len() != "module"@.len());
            assert("instances"@.len() != "module"@.len());
        }
        let t = take_member(&mut ms, "type");
        let ghost m1 = ms@;
        let n = take_member(&mut ms, "name");
        let ghost m2 = ms@;
        let p = take_member(&mut ms, "provider");
        let ghost m3 = ms@;
        let md = take_member(&mut ms, "mode");
        let ghost m4 = ms@;
        let i = take_member(&mut ms, "instances");
        let ghost m5 = ms@;
        let mo = take_member(&mut ms, "module");
        proof {
            lemma_without_other(m0, "type"@, "name"@);
            lemma_without_other(m0, "type"@, "provider"@);
            lemma_without_other(m1, "name"@, "provider"@);
            lemma_without_other(m0, "type"@, "mode"@);
            lemma_without_other(m1, "name"@, "mode"@);
            lemma_without_other(m2, "provider"@, "mode"@);
            lemma_without_other(m0, "type"@, "instances"@);
            lemma_without_other(m1, "name"@, "instances"@);
            lemma_without_other(m2, "provider"@, "instances"@);
            lemma_without_other(m3, "mode"@, "instances"@);
            lemma_without_other(m0, "type"@, "module"@);
            lemma_without_other(m1, "name"@, "module"@);
            lemma_without_other(m2, "provider"@, "module"@);
            lemma_without_other(m3, "mode"@, "module"@);
            lemma_without_other(m4, "instances"@, "module"@);
        }
        let type_ = match t {
            Some(JsonValue::Str(s)) => s,
            _ => return Err(field_error("type")),
        };
        let name = match n {
            Some(JsonValue::Str(s)) => s,
            _ => return Err(field_error("name")),
        };
        let provider = match p {
            Some(JsonValue::Str(s)) => s,
            _ => return Err(field_error("provider")),
        };
        let mode = match md {
            Some(JsonValue::Str(s)) => s,
            _ => return Err(field_error("mode")),
        };
        let instances = match i {
            Some(JsonValue::Array(items)) => items,
            _ => return Err(field_error("instances")),
        };
        let module = match mo {
            None => None,
            Some(JsonValue::Null) => None,
            Some(JsonValue::Str(s)) => Some(s),
            _ => return Err(field_error("module")),
        };
        Ok(TerraformResource { type_, name, provider, mode, instances, module, extra: ms })
    }
}

/// Reading a resource and writing it back keeps every member that the
/// model does not name, unchanged and in order, after the named ones.
pub proof fn lemma_resource_round_trip(ms: Vec<(String, JsonValue)>, r: TerraformResource)
    requires
        resource_decoded(ms@, r),
    ensures
        r.extra@ == resource_rest(ms@),
        resource_text(r) == "{\"type\":"@ + json_quoted(r.type_@) + ",\"name\":"@ + json_quoted(
            r.name@,
        ) + ",\"provider\":"@ + json_quoted(r.provider@) + ",\"mode\":"@ + json_quoted(r.mode@)
            + ",\"instances\":["@ + render_items(r.instances@) + "],\"module\":"@ + opt_str_text(
            r.module,
        ) + extra_text(resource_rest(ms@)) + "}"@,
{
}

/// The member is a number written as the decimal form of a `u64`.
pub open spec fn is_u64_number(o: Option<JsonValue>) -> bool {
    o matches Some(JsonValue::Number(t)) && exists|n: u64| t@ == #[trigger] decimal(n as nat)
}

/// The member is the number `n`.
pub open spec fn holds_u64(o: Option<JsonValue>, n: u64) -> bool {
    o matches Some(JsonValue::Number(t)) && t@ == decimal(n as nat)
}

/// The value is an output object: `sensitive` absent, null or a boolean,
/// `type` and `value` present.
pub open spec fn output_ok(v: JsonValue) -> bool {
    &&& v is Object
    &&& match member(v->Object_0@, "sensitive"@) {
        None => true,
        Some(JsonValue::Null) => true,
        Some(JsonValue::Bool(_)) => true,
        _ => false,
    }
    &&& member(v->Object_0@, "type"@) is Some
    &&& member(v->Object_0@, "value"@) is Some
}

/// `o` holds the members of the output object `v`.
pub open spec fn output_decoded(v: JsonValue, o: TerraformStateOutput) -> bool {
    let ms = v->Object_0@;
    &&& match o.sensitive {
        Some(b) => member(ms, "sensitive"@) == Some(JsonValue::Bool(b)),
        None => member(ms, "sensitive"@) is None || member(ms, "sensitive"@) == Some(
            JsonValue::Null,
        ),
    }
    &&& member(ms, "type"@) == Some(o.type_)
    &&& member(ms, "value"@) == Some(o.value)
}

impl TerraformStateOutput {
    /// Reads an output from a JSON object.
    pub fn from_json(v: JsonValue) -> (r: Result<TerraformStateOutput, DecodeError>)
        ensures
            match r {
                Ok(o) => output_ok(v) && output_decoded(v, o),
                Err(_) => !output_ok(v),
            },
    {
        let mut ms = match v {
            JsonValue::Object(ms) => ms,
            _ => return Err(DecodeError::NotAnObject),
        };
        let ghost m0 = ms@;
        proof {
            reveal_strlit("sensitive");
            reveal_strlit("type");
            reveal_strlit("value");
            assert("sensitive"@.len() != "type"@.len());
            assert("sensitive"@.len() != "value"@.len());
            assert("type"@.len() != "value"@.len());
            lemma_without_other(m0, "sensitive"@, "type"@);
            lemma_without_other(m0, "sensitive"@, "value"@);
            lemma_without_other(without(m0, "sensitive"@), "type"@, "value"@);
        }
        let sensitive = match take_member(&mut ms, "sensitive") {
            None => None,
            Some(JsonValue::Null) => None,
            Some(JsonValue::Bool(b)) => Some(b),
            _ => return Err(field_error("sensitive")),
        };
        let type_ = match take_member(&mut ms, "type") {
            Some(t) => t,
            None => return Err(field_error("type")),
        };
        let value = match take_member(&mut ms, "value") {
            Some(x) => x,
            None => return Err(field_error("value")),
        };
        Ok(TerraformStateOutput { sensitive, type_, value })
    }
}

/// The value is an object that reads as a resource.
pub open spec fn resource_ok(v: JsonValue) -> bool {
    v is Object && resource_error(v->Object_0@) is None
}

fn outputs_from_json(oms: Vec<(String, JsonValue)>) -> (r: Result<
    Vec<(String, TerraformStateOutput)>,
    DecodeError,
>)
    ensures
        match r {
            Ok(out) => {
                &&& out@.len() == oms@.len()
                &&& forall|i: int|
                    0 <= i < oms@.len() ==> output_ok((#[trigger] oms@[i]).1) && out@[i].0
                        == oms@[i].0 && output_decoded(oms@[i].1, out@[i].1)
            },
            Err(_) => exists|i: int| 0 <= i < oms@.len() && !output_ok(#[trigger] oms@[i].1),
        },
{
    let ghost all = oms@;
    let mut rest = oms;
    let mut out: Vec<(String, TerraformStateOutput)> = Vec::new();
    while rest.len() > 0
        invariant
            all == oms@,
            out@.len() + rest@.len() == all.len(),
            rest@ == all.subrange(out@.len() as int, all.len() as int),
            forall|i: int|
                0 <= i < out@.len() ==> output_ok((#[trigger] all[i]).1) && out@[i].0 == all[i].0
                    && output_decoded(all[i].1, out@[i].1),
        decreases rest@.len(),
    {
        let ghost k = out@.len() as int;
        let (name, v) = rest.remove(0);
        assert(v == all[k].1);
        match TerraformStateOutput::from_json(v) {
            Ok(o) => out.push((name, o)),
            Err(e) => {
                assert(!output_ok(all[k].1));
                return Err(e);
            },
        }
        assert(rest@ =~= all.subrange(out@.len() as int, all.len() as int));
    }
    Ok(out)
}

fn resources_from_json(items: Vec<JsonValue>) -> (r: Result<Vec<TerraformResource>, DecodeError>)
    ensures
        match r {
            Ok(out) => {
                &&& out@.len() == items@.len()
                &&& forall|i: int|
                    0 <= i < items@.len() ==> resource_ok(#[trigger] items@[i]) && resource_decoded(
                        items@[i]->Object_0@,
                        out@[i],
                    )
            },
            Err(_) => exists|i: int| 0 <= i < items@.len() && !resource_ok(#[trigger] items@[i]),
        },
{
    let ghost all = items@;
    let mut rest = items;
    let mut out: Vec<TerraformResource> = Vec::new();
    while rest.len() > 0
        invariant
            all == items@,
            out@.len() + rest@.len() == all.len(),
            rest@ == all.subrange(out@.len() as int, all.len() as int),
            forall|i: int|
                0 <= i < out@.len() ==> resource_ok(#[trigger] all[i]) && resource_decoded(
                    all[i]->Object_0@,
                    out@[i],
                ),
        decreases rest@.len(),
    {
        let ghost k = out@.len() as int;
        let v = rest.remove(0);
        assert(v == all[k]);
        match TerraformResource::from_json(v) {
            Ok(x) => out.push(x),
            Err(e) => {
                assert(!resource_ok(all[k]));
                return Err(e);
            },
        }
        assert(rest@ =~= all.subrange(out@.len() as int, all.len() as int));
    }
    Ok(out)
}

/// The members of the object under `outputs`.
pub open spec fn outputs_of(ms: Seq<(String, JsonValue)>) -> Seq<(String, JsonValue)> {
    member(ms, "outputs"@)->Some_0->Object_0@
}

/// The items of the array under `resources`.
pub open spec fn resources_of(ms: Seq<(String, JsonValue)>) -> Seq<JsonValue> {
    member(ms, "resources"@)->Some_0->Array_0@
}

/// `ms` reads as a state document.
pub open spec fn state_ok(ms: Seq<(String, JsonValue)>) -> bool {
    &&& is_u64_number(member(ms, "version"@))
    &&& is_str(member(ms, "terraform_version"@))
    &&& is_u64_number(member(ms, "serial"@))
    &&& is_str(member(ms, "lineage"@))
    &&& member(ms, "outputs"@) matches Some(JsonValue::Object(_))
    &&& forall|i: int|
        0 <= i < outputs_of(ms).len() ==> output_ok(#[trigger] outputs_of(ms)[i].1)
    &&& member(ms, "resources"@) matches Some(JsonValue::Array(_))
    &&& forall|i: int|
        0 <= i < resources_of(ms).len() ==> resource_ok(#[trigger] resources_of(ms)[i])
}

/// `st` holds the members of the state document `ms`.
pub open spec fn state_decoded(ms: Seq<(String, JsonValue)>, st: TerraformState) -> bool {
    &&& holds_u64(member(ms, "version"@), st.version)
    &&& member(ms, "terraform_version"@) == Some(JsonValue::Str(st.terraform_version))
    &&& holds_u64(member(ms, "serial"@), st.serial)
    &&& member(ms, "lineage"@) == Some(JsonValue::Str(st.lineage))
    &&& st.outputs@.len() == outputs_of(ms).len()
    &&& forall|i: int|
        0 <= i < outputs_of(ms).len() ==> st.outputs@[i].0 == (#[trigger] outputs_of(ms)[i]).0
            && output_decoded(outputs_of(ms)[i].1, st.outputs@[i].1)
    &&& st.resources@.len() == resources_of(ms).len()
    &&& forall|i: int|
        0 <= i < resources_of(ms).len() ==> resource_decoded(
            (#[trigger] resources_of(ms)[i])->Object_0@,
            st.resources@[i],
        )
}

fn take_u64(ms: &mut Vec<(String, JsonValue)>, k: &str) -> (r: Result<u64, DecodeError>)
    ensures
        final(ms)@ == without(old(ms)@, k@),
        match r {
            Ok(n) => holds_u64(member(old(ms)@, k@), n),
            Err(_) => !is_u64_number(member(old(ms)@, k@)),
        },
{
    match take_member(ms, k) {
        Some(JsonValue::Number(t)) => match parse_u64(t.as_str()) {
            Some(n) => Ok(n),
            None => Err(field_error(k)),
        },
        _ => Err(field_error(k)),
    }
}

impl TerraformState {
    /// Reads a state document from a JSON object. Members other than the
    /// named ones are not kept.
    pub fn from_json(v: JsonValue) -> (r: Result<TerraformState, DecodeError>)
        ensures
            match v {
                JsonValue::Object(ms) => match r {
                    Ok(st) => state_ok(ms@) && state_decoded(ms@, st),
                    Err(_) => !state_ok(ms@),
                },
                _ => r matches Err(DecodeError::NotAnObject),
            },
    {
        let mut ms = match v {
            JsonValue::Object(ms) => ms,
            _ => return Err(DecodeError::NotAnObject),
        };
        let ghost m0 = ms@;
        proof {
            reveal_strlit("version");
            reveal_strlit("terraform_version");
            reveal_strlit("serial");
            reveal_strlit("lineage");
            reveal_strlit("outputs");
            reveal_strlit("resources");
            assert("version"@[0] != "serial"@[0]);
            assert("version"@[0] != "lineage"@[0]);
            assert("version"@[0] != "outputs"@[0]);
            assert("lineage"@[0] != "outputs"@[0]);
            assert("serial"@[0] != "lineage"@[0]);
            assert("serial"@[0] != "outputs"@[0]);
            assert("version"@.len() != "terraform_version"@.len());
            assert("version"@.len() != "resources"@.len());
            assert("terraform_version"@.len() != "serial"@.len());
            assert("terraform_version"@.len() != "lineage"@.len());
            assert("terraform_version"@.len() != "outputs"@.len());
            assert("terraform_version"@.len() != "resources"@.len());
            assert("serial"@.len() != "resources"@.len());
            assert("lineage"@.len() != "resources"@.len());
            assert("outputs"@.len() != "resources"@.len());
        }
        let version = match take_u64(&mut ms, "version") {
            Ok(n) => n,
            Err(e) => return Err(e),
        };
        let ghost m1 = ms@;
        proof {
            lemma_without_other(m0, "version"@, "terraform_version"@);
            lemma_without_other(m0, "version"@, "serial"@);
            lemma_without_other(m0, "version"@, "lineage"@);
            lemma_without_other(m0, "version"@, "outputs"@);
            lemma_without_other(m0, "version"@, "resources"@);
        }
        let terraform_version = match take_str(&mut ms, "terraform_version") {
            Ok(t) => t,
            Err(e) => return Err(e),
        };
        let ghost m2 = ms@;
        proof {
            lemma_without_other(m1, "terraform_version"@, "serial"@);
            lemma_without_other(m1, "terraform_version"@, "lineage"@);
            lemma_without_other(m1, "terraform_version"@, "outputs"@);
            lemma_without_other(m1, "terraform_version"@, "resources"@);
        }
        let serial = match take_u64(&mut ms, "serial") {
            Ok(n) => n,
            Err(e) => return Err(e),
        };
        let ghost m3 = ms@;
        proof {
            lemma_without_other(m2, "serial"@, "lineage"@);
            lemma_without_other(m2, "serial"@, "outputs"@);
            lemma_without_other(m2, "serial"@, "resources"@);
        }
        let lineage = match take_str(&mut ms, "lineage") {
            Ok(t) => t,
            Err(e) => return Err(e),
        };
        let ghost m4 = ms@;
        proof {
            lemma_without_other(m3, "lineage"@, "outputs"@);
            lemma_without_other(m3, "lineage"@, "resources"@);
            lemma_without_other(m4, "outputs"@, "resources"@);
        }
        let oms = match take_member(&mut ms, "outputs") {
            Some(JsonValue::Object(oms)) => oms,
            _ => return Err(field_error("outputs")),
        };
        let items = match take_member(&mut ms, "resources") {
            Some(JsonValue::Array(items)) => items,
            _ => return Err(field_error("resources")),
        };
        let ghost os = oms@;
        let ghost its = items@;
        assert(outputs_of(m0) == os);
        assert(resources_of(m0) == its);
        let outputs = match outputs_from_json(oms) {
            Ok(o) => o,
            Err(e) => {
                proof {
                    let i = choose|i: int| 0 <= i < os.len() && !output_ok(#[trigger] os[i].1);
                    assert(!output_ok(outputs_of(m0)[i].1));
                }
                return Err(e);
            },
        };
        let resources = match resources_from_json(items) {
            Ok(r) => r,
            Err(e) => {
                proof {
                    let i = choose|i: int| 0 <= i < its.len() && !resource_ok(#[trigger] its[i]);
                    assert(!resource_ok(resources_of(m0)[i]));
                }
                return Err(e);
            },
        };
        Ok(TerraformState { version, terraform_version, serial, lineage, outputs, resources })
    }
}

} // verus!
