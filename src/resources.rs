//! The organization and workspace records that the service lists, read
//! from JSON; members that the model does not name are kept.
use vstd::prelude::*;
use crate::envelope::ResourceList;
use crate::json::{
    field_error, is_opt_str, is_str, lemma_without_other, member, take_bool, take_member,
    take_opt_str, take_str, without, DecodeError, JsonValue,
};

verus! {

/// The first of `id` (a string), `type` (a string) and `attributes` (an
/// object) that is missing or of the wrong kind.
pub open spec fn head_error(ms: Seq<(String, JsonValue)>) -> Option<Seq<char>> {
    if !is_str(member(ms, "id"@)) {
        Some("id"@)
    } else if !is_str(member(ms, "type"@)) {
        Some("type"@)
    } else if !(member(ms, "attributes"@) matches Some(JsonValue::Object(_))) {
        Some("attributes"@)
    } else {
        None
    }
}

/// The members of the `attributes` object.
pub open spec fn attrs_of(ms: Seq<(String, JsonValue)>) -> Seq<(String, JsonValue)> {
    member(ms, "attributes"@)->Some_0->Object_0@
}

/// The members other than `id`, `type` and `attributes`.
pub open spec fn head_rest(ms: Seq<(String, JsonValue)>) -> Seq<(String, JsonValue)> {
    without(without(without(ms, "id"@), "type"@), "attributes"@)
}

/// Takes out `id`, `type` and `attributes`.
fn take_head(ms: &mut Vec<(String, JsonValue)>) -> (r: Result<
    (String, String, Vec<(String, JsonValue)>),
    DecodeError,
>)
    ensures
        match r {
            Ok((id, ty, a)) => {
                &&& head_error(old(ms)@) is None
                &&& member(old(ms)@, "id"@) == Some(JsonValue::Str(id))
                &&& member(old(ms)@, "type"@) == Some(JsonValue::Str(ty))
                &&& member(old(ms)@, "attributes"@) == Some(JsonValue::Object(a))
                &&& final(ms)@ == head_rest(old(ms)@)
            },
            Err(DecodeError::Field(f)) => head_error(old(ms)@) == Some(f@),
            Err(DecodeError::NotAnObject) => false,
        },
{
    let ghost m0 = ms@;
    proof {
        reveal_strlit("id");
        reveal_strlit("type");
        reveal_strlit("attributes");
        assert("id"@.len() != "type"@.len());
        assert("id"@.len() != "attributes"@.len());
        assert("type"@.len() != "attributes"@.len());
        lemma_without_other(m0, "id"@, "type"@);
        lemma_without_other(m0, "id"@, "attributes"@);
        lemma_without_other(without(m0, "id"@), "type"@, "attributes"@);
    }
    let id = match take_str(ms, "id") {
        Ok(s) => s,
        Err(e) => return Err(e),
    };
    let ty = match take_str(ms, "type") {
        Ok(s) => s,
        Err(e) => return Err(e),
    };
    match take_member(ms, "attributes") {
        Some(JsonValue::Object(a)) => Ok((id, ty, a)),
        _ => Err(field_error("attributes")),
    }
}

/// An organization.
#[derive(Debug)]
pub struct Organization {
    pub id: String,
    pub type_: String,
    pub attributes: OrganizationAttributes,
    pub extra: Vec<(String, JsonValue)>,
}

#[derive(Debug)]
pub struct OrganizationAttributes {
    pub name: String,
    pub email: String,
    pub extra: Vec<(String, JsonValue)>,
}

/// The first member of an organization that is missing or of the wrong kind.
pub open spec fn organization_error(ms: Seq<(String, JsonValue)>) -> Option<Seq<char>> {
    if head_error(ms) is Some {
        head_error(ms)
    } else if !is_str(member(attrs_of(ms), "name"@)) {
        Some("name"@)
    } else if !is_str(member(attrs_of(ms), "email"@)) {
        Some("email"@)
    } else {
        None
    }
}

/// `o` holds the members of `ms`; the unnamed ones stay in the `extra` lists.
pub open spec fn organization_decoded(ms: Seq<(String, JsonValue)>, o: Organization) -> bool {
    &&& member(ms, "id"@) == Some(JsonValue::Str(o.id))
    &&& member(ms, "type"@) == Some(JsonValue::Str(o.type_))
    &&& member(attrs_of(ms), "name"@) == Some(JsonValue::Str(o.attributes.name))
    &&& member(attrs_of(ms), "email"@) == Some(JsonValue::Str(o.attributes.email))
    &&& o.attributes.extra@ == without(without(attrs_of(ms), "name"@), "email"@)
    &&& o.extra@ == head_rest(ms)
}

/// `name (id)`.
pub open spec fn labelled(name: Seq<char>, id: Seq<char>) -> Seq<char> {
    name + " ("@ + id + ")"@
}

fn write_labelled(name: &String, id: &String) -> (r: String)
    ensures
        r@ == labelled(name@, id@),
{
    let mut out = String::new();
    out.append(name.as_str());
    out.append(" (");
    out.append(id.as_str());
    out.append(")");
    out
}

impl Organization {
    /// Reads an organization from a JSON object.
    pub fn from_json(v: JsonValue) -> (r: Result<Organization, DecodeError>)
        ensures
            match v {
                JsonValue::Object(ms) => match r {
                    Ok(o) => organization_error(ms@) is None && organization_decoded(ms@, o),
                    Err(DecodeError::Field(f)) => organization_error(ms@) == Some(f@),
                    Err(DecodeError::NotAnObject) => false,
                },
                _ => r matches Err(DecodeError::NotAnObject),
            },
    {
        let mut ms = match v {
            JsonValue::Object(ms) => ms,
            _ => return Err(DecodeError::NotAnObject),
        };
        let (id, type_, mut am) = match take_head(&mut ms) {
            Ok(h) => h,
            Err(e) => return Err(e),
        };
        let ghost a0 = am@;
        proof {
            reveal_strlit("name");
            reveal_strlit("email");
            assert("name"@.len() != "email"@.len());
            lemma_without_other(a0, "name"@, "email"@);
        }
        let name = match take_str(&mut am, "name") {
            Ok(s) => s,
            Err(e) => return Err(e),
        };
        let email = match take_str(&mut am, "email") {
            Ok(s) => s,
            Err(e) => return Err(e),
        };
        Ok(
            Organization {
                id,
                type_,
                attributes: OrganizationAttributes { name, email, extra: am },
                extra: ms,
            },
        )
    }

    /// `name (id)`.
    pub fn to_string(&self) -> (r: String)
        ensures
            r@ == labelled(self.attributes.name@, self.id@),
    {
        write_labelled(&self.attributes.name, &self.id)
    }
}

/// A workspace.
#[derive(Debug)]
pub struct Workspace {
    pub id: String,
    pub type_: String,
    pub attributes: WorkspaceAttributes,
    pub extra: Vec<(String, JsonValue)>,
}

#[derive(Debug)]
pub struct WorkspaceAttributes {
    pub name: String,
    pub extra: Vec<(String, JsonValue)>,
}

/// The first member of a workspace that is missing or of the wrong kind.
pub open spec fn workspace_error(ms: Seq<(String, JsonValue)>) -> Option<Seq<char>> {
    if head_error(ms) is Some {
        head_error(ms)
    } else if !is_str(member(attrs_of(ms), "name"@)) {
        Some("name"@)
    } else {
        None
    }
}

/// `w` holds the members of `ms`; the unnamed ones stay in the `extra` lists.
pub open spec fn workspace_decoded(ms: Seq<(String, JsonValue)>, w: Workspace) -> bool {
    &&& member(ms, "id"@) == Some(JsonValue::Str(w.id))
    &&& member(ms, "type"@) == Some(JsonValue::Str(w.type_))
    &&& member(attrs_of(ms), "name"@) == Some(JsonValue::Str(w.attributes.name))
    &&& w.attributes.extra@ == without(attrs_of(ms), "name"@)
    &&& w.extra@ == head_rest(ms)
}

impl Workspace {
    /// Reads a workspace from a JSON object.
    pub fn from_json(v: JsonValue) -> (r: Result<Workspace, DecodeError>)
        ensures
            match v {
                JsonValue::Object(ms) => match r {
                    Ok(w) => workspace_error(ms@) is None && workspace_decoded(ms@, w),
                    Err(DecodeError::Field(f)) => workspace_error(ms@) == Some(f@),
                    Err(DecodeError::NotAnObject) => false,
                },
                _ => r matches Err(DecodeError::NotAnObject),
            },
    {
        let mut ms = match v {
            JsonValue::Object(ms) => ms,
            _ => return Err(DecodeError::NotAnObject),
        };
        let (id, type_, mut am) = match take_head(&mut ms) {
            Ok(h) => h,
            Err(e) => return Err(e),
        };
        let name = match take_str(&mut am, "name") {
            Ok(s) => s,
            Err(e) => return Err(e),
        };
        Ok(Workspace { id, type_, attributes: WorkspaceAttributes { name, extra: am }, extra: ms })
    }

    /// `name (id)`.
    pub fn to_string(&self) -> (r: String)
        ensures
            r@ == labelled(self.attributes.name@, self.id@),
    {
        write_labelled(&self.attributes.name, &self.id)
    }
}

/// Like `head_error`, but `attributes` may also be absent or null.
pub open spec fn opt_head_error(ms: Seq<(String, JsonValue)>) -> Option<Seq<char>> {
    if !is_str(member(ms, "id"@)) {
        Some("id"@)
    } else if !is_str(member(ms, "type"@)) {
        Some("type"@)
    } else {
        match member(ms, "attributes"@) {
            None => None,
            Some(JsonValue::Null) => None,
            Some(JsonValue::Object(_)) => None,
            _ => Some("attributes"@),
        }
    }
}

/// `attributes` is given as an object.
pub open spec fn has_attrs(ms: Seq<(String, JsonValue)>) -> bool {
    member(ms, "attributes"@) matches Some(JsonValue::Object(_))
}

/// Takes out `id`, `type` and, if it is an object, `attributes`.
fn take_opt_head(ms: &mut Vec<(String, JsonValue)>) -> (r: Result<
    (String, String, Option<Vec<(String, JsonValue)>>),
    DecodeError,
>)
    ensures
        match r {
            Ok((id, ty, a)) => {
                &&& opt_head_error(old(ms)@) is None
                &&& member(old(ms)@, "id"@) == Some(JsonValue::Str(id))
                &&& member(old(ms)@, "type"@) == Some(JsonValue::Str(ty))
                &&& match a {
                    Some(a) => member(old(ms)@, "attributes"@) == Some(JsonValue::Object(a)),
                    None => !has_attrs(old(ms)@),
                }
                &&& final(ms)@ == head_rest(old(ms)@)
            },
            Err(DecodeError::Field(f)) => opt_head_error(old(ms)@) == Some(f@),
            Err(DecodeError::NotAnObject) => false,
        },
{
    let ghost m0 = ms@;
    proof {
        reveal_strlit("id");
        reveal_strlit("type");
        reveal_strlit("attributes");
        assert("id"@.len() != "type"@.len());
        assert("id"@.len() != "attributes"@.len());
        assert("type"@.len() != "attributes"@.len());
        lemma_without_other(m0, "id"@, "type"@);
        lemma_without_other(m0, "id"@, "attributes"@);
        lemma_without_other(without(m0, "id"@), "type"@, "attributes"@);
    }
    let id = match take_str(ms, "id") {
        Ok(s) => s,
        Err(e) => return Err(e),
    };
    let ty = match take_str(ms, "type") {
        Ok(s) => s,
        Err(e) => return Err(e),
    };
    match take_member(ms, "attributes") {
        None => Ok((id, ty, None)),
        Some(JsonValue::Null) => Ok((id, ty, None)),
        Some(JsonValue::Object(a)) => Ok((id, ty, Some(a))),
        _ => Err(field_error("attributes")),
    }
}

/// A variable of a workspace.
#[derive(Debug)]
pub struct WorkspaceVariable {
    pub id: String,
    pub type_: String,
    pub attributes: Option<WorkspaceVariableAttributes>,
    pub extra: Vec<(String, JsonValue)>,
}

#[derive(Debug)]
pub struct WorkspaceVariableAttributes {
    pub key: String,
    pub value: Option<String>,
    pub category: String,
    pub sensitive: bool,
    pub hcl: bool,
    pub extra: Vec<(String, JsonValue)>,
}

/// The member is a boolean.
pub open spec fn is_bool(o: Option<JsonValue>) -> bool {
    o matches Some(JsonValue::Bool(_))
}

/// The first attribute of a workspace variable that is missing or of the
/// wrong kind.
pub open spec fn workspace_variable_attributes_error(a: Seq<(String, JsonValue)>) -> Option<
    Seq<char>,
> {
    if !is_str(member(a, "key"@)) {
        Some("key"@)
    } else if !is_opt_str(member(a, "value"@)) {
        Some("value"@)
    } else if !is_str(member(a, "category"@)) {
        Some("category"@)
    } else if !is_bool(member(a, "sensitive"@)) {
        Some("sensitive"@)
    } else if !is_bool(member(a, "hcl"@)) {
        Some("hcl"@)
    } else {
        None
    }
}

/// The first member of a workspace variable that is missing or of the
/// wrong kind.
pub open spec fn workspace_variable_error(ms: Seq<(String, JsonValue)>) -> Option<Seq<char>> {
    if opt_head_error(ms) is Some {
        opt_head_error(ms)
    } else if has_attrs(ms) {
        workspace_variable_attributes_error(attrs_of(ms))
    } else {
        None
    }
}

/// The member holds the optional string `o`: absent or null for `None`.
pub open spec fn holds_opt_str(m: Option<JsonValue>, o: Option<String>) -> bool {
    match o {
        Some(s) => m == Some(JsonValue::Str(s)),
        None => m is None || m == Some(JsonValue::Null),
    }
}

/// `a` holds the attributes `am`; the unnamed ones stay in `extra`.
pub open spec fn workspace_variable_attributes_decoded(
    am: Seq<(String, JsonValue)>,
    a: WorkspaceVariableAttributes,
) -> bool {
    &&& member(am, "key"@) == Some(JsonValue::Str(a.key))
    &&& holds_opt_str(member(am, "value"@), a.value)
    &&& member(am, "category"@) == Some(JsonValue::Str(a.category))
    &&& member(am, "sensitive"@) == Some(JsonValue::Bool(a.sensitive))
    &&& member(am, "hcl"@) == Some(JsonValue::Bool(a.hcl))
    &&& a.extra@ == without(
        without(without(without(without(am, "key"@), "value"@), "category"@), "sensitive"@),
        "hcl"@,
    )
}

/// `w` holds the members of `ms`; the unnamed ones stay in the `extra` lists.
pub open spec fn workspace_variable_decoded(ms: Seq<(String, JsonValue)>, w: WorkspaceVariable) -> bool {
    &&& member(ms, "id"@) == Some(JsonValue::Str(w.id))
    &&& member(ms, "type"@) == Some(JsonValue::Str(w.type_))
    &&& match w.attributes {
        Some(a) => has_attrs(ms) && workspace_variable_attributes_decoded(attrs_of(ms), a),
        None => !has_attrs(ms),
    }
    &&& w.extra@ == head_rest(ms)
}

impl WorkspaceVariableAttributes {
    fn from_members(am: Vec<(String, JsonValue)>) -> (r: Result<WorkspaceVariableAttributes, DecodeError>)
        ensures
            match r {
                Ok(a) => workspace_variable_attributes_error(am@) is None
                    && workspace_variable_attributes_decoded(am@, a),
                Err(DecodeError::Field(f)) => workspace_variable_attributes_error(am@) == Some(f@),
                Err(DecodeError::NotAnObject) => false,
            },
    {
        let mut am = am;
        let ghost a0 = am@;
        proof {
            reveal_strlit("key");
            reveal_strlit("value");
            reveal_strlit("category");
            reveal_strlit("sensitive");
            reveal_strlit("hcl");
            assert("key"@[0] != "hcl"@[0]);
            assert("key"@.len() != "value"@.len());
            assert("key"@.len() != "category"@.len());
            assert("key"@.len() != "sensitive"@.len());
            assert("value"@.len() != "category"@.len());
            assert("value"@.len() != "sensitive"@.len());
            assert("value"@.len() != "hcl"@.len());
            assert("category"@.len() != "sensitive"@.len());
            assert("category"@.len() != "hcl"@.len());
            assert("sensitive"@.len() != "hcl"@.len());
        }
        let key = match take_str(&mut am, "key") {
            Ok(s) => s,
            Err(e) => return Err(e),
        };
        let ghost a1 = am@;
        let value = match take_opt_str(&mut am, "value") {
            Ok(s) => s,
            Err(e) => {
                proof {
                    lemma_without_other(a0, "key"@, "value"@);
                }
                return Err(e);
            },
        };
        let ghost a2 = am@;
        proof {
            lemma_without_other(a0, "key"@, "value"@);
            lemma_without_other(a0, "key"@, "category"@);
            lemma_without_other(a1, "value"@, "category"@);
            lemma_without_other(a0, "key"@, "sensitive"@);
            lemma_without_other(a1, "value"@, "sensitive"@);
            lemma_without_other(a0, "key"@, "hcl"@);
            lemma_without_other(a1, "value"@, "hcl"@);
        }
        let category = match take_str(&mut am, "category") {
            Ok(s) => s,
            Err(e) => return Err(e),
        };
        let ghost a3 = am@;
        proof {
            lemma_without_other(a2, "category"@, "sensitive"@);
            lemma_without_other(a2, "category"@, "hcl"@);
        }
        let sensitive = match take_bool(&mut am, "sensitive") {
            Ok(b) => b,
            Err(e) => return Err(e),
        };
        proof {
            lemma_without_other(a3, "sensitive"@, "hcl"@);
        }
        let hcl = match take_bool(&mut am, "hcl") {
            Ok(b) => b,
            Err(e) => return Err(e),
        };
        Ok(WorkspaceVariableAttributes { key, value, category, sensitive, hcl, extra: am })
    }
}

impl WorkspaceVariable {
    /// Reads a workspace variable from a JSON object.
    pub fn from_json(v: JsonValue) -> (r: Result<WorkspaceVariable, DecodeError>)
        ensures
            match v {
                JsonValue::Object(ms) => match r {
                    Ok(w) => workspace_variable_error(ms@) is None && workspace_variable_decoded(
                        ms@,
                        w,
                    ),
                    Err(DecodeError::Field(f)) => workspace_variable_error(ms@) == Some(f@),
                    Err(DecodeError::NotAnObject) => false,
                },
                _ => r matches Err(DecodeError::NotAnObject),
            },
    {
        let mut ms = match v {
            JsonValue::Object(ms) => ms,
            _ => return Err(DecodeError::NotAnObject),
        };
        let (id, type_, am) = match take_opt_head(&mut ms) {
            Ok(h) => h,
            Err(e) => return Err(e),
        };
        let attributes = match am {
            None => None,
            Some(am) => match WorkspaceVariableAttributes::from_members(am) {
                Ok(a) => Some(a),
                Err(e) => return Err(e),
            },
        };
        Ok(WorkspaceVariable { id, type_, attributes, extra: ms })
    }
}

/// A variable of a variable set. Members other than `id`, `type` and
/// `attributes` are not kept.
#[derive(Debug)]
pub struct VarsetVariable {
    pub id: String,
    pub type_: String,
    pub attributes: Option<VarsetVariableAttributes>,
}

#[derive(Debug)]
pub struct VarsetVariableAttributes {
    pub key: String,
    pub value: Option<String>,
    pub extra: Vec<(String, JsonValue)>,
}

/// The first attribute of a variable-set variable that is missing or of
/// the wrong kind.
pub open spec fn varset_variable_attributes_error(a: Seq<(String, JsonValue)>) -> Option<Seq<char>> {
    if !is_str(member(a, "key"@)) {
        Some("key"@)
    } else if !is_opt_str(member(a, "value"@)) {
        Some("value"@)
    } else {
        None
    }
}

/// The first member of a variable-set variable that is missing or of the
/// wrong kind.
pub open spec fn varset_variable_error(ms: Seq<(String, JsonValue)>) -> Option<Seq<char>> {
    if opt_head_error(ms) is Some {
        opt_head_error(ms)
    } else if has_attrs(ms) {
        varset_variable_attributes_error(attrs_of(ms))
    } else {
        None
    }
}

/// `x` holds the members of `ms`.
pub open spec fn varset_variable_decoded(ms: Seq<(String, JsonValue)>, x: VarsetVariable) -> bool {
    &&& member(ms, "id"@) == Some(JsonValue::Str(x.id))
    &&& member(ms, "type"@) == Some(JsonValue::Str(x.type_))
    &&& match x.attributes {
        Some(a) => {
            &&& has_attrs(ms)
            &&& member(attrs_of(ms), "key"@) == Some(JsonValue::Str(a.key))
            &&& holds_opt_str(member(attrs_of(ms), "value"@), a.value)
            &&& a.extra@ == without(without(attrs_of(ms), "key"@), "value"@)
        },
        None => !has_attrs(ms),
    }
}

impl VarsetVariable {
    /// Reads a variable-set variable from a JSON object.
    pub fn from_json(v: JsonValue) -> (r: Result<VarsetVariable, DecodeError>)
        ensures
            match v {
                JsonValue::Object(ms) => match r {
                    Ok(x) => varset_variable_error(ms@) is None && varset_variable_decoded(ms@, x),
                    Err(DecodeError::Field(f)) => varset_variable_error(ms@) == Some(f@),
                    Err(DecodeError::NotAnObject) => false,
                },
                _ => r matches Err(DecodeError::NotAnObject),
            },
    {
        let mut ms = match v {
            JsonValue::Object(ms) => ms,
            _ => return Err(DecodeError::NotAnObject),
        };
        let (id, type_, am) = match take_opt_head(&mut ms) {
            Ok(h) => h,
            Err(e) => return Err(e),
        };
        let attributes = match am {
            None => None,
            Some(am) => {
                let mut am = am;
                let ghost a0 = am@;
                proof {
                    reveal_strlit("key");
                    reveal_strlit("value");
                    assert("key"@.len() != "value"@.len());
                    lemma_without_other(a0, "key"@, "value"@);
                }
                let key = match take_str(&mut am, "key") {
                    Ok(s) => s,
                    Err(e) => return Err(e),
                };
                let value = match take_opt_str(&mut am, "value") {
                    Ok(s) => s,
                    Err(e) => return Err(e),
                };
                Some(VarsetVariableAttributes { key, value, extra: am })
            },
        };
        Ok(VarsetVariable { id, type_, attributes })
    }
}

/// The value is an object that reads as a variable-set variable.
pub open spec fn variable_ok(v: JsonValue) -> bool {
    v is Object && varset_variable_error(v->Object_0@) is None
}

/// Reads each value of `items` as a variable-set variable, in order.
fn variables_from_json(items: Vec<JsonValue>) -> (r: Result<Vec<VarsetVariable>, DecodeError>)
    ensures
        match r {
            Ok(out) => {
                &&& out@.len() == items@.len()
                &&& forall|i: int|
                    0 <= i < items@.len() ==> variable_ok(#[trigger] items@[i])
                        && varset_variable_decoded(items@[i]->Object_0@, out@[i])
            },
            Err(_) => exists|i: int| 0 <= i < items@.len() && !variable_ok(#[trigger] items@[i]),
        },
{
    let ghost all = items@;
    let mut rest = items;
    let mut out: Vec<VarsetVariable> = Vec::new();
    while rest.len() > 0
        invariant
            all == items@,
            out@.len() + rest@.len() == all.len(),
            rest@ == all.subrange(out@.len() as int, all.len() as int),
            forall|i: int|
                0 <= i < out@.len() ==> variable_ok(#[trigger] all[i]) && varset_variable_decoded(
                    all[i]->Object_0@,
                    out@[i],
                ),
        decreases rest@.len(),
    {
        let ghost k = out@.len() as int;
        let v = rest.remove(0);
        assert(v == all[k]);
        match VarsetVariable::from_json(v) {
            Ok(x) => out.push(x),
            Err(e) => {
                assert(!variable_ok(all[k]));
                return Err(e);
            },
        }
        assert(rest@ =~= all.subrange(out@.len() as int, all.len() as int));
    }
    Ok(out)
}

/// A variable set and the variables it holds.
#[derive(Debug)]
pub struct Varset {
    pub id: String,
    pub type_: String,
    pub attributes: VarsetAttributes,
    pub relationships: VarsetRelationships,
    pub extra: Vec<(String, JsonValue)>,
}

#[derive(Debug)]
pub struct VarsetAttributes {
    pub name: String,
    pub global: bool,
    pub extra: Vec<(String, JsonValue)>,
}

#[derive(Debug)]
pub struct VarsetRelationships {
    pub vars: ResourceList<VarsetVariable>,
    pub extra: Vec<(String, JsonValue)>,
}

/// The members of the object under `k`.
pub open spec fn object_of(ms: Seq<(String, JsonValue)>, k: Seq<char>) -> Seq<(String, JsonValue)> {
    member(ms, k)->Some_0->Object_0@
}

/// The member under `k` is an object.
pub open spec fn has_object(ms: Seq<(String, JsonValue)>, k: Seq<char>) -> bool {
    member(ms, k) matches Some(JsonValue::Object(_))
}

/// The items of the `relationships.vars.data` list.
pub open spec fn var_items(ms: Seq<(String, JsonValue)>) -> Seq<JsonValue> {
    member(object_of(object_of(ms, "relationships"@), "vars"@), "data"@)->Some_0->Array_0@
}

/// `ms` reads as a variable set: every member of the right kind, every
/// variable readable.
pub open spec fn varset_ok(ms: Seq<(String, JsonValue)>) -> bool {
    let rest = head_rest(ms);
    &&& head_error(ms) is None
    &&& is_str(member(attrs_of(ms), "name"@))
    &&& is_bool(member(attrs_of(ms), "global"@))
    &&& has_object(rest, "relationships"@)
    &&& has_object(object_of(rest, "relationships"@), "vars"@)
    &&& member(object_of(object_of(rest, "relationships"@), "vars"@), "data"@) matches Some(
        JsonValue::Array(_),
    )
    &&& forall|i: int| 0 <= i < var_items(rest).len() ==> variable_ok(#[trigger] var_items(rest)[i])
}

/// `x` holds the members of `ms`; the unnamed ones stay in the `extra` lists.
pub open spec fn varset_decoded(ms: Seq<(String, JsonValue)>, x: Varset) -> bool {
    let rest = head_rest(ms);
    let rel = object_of(rest, "relationships"@);
    &&& member(ms, "id"@) == Some(JsonValue::Str(x.id))
    &&& member(ms, "type"@) == Some(JsonValue::Str(x.type_))
    &&& member(attrs_of(ms), "name"@) == Some(JsonValue::Str(x.attributes.name))
    &&& member(attrs_of(ms), "global"@) == Some(JsonValue::Bool(x.attributes.global))
    &&& x.attributes.extra@ == without(without(attrs_of(ms), "name"@), "global"@)
    &&& x.relationships.vars.data@.len() == var_items(rest).len()
    &&& forall|i: int|
        0 <= i < var_items(rest).len() ==> varset_variable_decoded(
            #[trigger] var_items(rest)[i]->Object_0@,
            x.relationships.vars.data@[i],
        )
    &&& x.relationships.extra@ == without(rel, "vars"@)
    &&& x.extra@ == without(rest, "relationships"@)
}

impl Varset {
    /// Reads a variable set from a JSON object: `relationships.vars.data`
    /// holds its variables.
    pub fn from_json(v: JsonValue) -> (r: Result<Varset, DecodeError>)
        ensures
            match v {
                JsonValue::Object(ms) => match r {
                    Ok(x) => varset_ok(ms@) && varset_decoded(ms@, x),
                    Err(_) => !varset_ok(ms@),
                },
                _ => r matches Err(DecodeError::NotAnObject),
            },
    {
        let mut ms = match v {
            JsonValue::Object(ms) => ms,
            _ => return Err(DecodeError::NotAnObject),
        };
        let ghost m0 = ms@;
        let (id, type_, mut am) = match take_head(&mut ms) {
            Ok(h) => h,
            Err(e) => return Err(e),
        };
        let ghost a0 = am@;
        let ghost rest = ms@;
        proof {
            reveal_strlit("name");
            reveal_strlit("global");
            assert("name"@.len() != "global"@.len());
            lemma_without_other(a0, "name"@, "global"@);
        }
        let name = match take_str(&mut am, "name") {
            Ok(s) => s,
            Err(e) => return Err(e),
        };
        let global = match take_bool(&mut am, "global") {
            Ok(b) => b,
            Err(e) => return Err(e),
        };
        let mut rel = match take_member(&mut ms, "relationships") {
            Some(JsonValue::Object(rel)) => rel,
            _ => return Err(field_error("relationships")),
        };
        let mut vars = match take_member(&mut rel, "vars") {
            Some(JsonValue::Object(vars)) => vars,
            _ => return Err(field_error("vars")),
        };
        let items = match take_member(&mut vars, "data") {
            Some(JsonValue::Array(items)) => items,
            _ => return Err(field_error("data")),
        };
        let ghost its = items@;
        assert(var_items(rest) == its);
        let data = match variables_from_json(items) {
            Ok(d) => d,
            Err(e) => {
                proof {
                    let i = choose|i: int| 0 <= i < its.len() && !variable_ok(#[trigger] its[i]);
                    assert(!variable_ok(var_items(rest)[i]));
                }
                return Err(e);
            },
        };
        Ok(
            Varset {
                id,
                type_,
                attributes: VarsetAttributes { name, global, extra: am },
                relationships: VarsetRelationships { vars: ResourceList { data }, extra: rel },
                extra: ms,
            },
        )
    }
}

} // verus!
