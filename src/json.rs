//! A JSON document model, its compact rendering, and member lookup.
use vstd::prelude::*;
use vstd::string::StrSliceExecFns;

verus! {

broadcast use vstd::string::to_string_from_display_ensures_for_str;

/// A decoded JSON value. Objects keep their members in document order;
/// a number keeps the text it was written with.
#[derive(Debug)]
pub enum JsonValue {
    Null,
    Bool(bool),
    Number(String),
    Str(String),
    Array(Vec<JsonValue>),
    Object(Vec<(String, JsonValue)>),
}

/// The quoted and escaped JSON form of a string, as serde_json writes it.
pub uninterp spec fn json_quoted(s: Seq<char>) -> Seq<char>;

/// Relies on `serde_json::to_string` on a `str`: it writes the string as a
/// quoted JSON string literal and never fails (a `str` always serializes).
#[verifier::external_body]
pub(crate) fn quote(s: &str) -> (r: String)
    ensures
        r@ == json_quoted(s@),
{
    serde_json::to_string(s).unwrap_or_default()
}

/// Compact rendering: no whitespace, members and items in their order.
pub open spec fn render(v: JsonValue) -> Seq<char>
    decreases v,
{
    match v {
        JsonValue::Null => "null"@,
        JsonValue::Bool(b) => if b { "true"@ } else { "false"@ },
        JsonValue::Number(n) => n@,
        JsonValue::Str(s) => json_quoted(s@),
        JsonValue::Array(items) => "["@ + render_items(items@) + "]"@,
        JsonValue::Object(ms) => "{"@ + render_members(ms@) + "}"@,
    }
}

/// The comma-separated renderings of a sequence of values.
pub open spec fn render_items(s: Seq<JsonValue>) -> Seq<char>
    decreases s,
{
    if s.len() == 0 {
        Seq::empty()
    } else if s.len() == 1 {
        render(s[0])
    } else {
        render_items(s.drop_last()) + ","@ + render(s.last())
    }
}

/// The comma-separated renderings of a sequence of members.
pub open spec fn render_members(s: Seq<(String, JsonValue)>) -> Seq<char>
    decreases s,
{
    if s.len() == 0 {
        Seq::empty()
    } else if s.len() == 1 {
        json_quoted(s[0].0@) + ":"@ + render(s[0].1)
    } else {
        render_members(s.drop_last()) + ","@ + json_quoted(s.last().0@) + ":"@ + render(
            s.last().1,
        )
    }
}

/// Appends the compact rendering of `v` to `out`.
pub fn write_json(v: &JsonValue, out: &mut String)
    ensures
        final(out)@ == old(out)@ + render(*v),
    decreases v,
{
    match v {
        JsonValue::Null => out.append("null"),
        JsonValue::Bool(b) => {
            if *b {
                out.append("true")
            } else {
                out.append("false")
            }
        },
        JsonValue::Number(n) => out.append(n.as_str()),
        JsonValue::Str(s) => {
            let q = quote(s.as_str());
            out.append(q.as_str());
        },
        JsonValue::Array(items) => {
            let ghost start = out@;
            out.append("[");
            write_items(items, out);
            out.append("]");
            assert(out@ == start + "["@ + render_items(items@) + "]"@);
        },
        JsonValue::Object(ms) => {
            let ghost start = out@;
            out.append("{");
            write_members(ms, out);
            out.append("}");
            assert(out@ == start + "{"@ + render_members(ms@) + "}"@);
        },
    }
}

/// Appends the comma-separated renderings of `items` to `out`.
pub fn write_items(items: &Vec<JsonValue>, out: &mut String)
    ensures
        final(out)@ == old(out)@ + render_items(items@),
    decreases items,
{
    let ghost start = out@;
    let mut i: usize = 0;
    while i < items.len()
        invariant
            i <= items.len(),
            out@ == start + render_items(items@.subrange(0, i as int)),
        decreases items.len() - i,
    {
        proof {
            let s = items@.subrange(0, i as int + 1);
            assert(s.drop_last() =~= items@.subrange(0, i as int));
            if i == 0 {
                assert(items@.subrange(0, 0) =~= Seq::<JsonValue>::empty());
            }
        }
        if i > 0 {
            out.append(",");
        }
        write_json(&items[i], out);
        i = i + 1;
    }
    assert(items@.subrange(0, items.len() as int) =~= items@);
}

/// Appends the comma-separated renderings of `ms` to `out`.
pub fn write_members(ms: &Vec<(String, JsonValue)>, out: &mut String)
    ensures
        final(out)@ == old(out)@ + render_members(ms@),
    decreases ms,
{
    let ghost start = out@;
    let mut i: usize = 0;
    while i < ms.len()
        invariant
            i <= ms.len(),
            out@ == start + render_members(ms@.subrange(0, i as int)),
        decreases ms.len() - i,
    {
        proof {
            let s = ms@.subrange(0, i as int + 1);
            assert(s.drop_last() =~= ms@.subrange(0, i as int));
            if i == 0 {
                assert(ms@.subrange(0, 0) =~= Seq::<(String, JsonValue)>::empty());
            }
        }
        let ghost before = out@;
        if i > 0 {
            out.append(",");
        }
        let q = quote(ms[i].0.as_str());
        out.append(q.as_str());
        out.append(":");
        write_json(&ms[i].1, out);
        proof {
            let s = ms@.subrange(0, i as int + 1);
            if i == 0 {
                assert(out@ =~= start + render_members(s));
            } else {
                assert(out@ =~= before + ","@ + json_quoted(s.last().0@) + ":"@ + render(s.last().1));
            }
        }
        i = i + 1;
    }
    assert(ms@.subrange(0, ms.len() as int) =~= ms@);
}

/// `i` is the position of the first member of `ms` whose key is `k`.
pub open spec fn first_key_at(ms: Seq<(String, JsonValue)>, k: Seq<char>, i: int) -> bool {
    &&& 0 <= i < ms.len()
    &&& ms[i].0@ == k
    &&& forall|j: int| 0 <= j < i ==> ms[j].0@ != k
}

/// Some member of `ms` has the key `k`.
pub open spec fn has_key(ms: Seq<(String, JsonValue)>, k: Seq<char>) -> bool {
    exists|i: int| 0 <= i < ms.len() && ms[i].0@ == k
}

/// The position of the first member with key `k`.
pub open spec fn key_index(ms: Seq<(String, JsonValue)>, k: Seq<char>) -> int {
    choose|i: int| first_key_at(ms, k, i)
}

/// The value of the first member with key `k`, if any.
pub open spec fn member(ms: Seq<(String, JsonValue)>, k: Seq<char>) -> Option<JsonValue> {
    if has_key(ms, k) {
        Some(ms[key_index(ms, k)].1)
    } else {
        None
    }
}

/// `ms` without its first member with key `k`.
pub open spec fn without(ms: Seq<(String, JsonValue)>, k: Seq<char>) -> Seq<(String, JsonValue)> {
    if has_key(ms, k) {
        ms.remove(key_index(ms, k))
    } else {
        ms
    }
}

/// When some member has key `k`, a first one exists.
pub proof fn lemma_first_key_exists(ms: Seq<(String, JsonValue)>, k: Seq<char>)
    requires
        has_key(ms, k),
    ensures
        first_key_at(ms, k, key_index(ms, k)),
    decreases ms.len(),
{
    let p = ms.drop_last();
    if has_key(p, k) {
        lemma_first_key_exists(p, k);
        let j = key_index(p, k);
        assert forall|x: int| 0 <= x < j implies ms[x].0@ != k by {
            assert(p[x] == ms[x]);
        }
        assert(p[j] == ms[j]);
        assert(first_key_at(ms, k, j));
    } else {
        assert forall|j: int| 0 <= j < ms.len() - 1 implies ms[j].0@ != k by {
            assert(p[j] == ms[j]);
        }
        assert(first_key_at(ms, k, ms.len() - 1));
    }
}

/// Taking out the first member with one key leaves the lookup of any
/// other key unchanged.
pub proof fn lemma_without_other(ms: Seq<(String, JsonValue)>, a: Seq<char>, b: Seq<char>)
    requires
        a != b,
    ensures
        member(without(ms, a), b) == member(ms, b),
{
    if has_key(ms, a) {
        lemma_first_key_exists(ms, a);
        let i = key_index(ms, a);
        let m = without(ms, a);
        assert(m == ms.remove(i));
        if has_key(ms, b) {
            lemma_first_key_exists(ms, b);
            let j = key_index(ms, b);
            let jj = if j < i { j } else { j - 1 };
            assert(m[jj] == ms[j]);
            assert forall|x: int| 0 <= x < jj implies m[x].0@ != b by {
                if x < i {
                    assert(m[x] == ms[x]);
                } else {
                    assert(m[x] == ms[x + 1]);
                }
            }
            assert(first_key_at(m, b, jj));
            assert(has_key(m, b));
            lemma_first_key_exists(m, b);
            let c = key_index(m, b);
            if c < jj {
                assert(m[c].0@ != b);
            } else if jj < c {
                assert(m[jj].0@ != b);
            }
        } else {
            assert forall|x: int| 0 <= x < m.len() implies m[x].0@ != b by {
                if x < i {
                    assert(m[x] == ms[x]);
                } else {
                    assert(m[x] == ms[x + 1]);
                }
            }
        }
    }
}

/// Finds the first member of `ms` whose key is `k`.
pub fn find_key(ms: &Vec<(String, JsonValue)>, k: &str) -> (r: Option<usize>)
    ensures
        match r {
            Some(i) => first_key_at(ms@, k@, i as int),
            None => !has_key(ms@, k@),
        },
{
    let key = k.to_string();
    let mut i: usize = 0;
    while i < ms.len()
        invariant
            i <= ms.len(),
            key@ == k@,
            forall|j: int| 0 <= j < i ==> ms@[j].0@ != k@,
        decreases ms.len() - i,
    {
        if ms[i].0 == key {
            return Some(i);
        }
        i = i + 1;
    }
    None
}

/// Removes the first member of `ms` whose key is `k` and returns its value.
pub fn take_member(ms: &mut Vec<(String, JsonValue)>, k: &str) -> (r: Option<JsonValue>)
    ensures
        r == member(old(ms)@, k@),
        final(ms)@ == without(old(ms)@, k@),
{
    match find_key(ms, k) {
        Some(i) => {
            proof {
                let c = key_index(ms@, k@);
                assert(first_key_at(ms@, k@, c));
                if c < i {
                    assert(ms@[c].0@ != k@);
                } else if i < c {
                    assert(ms@[i as int].0@ != k@);
                }
            }
            let (_, v) = ms.remove(i);
            Some(v)
        },
        None => None,
    }
}

/// The lowercase hexadecimal digits, which begin with the decimal ones.
pub const DIGITS: &'static str = "0123456789abcdef";

/// The character of digit `d` (below 16).
pub open spec fn digit_char(d: int) -> char {
    DIGITS@[d]
}

/// The decimal form of `n`, without leading zeros.
pub open spec fn decimal(n: nat) -> Seq<char>
    decreases n,
{
    if n < 10 {
        seq![digit_char(n as int)]
    } else {
        decimal(n / 10) + seq![digit_char((n % 10) as int)]
    }
}

/// Appends digit `d` to `out`.
pub fn write_digit(d: u64, out: &mut String)
    requires
        d < 16,
    ensures
        final(out)@ == old(out)@ + seq![digit_char(d as int)],
{
    proof {
        reveal_strlit("0123456789abcdef");
    }
    let c = DIGITS.substring_char(d as usize, d as usize + 1);
    assert(c@ =~= seq![digit_char(d as int)]);
    out.append(c);
}

/// Appends the decimal form of `n` to `out`.
pub fn write_decimal(n: u64, out: &mut String)
    ensures
        final(out)@ == old(out)@ + decimal(n as nat),
    decreases n,
{
    if n >= 10 {
        write_decimal(n / 10, out);
    }
    write_digit(n % 10, out);
    assert(out@ =~= old(out)@ + decimal(n as nat));
}

/// Why a JSON value could not be read as a record.
#[derive(Debug)]
pub enum DecodeError {
    /// The value is not an object.
    NotAnObject,
    /// The named member is missing or of the wrong kind.
    Field(String),
}

/// The member is a string.
pub open spec fn is_str(o: Option<JsonValue>) -> bool {
    o matches Some(JsonValue::Str(_))
}

/// The member is absent, null, or a string.
pub open spec fn is_opt_str(o: Option<JsonValue>) -> bool {
    match o {
        None => true,
        Some(JsonValue::Null) => true,
        Some(JsonValue::Str(_)) => true,
        _ => false,
    }
}

pub(crate) fn field_error(name: &str) -> (r: DecodeError)
    ensures
        r matches DecodeError::Field(f) && f@ == name@,
{
    DecodeError::Field(name.to_string())
}

/// The first member with key `k` is taken out, and it is a string.
pub fn take_str(ms: &mut Vec<(String, JsonValue)>, k: &str) -> (r: Result<String, DecodeError>)
    ensures
        final(ms)@ == without(old(ms)@, k@),
        match r {
            Ok(s) => member(old(ms)@, k@) == Some(JsonValue::Str(s)),
            Err(DecodeError::Field(f)) => f@ == k@ && !is_str(member(old(ms)@, k@)),
            Err(DecodeError::NotAnObject) => false,
        },
{
    match take_member(ms, k) {
        Some(JsonValue::Str(s)) => Ok(s),
        _ => Err(field_error(k)),
    }
}

/// The first member with key `k` is taken out, and it is a boolean.
pub fn take_bool(ms: &mut Vec<(String, JsonValue)>, k: &str) -> (r: Result<bool, DecodeError>)
    ensures
        final(ms)@ == without(old(ms)@, k@),
        match r {
            Ok(b) => member(old(ms)@, k@) == Some(JsonValue::Bool(b)),
            Err(DecodeError::Field(f)) => f@ == k@ && !(member(old(ms)@, k@) matches Some(
                JsonValue::Bool(_),
            )),
            Err(DecodeError::NotAnObject) => false,
        },
{
    match take_member(ms, k) {
        Some(JsonValue::Bool(b)) => Ok(b),
        _ => Err(field_error(k)),
    }
}

/// The first member with key `k` is taken out; it is absent, null or a
/// string.
pub fn take_opt_str(ms: &mut Vec<(String, JsonValue)>, k: &str) -> (r: Result<
    Option<String>,
    DecodeError,
>)
    ensures
        final(ms)@ == without(old(ms)@, k@),
        match r {
            Ok(None) => member(old(ms)@, k@) is None || member(old(ms)@, k@) == Some(
                JsonValue::Null,
            ),
            Ok(Some(s)) => member(old(ms)@, k@) == Some(JsonValue::Str(s)),
            Err(DecodeError::Field(f)) => f@ == k@ && !is_opt_str(member(old(ms)@, k@)),
            Err(DecodeError::NotAnObject) => false,
        },
{
    match take_member(ms, k) {
        None => Ok(None),
        Some(JsonValue::Null) => Ok(None),
        Some(JsonValue::Str(s)) => Ok(Some(s)),
        _ => Err(field_error(k)),
    }
}

/// A decimal digit.
pub open spec fn is_digit(c: char) -> bool {
    '0' <= c <= '9'
}

/// The value of a string of decimal digits.
pub open spec fn value_of(t: Seq<char>) -> nat
    decreases t.len(),
{
    if t.len() == 0 {
        0
    } else {
        value_of(t.drop_last()) * 10 + ((t.last() as u32) - 48) as nat
    }
}

proof fn lemma_digit_char(d: int)
    requires
        0 <= d < 10,
    ensures
        is_digit(digit_char(d)),
        (digit_char(d) as u32) - 48 == d,
{
    reveal_strlit("0123456789abcdef");
    assert(DIGITS@ == seq!['0', '1', '2', '3', '4', '5', '6', '7', '8', '9', 'a', 'b', 'c', 'd', 'e', 'f']);
    if d == 0 {} else if d == 1 {} else if d == 2 {} else if d == 3 {} else if d == 4 {}
    else if d == 5 {} else if d == 6 {} else if d == 7 {} else if d == 8 {} else {}
}

/// The decimal form of `n` is a nonempty string of digits whose value is `n`.
pub proof fn lemma_decimal_value(n: nat)
    ensures
        decimal(n).len() > 0,
        forall|i: int| 0 <= i < decimal(n).len() ==> is_digit(#[trigger] decimal(n)[i]),
        value_of(decimal(n)) == n,
    decreases n,
{
    lemma_digit_char((n % 10) as int);
    if n >= 10 {
        lemma_decimal_value(n / 10);
        let t = decimal(n);
        assert(t.drop_last() =~= decimal(n / 10));
        assert forall|i: int| 0 <= i < t.len() implies is_digit(#[trigger] t[i]) by {
            if i < t.len() - 1 {
                assert(t[i] == decimal(n / 10)[i]);
            }
        }
        assert((n / 10) * 10 + n % 10 == n) by (nonlinear_arith);
        assert(value_of(t) == value_of(decimal(n / 10)) * 10 + n % 10);
    } else {
        assert(decimal(n).drop_last() =~= Seq::<char>::empty());
        assert(value_of(decimal(n)) == value_of(Seq::<char>::empty()) * 10 + n % 10);
    }
}

/// A prefix of a string of digits has no greater value.
proof fn lemma_value_prefix(t: Seq<char>, i: int)
    requires
        0 <= i <= t.len(),
    ensures
        value_of(t.subrange(0, i)) <= value_of(t),
    decreases t.len(),
{
    if i < t.len() {
        assert(t.drop_last() =~= t.subrange(0, t.len() - 1));
        if i < t.len() - 1 {
            lemma_value_prefix(t.drop_last(), i);
            assert(t.drop_last().subrange(0, i) =~= t.subrange(0, i));
        } else {
            assert(t.subrange(0, i) =~= t.drop_last());
        }
    } else {
        assert(t.subrange(0, i) =~= t);
    }
}

/// Reads the decimal form of an unsigned 64-bit integer, as `decimal`
/// writes it: digits only, no sign, no leading zero.
pub fn parse_u64(s: &str) -> (r: Option<u64>)
    ensures
        match r {
            Some(n) => s@ == decimal(n as nat),
            None => forall|n: u64| s@ != #[trigger] decimal(n as nat),
        },
{
    let len = s.unicode_len();
    let mut acc: u64 = 0;
    let mut i: usize = 0;
    while i < len
        invariant
            len == s@.len(),
            i <= len,
            acc as nat == value_of(s@.subrange(0, i as int)),
            forall|j: int| 0 <= j < i ==> is_digit(#[trigger] s@[j]),
        decreases len - i,
    {
        let c = s.get_char(i);
        proof {
            assert(s@.subrange(0, i as int + 1).drop_last() =~= s@.subrange(0, i as int));
        }
        if !('0' <= c && c <= '9') {
            proof {
                assert forall|n: u64| s@ != #[trigger] decimal(n as nat) by {
                    lemma_decimal_value(n as nat);
                }
            }
            return None;
        }
        let d = (c as u32 - 48) as u64;
        if acc > (u64::MAX - d) / 10 {
            proof {
                assert(acc * 10 + d > u64::MAX) by (nonlinear_arith)
                    requires
                        acc > (u64::MAX - d) / 10,
                        d <= 9;
                assert forall|n: u64| s@ != #[trigger] decimal(n as nat) by {
                    lemma_decimal_value(n as nat);
                    if s@ == decimal(n as nat) {
                        lemma_value_prefix(s@, i as int + 1);
                    }
                }
            }
            return None;
        }
        acc = acc * 10 + d;
        i = i + 1;
    }
    assert(s@.subrange(0, len as int) =~= s@);
    let mut out = String::new();
    write_decimal(acc, &mut out);
    if out == s.to_string() {
        Some(acc)
    } else {
        proof {
            assert forall|n: u64| s@ != #[trigger] decimal(n as nat) by {
                lemma_decimal_value(n as nat);
                lemma_decimal_value(acc as nat);
            }
        }
        None
    }
}

} // verus!
