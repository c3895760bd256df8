//! The decoder: one JSON value in, one typed source record out. Required
//! shape violations are reported with the offending field path; absent
//! optional sub-structures decode to empty collections; unknown extra fields
//! are ignored.

use vstd::prelude::*;

use crate::jsonval::JsonValue;

verus! {

/// One step of a field path in a decode error report.
#[derive(Debug)]
pub enum PathSeg {
    Field(String),
    Index(usize),
}

pub enum PathSegV {
    Field(Seq<char>),
    Index(int),
}

impl View for PathSeg {
    type V = PathSegV;

    open spec fn view(&self) -> PathSegV {
        match self {
            PathSeg::Field(s) => PathSegV::Field(s@),
            PathSeg::Index(i) => PathSegV::Index(*i as int),
        }
    }
}

impl DeepView for PathSeg {
    type V = PathSegV;

    open spec fn deep_view(&self) -> PathSegV {
        self.view()
    }
}

fn eq_lit(s: &String, lit: &str) -> (r: bool)
    ensures
        r == (s@ == lit@),
{
    let l: String = lit.to_owned();
    *s == l
}

/// The value of the first member of `fields` at or after position `i` whose
/// key is `key`, if any.
pub open spec fn obj_get(fields: Seq<(String, JsonValue)>, key: Seq<char>, i: int) -> Option<
    JsonValue,
>
    decreases fields.len() - i,
{
    if i < 0 || i >= fields.len() {
        None
    } else if fields[i].0@ == key {
        Some(fields[i].1)
    } else {
        obj_get(fields, key, i + 1)
    }
}

fn obj_get_exec<'a>(fields: &'a Vec<(String, JsonValue)>, key: &str) -> (r: Option<
    &'a JsonValue,
>)
    ensures
        match r {
            Some(v) => obj_get(fields@, key@, 0) == Some(*v),
            None => obj_get(fields@, key@, 0) is None,
        },
{
    let mut i: usize = 0;
    while i < fields.len()
        invariant
            i <= fields@.len(),
            obj_get(fields@, key@, 0) == obj_get(fields@, key@, i as int),
        decreases fields@.len() - i,
    {
        if eq_lit(&fields[i].0, key) {
            return Some(&fields[i].1);
        }
        i += 1;
    }
    None
}

/// Decimal digits only; `48` and `57` are the codes of `0` and `9`.
pub open spec fn is_digit(c: char) -> bool {
    48 <= c as int && c as int <= 57
}

pub open spec fn all_digits(s: Seq<char>) -> bool {
    forall|i: int| 0 <= i < s.len() ==> is_digit(s[i])
}

/// The value of a digit string, most significant digit first.
pub open spec fn spec_digits_value(s: Seq<char>) -> int
    decreases s.len(),
{
    if s.len() == 0 {
        0
    } else {
        spec_digits_value(s.drop_last()) * 10 + (s.last() as int - 48)
    }
}

proof fn lemma_digits_value_nonneg(s: Seq<char>)
    requires
        all_digits(s),
    ensures
        spec_digits_value(s) >= 0,
    decreases s.len(),
{
    if s.len() > 0 {
        assert(all_digits(s.drop_last()));
        lemma_digits_value_nonneg(s.drop_last());
    }
}

proof fn lemma_digits_value_extend_ge(s: Seq<char>)
    requires
        all_digits(s),
        s.len() > 0,
    ensures
        spec_digits_value(s) >= spec_digits_value(s.drop_last()),
{
    assert(all_digits(s.drop_last()));
    lemma_digits_value_nonneg(s.drop_last());
}

/// The integer denoted by `s`: an optional leading minus sign and at least
/// one decimal digit, provided the value fits in a 64-bit signed integer.
pub open spec fn spec_parse_i64(s: Seq<char>) -> Option<i64> {
    if s.len() >= 1 && s[0] == '-' {
        let d = s.subrange(1, s.len() as int);
        if d.len() >= 1 && all_digits(d) && spec_digits_value(d) <= 0x8000000000000000 {
            Some((-spec_digits_value(d)) as i64)
        } else {
            None
        }
    } else if s.len() >= 1 && all_digits(s) && spec_digits_value(s) <= i64::MAX as int {
        Some(spec_digits_value(s) as i64)
    } else {
        None
    }
}

/// Parses the raw text of a JSON number as a 64-bit signed integer; `None`
/// on a fractional or exponent form, an empty string, or overflow.
pub fn parse_i64_text(s: &String) -> (r: Option<i64>)
    ensures
        r == spec_parse_i64(s@),
{
    let t = s.as_str();
    let len = t.unicode_len();
    if len == 0 {
        return None;
    }
    let neg = t.get_char(0) == '-';
    let start: usize = if neg {
        1
    } else {
        0
    };
    if neg && len == 1 {
        return None;
    }
    let ghost d: Seq<char> = if neg {
        s@.subrange(1, s@.len() as int)
    } else {
        s@
    };
    let mut i = start;
    let mut acc: u64 = 0;
    let mut over = false;
    while i < len
        invariant
            t@ == s@,
            start <= i <= len,
            len == s@.len(),
            len >= 1,
            start <= 1,
            neg ==> s@[0] == '-' && start == 1 && len >= 2,
            !neg ==> s@[0] != '-' && start == 0,
            d == if neg {
                s@.subrange(1, s@.len() as int)
            } else {
                s@
            },
            d.len() == len - start,
            forall|j: int| 0 <= j < i - start ==> is_digit(d[j]),
            !over ==> acc as int == spec_digits_value(d.take(i - start)),
            over ==> spec_digits_value(d.take(i - start)) > u64::MAX as int && all_digits(
                d.take(i - start),
            ),
        decreases len - i,
    {
        let c = t.get_char(i);
        let code = c as u32;
        if !(48 <= code && code <= 57) {
            proof {
                assert(d[i - start] == s@[i as int]);
                assert(!is_digit(d[i - start]));
                assert(!all_digits(d));
            }
            return None;
        }
        let dv = (code - 48) as u64;
        proof {
            assert(d.take(i - start + 1).drop_last() =~= d.take(i - start));
            assert(d.take(i - start + 1).last() == d[i - start]);
            assert(d[i - start] == s@[i as int]);
        }
        if !over {
            match acc.checked_mul(10) {
                Some(m) => {
                    match m.checked_add(dv) {
                        Some(v) => {
                            acc = v;
                        },
                        None => {
                            over = true;
                        },
                    }
                },
                None => {
                    over = true;
                },
            }
        } else {
            proof {
                let k = i - start;
                assert(is_digit(d[k]));
                assert(all_digits(d.take(k + 1)));
                lemma_digits_value_extend_ge(d.take(k + 1));
                assert(d.take(k + 1).drop_last() =~= d.take(k));
            }
        }
        i += 1;
    }
    proof {
        assert(d.take(len - start) =~= d);
    }
    if over {
        proof {
            assert(spec_digits_value(d) > u64::MAX as int);
        }
        return None;
    }
    assert(all_digits(d));
    assert(acc as int == spec_digits_value(d));
    if neg {
        if acc <= 0x7fffffffffffffffu64 {
            Some(-(acc as i64))
        } else if acc == 0x8000000000000000u64 {
            Some(i64::MIN)
        } else {
            None
        }
    } else {
        if acc <= 0x7fffffffffffffffu64 {
            Some(acc as i64)
        } else {
            None
        }
    }
}

} // verus!

use crate::records::{
    AdminInfo, AdminInfoV, ExternalIdEntry, ExternalIdEntryV, IdScheme, LinkEntry, LinkEntryV,
    LinkKind, LocationEntry, LocationEntryV, NameEntry, NameEntryV, NameRole, RelKind,
    RelationshipEntry, RelationshipEntryV,
};

verus! {

/// The name-role tag denoted by `s`, if any.
pub open spec fn spec_role_of(s: Seq<char>) -> Option<NameRole> {
    if s == "primary"@ {
        Some(NameRole::Primary)
    } else if s == "label"@ {
        Some(NameRole::Label)
    } else if s == "alias"@ {
        Some(NameRole::Alias)
    } else if s == "acronym"@ {
        Some(NameRole::Acronym)
    } else {
        None
    }
}

/// The external-identifier scheme denoted by `s`, if any.
pub open spec fn spec_scheme_of(s: Seq<char>) -> Option<IdScheme> {
    if s == "isni"@ {
        Some(IdScheme::Isni)
    } else if s == "grid"@ {
        Some(IdScheme::Grid)
    } else if s == "fundref"@ {
        Some(IdScheme::Fundref)
    } else if s == "wikidata"@ {
        Some(IdScheme::Wikidata)
    } else {
        None
    }
}

/// The link kind denoted by `s`, if any.
pub open spec fn spec_link_kind_of(s: Seq<char>) -> Option<LinkKind> {
    if s == "wikipedia"@ {
        Some(LinkKind::Wikipedia)
    } else if s == "website"@ {
        Some(LinkKind::Website)
    } else {
        None
    }
}

/// The relationship kind denoted by `s`, if any.
pub open spec fn spec_rel_kind_of(s: Seq<char>) -> Option<RelKind> {
    if s == "parent"@ {
        Some(RelKind::Parent)
    } else if s == "child"@ {
        Some(RelKind::Child)
    } else if s == "related"@ {
        Some(RelKind::Related)
    } else if s == "predecessor"@ {
        Some(RelKind::Predecessor)
    } else if s == "successor"@ {
        Some(RelKind::Successor)
    } else {
        None
    }
}

fn role_of(s: &String) -> (r: Option<NameRole>)
    ensures
        r == spec_role_of(s@),
{
    if eq_lit(s, "primary") {
        Some(NameRole::Primary)
    } else if eq_lit(s, "label") {
        Some(NameRole::Label)
    } else if eq_lit(s, "alias") {
        Some(NameRole::Alias)
    } else if eq_lit(s, "acronym") {
        Some(NameRole::Acronym)
    } else {
        None
    }
}

fn scheme_of(s: &String) -> (r: Option<IdScheme>)
    ensures
        r == spec_scheme_of(s@),
{
    if eq_lit(s, "isni") {
        Some(IdScheme::Isni)
    } else if eq_lit(s, "grid") {
        Some(IdScheme::Grid)
    } else if eq_lit(s, "fundref") {
        Some(IdScheme::Fundref)
    } else if eq_lit(s, "wikidata") {
        Some(IdScheme::Wikidata)
    } else {
        None
    }
}

fn link_kind_of(s: &String) -> (r: Option<LinkKind>)
    ensures
        r == spec_link_kind_of(s@),
{
    if eq_lit(s, "wikipedia") {
        Some(LinkKind::Wikipedia)
    } else if eq_lit(s, "website") {
        Some(LinkKind::Website)
    } else {
        None
    }
}

fn rel_kind_of(s: &String) -> (r: Option<RelKind>)
    ensures
        r == spec_rel_kind_of(s@),
{
    if eq_lit(s, "parent") {
        Some(RelKind::Parent)
    } else if eq_lit(s, "child") {
        Some(RelKind::Child)
    } else if eq_lit(s, "related") {
        Some(RelKind::Related)
    } else if eq_lit(s, "predecessor") {
        Some(RelKind::Predecessor)
    } else if eq_lit(s, "successor") {
        Some(RelKind::Successor)
    } else {
        None
    }
}

fn path_of_field(name: &str) -> (r: Vec<PathSeg>)
    ensures
        r.deep_view() == seq![PathSegV::Field(name@)],
{
    let mut r: Vec<PathSeg> = Vec::new();
    r.push(PathSeg::Field(name.to_owned()));
    proof {
        assert(r.deep_view() =~= seq![PathSegV::Field(name@)]);
    }
    r
}

fn path_with_field(name: &str, rest: Vec<PathSeg>) -> (r: Vec<PathSeg>)
    ensures
        r.deep_view() == seq![PathSegV::Field(name@)] + rest.deep_view(),
{
    let mut r: Vec<PathSeg> = Vec::new();
    r.push(PathSeg::Field(name.to_owned()));
    let mut rest = rest;
    let ghost rv = rest.deep_view();
    r.append(&mut rest);
    proof {
        assert(r.deep_view() =~= seq![PathSegV::Field(name@)] + rv);
    }
    r
}

fn path_with_index(i: usize, rest: Vec<PathSeg>) -> (r: Vec<PathSeg>)
    ensures
        r.deep_view() == seq![PathSegV::Index(i as int)] + rest.deep_view(),
{
    let mut r: Vec<PathSeg> = Vec::new();
    r.push(PathSeg::Index(i));
    let mut rest = rest;
    let ghost rv = rest.deep_view();
    r.append(&mut rest);
    proof {
        assert(r.deep_view() =~= seq![PathSegV::Index(i as int)] + rv);
    }
    r
}

/// An optional string-valued field: absent decodes to `None`; present with
/// any other shape than a string is an error at that field.
pub open spec fn spec_opt_str(fields: Seq<(String, JsonValue)>, key: Seq<char>) -> Result<
    Option<Seq<char>>,
    Seq<PathSegV>,
> {
    match obj_get(fields, key, 0) {
        Option::None => Ok(Option::None),
        Option::Some(JsonValue::Str(s)) => Ok(Option::Some(s@)),
        Option::Some(_) => Err(seq![PathSegV::Field(key)]),
    }
}

fn opt_str(fields: &Vec<(String, JsonValue)>, key: &str) -> (r: Result<Option<String>, Vec<PathSeg>>)
    ensures
        match r {
            Ok(o) => spec_opt_str(fields@, key@) == Ok::<Option<Seq<char>>, Seq<PathSegV>>(
                o.deep_view(),
            ),
            Err(p) => spec_opt_str(fields@, key@) == Err::<Option<Seq<char>>, Seq<PathSegV>>(
                p.deep_view(),
            ),
        },
{
    match obj_get_exec(fields, key) {
        Option::None => Ok(Option::None),
        Option::Some(v) => match v {
            JsonValue::Str(s) => Ok(Option::Some(s.clone())),
            _ => Err(path_of_field(key)),
        },
    }
}

/// An optional number-valued field kept as raw text: absent decodes to
/// `None`; any other shape than a number is an error at that field.
pub open spec fn spec_opt_num_text(fields: Seq<(String, JsonValue)>, key: Seq<char>) -> Result<
    Option<Seq<char>>,
    Seq<PathSegV>,
> {
    match obj_get(fields, key, 0) {
        Option::None => Ok(Option::None),
        Option::Some(JsonValue::Num(t)) => Ok(Option::Some(t@)),
        Option::Some(_) => Err(seq![PathSegV::Field(key)]),
    }
}

fn opt_num_text(fields: &Vec<(String, JsonValue)>, key: &str) -> (r: Result<
    Option<String>,
    Vec<PathSeg>,
>)
    ensures
        match r {
            Ok(o) => spec_opt_num_text(fields@, key@) == Ok::<Option<Seq<char>>, Seq<PathSegV>>(
                o.deep_view(),
            ),
            Err(p) => spec_opt_num_text(fields@, key@) == Err::<Option<Seq<char>>, Seq<PathSegV>>(
                p.deep_view(),
            ),
        },
{
    match obj_get_exec(fields, key) {
        Option::None => Ok(Option::None),
        Option::Some(v) => match v {
            JsonValue::Num(t) => Ok(Option::Some(t.clone())),
            _ => Err(path_of_field(key)),
        },
    }
}

/// An optional integer field: absent decodes to `None`; a number whose text
/// is not a 64-bit integer, or any other shape, is an error at that field.
pub open spec fn spec_opt_i64(fields: Seq<(String, JsonValue)>, key: Seq<char>) -> Result<
    Option<i64>,
    Seq<PathSegV>,
> {
    match obj_get(fields, key, 0) {
        Option::None => Ok(Option::None),
        Option::Some(JsonValue::Num(t)) => match spec_parse_i64(t@) {
            Option::Some(n) => Ok(Option::Some(n)),
            Option::None => Err(seq![PathSegV::Field(key)]),
        },
        Option::Some(_) => Err(seq![PathSegV::Field(key)]),
    }
}

fn opt_i64(fields: &Vec<(String, JsonValue)>, key: &str) -> (r: Result<Option<i64>, Vec<PathSeg>>)
    ensures
        match r {
            Ok(o) => spec_opt_i64(fields@, key@) == Ok::<Option<i64>, Seq<PathSegV>>(o),
            Err(p) => spec_opt_i64(fields@, key@) == Err::<Option<i64>, Seq<PathSegV>>(
                p.deep_view(),
            ),
        },
{
    match obj_get_exec(fields, key) {
        Option::None => Ok(Option::None),
        Option::Some(v) => match v {
            JsonValue::Num(t) => match parse_i64_text(t) {
                Option::Some(n) => Ok(Option::Some(n)),
                Option::None => Err(path_of_field(key)),
            },
            _ => Err(path_of_field(key)),
        },
    }
}

/// A required string-valued field: absent, or of any other shape, is an
/// error at that field.
pub open spec fn spec_req_str(fields: Seq<(String, JsonValue)>, key: Seq<char>) -> Result<
    Seq<char>,
    Seq<PathSegV>,
> {
    match obj_get(fields, key, 0) {
        Option::Some(JsonValue::Str(s)) => Ok(s@),
        _ => Err(seq![PathSegV::Field(key)]),
    }
}

fn req_str(fields: &Vec<(String, JsonValue)>, key: &str) -> (r: Result<String, Vec<PathSeg>>)
    ensures
        match r {
            Ok(s) => spec_req_str(fields@, key@) == Ok::<Seq<char>, Seq<PathSegV>>(s@),
            Err(p) => spec_req_str(fields@, key@) == Err::<Seq<char>, Seq<PathSegV>>(p.deep_view()),
        },
{
    match obj_get_exec(fields, key) {
        Option::Some(v) => match v {
            JsonValue::Str(s) => Ok(s.clone()),
            _ => Err(path_of_field(key)),
        },
        Option::None => Err(path_of_field(key)),
    }
}

/// An optional boolean field, `false` when absent; any other shape than a
/// boolean is an error at that field.
pub open spec fn spec_opt_bool(fields: Seq<(String, JsonValue)>, key: Seq<char>) -> Result<
    bool,
    Seq<PathSegV>,
> {
    match obj_get(fields, key, 0) {
        Option::None => Ok(false),
        Option::Some(JsonValue::Bool(b)) => Ok(b),
        Option::Some(_) => Err(seq![PathSegV::Field(key)]),
    }
}

fn opt_bool(fields: &Vec<(String, JsonValue)>, key: &str) -> (r: Result<bool, Vec<PathSeg>>)
    ensures
        match r {
            Ok(b) => spec_opt_bool(fields@, key@) == Ok::<bool, Seq<PathSegV>>(b),
            Err(p) => spec_opt_bool(fields@, key@) == Err::<bool, Seq<PathSegV>>(p.deep_view()),
        },
{
    match obj_get_exec(fields, key) {
        Option::None => Ok(false),
        Option::Some(v) => match v {
            JsonValue::Bool(b) => Ok(*b),
            _ => Err(path_of_field(key)),
        },
    }
}

} // verus!

verus! {

/// The role tags of one name entry, from its `types` field: absent decodes
/// to no tags; a non-array, or an element that is not one of the known tag
/// strings, is an error under `types`.
pub open spec fn spec_decode_role_list(items: Seq<JsonValue>, i: int) -> Result<
    Seq<NameRole>,
    Seq<PathSegV>,
>
    decreases items.len() - i,
{
    if i < 0 || i >= items.len() {
        Ok(Seq::<NameRole>::empty())
    } else {
        match items[i] {
            JsonValue::Str(s) => match spec_role_of(s@) {
                Option::Some(role) => match spec_decode_role_list(items, i + 1) {
                    Ok(rest) => Ok(seq![role] + rest),
                    Err(p) => Err(p),
                },
                Option::None => Err(seq![PathSegV::Index(i)]),
            },
            _ => Err(seq![PathSegV::Index(i)]),
        }
    }
}

fn decode_role_list(items: &Vec<JsonValue>) -> (r: Result<Vec<NameRole>, Vec<PathSeg>>)
    ensures
        match r {
            Ok(roles) => spec_decode_role_list(items@, 0) == Ok::<Seq<NameRole>, Seq<PathSegV>>(
                roles@,
            ),
            Err(p) => spec_decode_role_list(items@, 0) == Err::<Seq<NameRole>, Seq<PathSegV>>(
                p.deep_view(),
            ),
        },
{
    let mut acc: Vec<NameRole> = Vec::new();
    let mut i: usize = 0;
    proof {
        assert(acc@ =~= Seq::<NameRole>::empty());
    }
    while i < items.len()
        invariant
            i <= items@.len(),
            match spec_decode_role_list(items@, i as int) {
                Ok(rest) => spec_decode_role_list(items@, 0) == Ok::<Seq<NameRole>, Seq<PathSegV>>(
                    acc@ + rest,
                ),
                Err(p) => spec_decode_role_list(items@, 0) == Err::<Seq<NameRole>, Seq<PathSegV>>(
                    p,
                ),
            },
        decreases items@.len() - i,
    {
        let role_opt = match &items[i] {
            JsonValue::Str(s) => role_of(s),
            _ => Option::None,
        };
        match role_opt {
            Option::Some(role) => {
                let ghost acc0 = acc@;
                acc.push(role);
                proof {
                    assert(acc@ =~= acc0.push(role));
                    match spec_decode_role_list(items@, i + 1) {
                        Ok(rest) => {
                            assert(acc0 + (seq![role] + rest) =~= acc0.push(role) + rest);
                        },
                        Err(p) => {},
                    }
                }
                i += 1;
            },
            Option::None => {
                let mut p: Vec<PathSeg> = Vec::new();
                p.push(PathSeg::Index(i));
                proof {
                    assert(p.deep_view() =~= seq![PathSegV::Index(i as int)]);
                }
                return Err(p);
            },
        }
    }
    proof {
        assert(acc@ + Seq::<NameRole>::empty() =~= acc@);
    }
    Ok(acc)
}

/// One name entry: a required `value` string; optional `types` tags and
/// `lang` and `script` codes. Anything but an object is an error with an
/// empty path.
pub open spec fn spec_decode_name_entry(v: JsonValue) -> Result<NameEntryV, Seq<PathSegV>> {
    match v {
        JsonValue::Obj(fields) => match spec_req_str(fields@, "value"@) {
            Err(p) => Err(p),
            Ok(value) => match spec_decode_roles(fields@) {
                Err(p) => Err(p),
                Ok(roles) => match spec_opt_str(fields@, "lang"@) {
                    Err(p) => Err(p),
                    Ok(lang) => match spec_opt_str(fields@, "script"@) {
                        Err(p) => Err(p),
                        Ok(script) => Ok(NameEntryV { value, roles, lang, script }),
                    },
                },
            },
        },
        _ => Err(Seq::<PathSegV>::empty()),
    }
}

/// The `types` field of one name entry.
pub open spec fn spec_decode_roles(fields: Seq<(String, JsonValue)>) -> Result<
    Seq<NameRole>,
    Seq<PathSegV>,
> {
    match obj_get(fields, "types"@, 0) {
        Option::None => Ok(Seq::<NameRole>::empty()),
        Option::Some(JsonValue::Arr(items)) => match spec_decode_role_list(items@, 0) {
            Ok(roles) => Ok(roles),
            Err(p) => Err(seq![PathSegV::Field("types"@)] + p),
        },
        Option::Some(_) => Err(seq![PathSegV::Field("types"@)]),
    }
}

fn decode_roles(fields: &Vec<(String, JsonValue)>) -> (r: Result<Vec<NameRole>, Vec<PathSeg>>)
    ensures
        match r {
            Ok(roles) => spec_decode_roles(fields@) == Ok::<Seq<NameRole>, Seq<PathSegV>>(roles@),
            Err(p) => spec_decode_roles(fields@) == Err::<Seq<NameRole>, Seq<PathSegV>>(
                p.deep_view(),
            ),
        },
{
    match obj_get_exec(fields, "types") {
        Option::None => Ok(Vec::new()),
        Option::Some(v) => match v {
            JsonValue::Arr(items) => match decode_role_list(items) {
                Ok(roles) => Ok(roles),
                Err(p) => Err(path_with_field("types", p)),
            },
            _ => Err(path_of_field("types")),
        },
    }
}

fn decode_name_entry(v: &JsonValue) -> (r: Result<NameEntry, Vec<PathSeg>>)
    ensures
        match r {
            Ok(e) => spec_decode_name_entry(*v) == Ok::<NameEntryV, Seq<PathSegV>>(e.deep_view()),
            Err(p) => spec_decode_name_entry(*v) == Err::<NameEntryV, Seq<PathSegV>>(p.deep_view()),
        },
{
    match v {
        JsonValue::Obj(fields) => {
            let value = match req_str(fields, "value") {
                Ok(s) => s,
                Err(p) => {
                    return Err(p);
                },
            };
            let roles = match decode_roles(fields) {
                Ok(x) => x,
                Err(p) => {
                    return Err(p);
                },
            };
            let lang = match opt_str(fields, "lang") {
                Ok(x) => x,
                Err(p) => {
                    return Err(p);
                },
            };
            let script = match opt_str(fields, "script") {
                Ok(x) => x,
                Err(p) => {
                    return Err(p);
                },
            };
            Ok(NameEntry { value, roles, lang, script })
        },
        _ => {
            let p: Vec<PathSeg> = Vec::new();
            proof {
                assert(p.deep_view() =~= Seq::<PathSegV>::empty());
            }
            Err(p)
        },
    }
}

} // verus!

verus! {

/// One location entry: every field optional; `lat` and `lng` keep the raw
/// number text. Anything but an object is an error with an empty path.
pub open spec fn spec_decode_location_entry(v: JsonValue) -> Result<LocationEntryV, Seq<PathSegV>> {
    match v {
        JsonValue::Obj(fields) => match spec_opt_i64(fields@, "geonames_id"@) {
            Err(p) => Err(p),
            Ok(geonames_id) => match spec_opt_str(fields@, "name"@) {
                Err(p) => Err(p),
                Ok(name) => match spec_opt_num_text(fields@, "lat"@) {
                    Err(p) => Err(p),
                    Ok(lat) => match spec_opt_num_text(fields@, "lng"@) {
                        Err(p) => Err(p),
                        Ok(lng) => match spec_opt_str(fields@, "country_code"@) {
                            Err(p) => Err(p),
                            Ok(country_code) => match spec_opt_str(fields@, "country_name"@) {
                                Err(p) => Err(p),
                                Ok(country_name) => Ok(
                                    LocationEntryV {
                                        geonames_id,
                                        name,
                                        lat,
                                        lng,
                                        country_code,
                                        country_name,
                                    },
                                ),
                            },
                        },
                    },
                },
            },
        },
        _ => Err(Seq::<PathSegV>::empty()),
    }
}

fn decode_location_entry(v: &JsonValue) -> (r: Result<LocationEntry, Vec<PathSeg>>)
    ensures
        match r {
            Ok(e) => spec_decode_location_entry(*v) == Ok::<LocationEntryV, Seq<PathSegV>>(
                e.deep_view(),
            ),
            Err(p) => spec_decode_location_entry(*v) == Err::<LocationEntryV, Seq<PathSegV>>(
                p.deep_view(),
            ),
        },
{
    match v {
        JsonValue::Obj(fields) => {
            let geonames_id = match opt_i64(fields, "geonames_id") {
                Ok(x) => x,
                Err(p) => {
                    return Err(p);
                },
            };
            let name = match opt_str(fields, "name") {
                Ok(x) => x,
                Err(p) => {
                    return Err(p);
                },
            };
            let lat = match opt_num_text(fields, "lat") {
                Ok(x) => x,
                Err(p) => {
                    return Err(p);
                },
            };
            let lng = match opt_num_text(fields, "lng") {
                Ok(x) => x,
                Err(p) => {
                    return Err(p);
                },
            };
            let country_code = match opt_str(fields, "country_code") {
                Ok(x) => x,
                Err(p) => {
                    return Err(p);
                },
            };
            let country_name = match opt_str(fields, "country_name") {
                Ok(x) => x,
                Err(p) => {
                    return Err(p);
                },
            };
            Ok(LocationEntry { geonames_id, name, lat, lng, country_code, country_name })
        },
        _ => {
            let p: Vec<PathSeg> = Vec::new();
            proof {
                assert(p.deep_view() =~= Seq::<PathSegV>::empty());
            }
            Err(p)
        },
    }
}

/// One external-identifier entry: a required `type` naming a known scheme, a
/// required `value`, and an optional `preferred` flag.
pub open spec fn spec_decode_ext_id_entry(v: JsonValue) -> Result<ExternalIdEntryV, Seq<PathSegV>> {
    match v {
        JsonValue::Obj(fields) => match spec_req_str(fields@, "type"@) {
            Err(p) => Err(p),
            Ok(t) => match spec_scheme_of(t) {
                Option::None => Err(seq![PathSegV::Field("type"@)]),
                Option::Some(scheme) => match spec_req_str(fields@, "value"@) {
                    Err(p) => Err(p),
                    Ok(value) => match spec_opt_bool(fields@, "preferred"@) {
                        Err(p) => Err(p),
                        Ok(preferred) => Ok(ExternalIdEntryV { scheme, value, preferred }),
                    },
                },
            },
        },
        _ => Err(Seq::<PathSegV>::empty()),
    }
}

fn decode_ext_id_entry(v: &JsonValue) -> (r: Result<ExternalIdEntry, Vec<PathSeg>>)
    ensures
        match r {
            Ok(e) => spec_decode_ext_id_entry(*v) == Ok::<ExternalIdEntryV, Seq<PathSegV>>(
                e.deep_view(),
            ),
            Err(p) => spec_decode_ext_id_entry(*v) == Err::<ExternalIdEntryV, Seq<PathSegV>>(
                p.deep_view(),
            ),
        },
{
    match v {
        JsonValue::Obj(fields) => {
            let t = match req_str(fields, "type") {
                Ok(x) => x,
                Err(p) => {
                    return Err(p);
                },
            };
            let scheme = match scheme_of(&t) {
                Option::Some(s) => s,
                Option::None => {
                    return Err(path_of_field("type"));
                },
            };
            let value = match req_str(fields, "value") {
                Ok(x) => x,
                Err(p) => {
                    return Err(p);
                },
            };
            let preferred = match opt_bool(fields, "preferred") {
                Ok(x) => x,
                Err(p) => {
                    return Err(p);
                },
            };
            Ok(ExternalIdEntry { scheme, value, preferred })
        },
        _ => {
            let p: Vec<PathSeg> = Vec::new();
            proof {
                assert(p.deep_view() =~= Seq::<PathSegV>::empty());
            }
            Err(p)
        },
    }
}

/// One link entry: a required `type` naming a known link kind and a required
/// `value` holding the URL.
pub open spec fn spec_decode_link_entry(v: JsonValue) -> Result<LinkEntryV, Seq<PathSegV>> {
    match v {
        JsonValue::Obj(fields) => match spec_req_str(fields@, "type"@) {
            Err(p) => Err(p),
            Ok(t) => match spec_link_kind_of(t) {
                Option::None => Err(seq![PathSegV::Field("type"@)]),
                Option::Some(kind) => match spec_req_str(fields@, "value"@) {
                    Err(p) => Err(p),
                    Ok(url) => Ok(LinkEntryV { kind, url }),
                },
            },
        },
        _ => Err(Seq::<PathSegV>::empty()),
    }
}

fn decode_link_entry(v: &JsonValue) -> (r: Result<LinkEntry, Vec<PathSeg>>)
    ensures
        match r {
            Ok(e) => spec_decode_link_entry(*v) == Ok::<LinkEntryV, Seq<PathSegV>>(e.deep_view()),
            Err(p) => spec_decode_link_entry(*v) == Err::<LinkEntryV, Seq<PathSegV>>(p.deep_view()),
        },
{
    match v {
        JsonValue::Obj(fields) => {
            let t = match req_str(fields, "type") {
                Ok(x) => x,
                Err(p) => {
                    return Err(p);
                },
            };
            let kind = match link_kind_of(&t) {
                Option::Some(k) => k,
                Option::None => {
                    return Err(path_of_field("type"));
                },
            };
            let url = match req_str(fields, "value") {
                Ok(x) => x,
                Err(p) => {
                    return Err(p);
                },
            };
            Ok(LinkEntry { kind, url })
        },
        _ => {
            let p: Vec<PathSeg> = Vec::new();
            proof {
                assert(p.deep_view() =~= Seq::<PathSegV>::empty());
            }
            Err(p)
        },
    }
}

/// One relationship entry: a required `type` naming a known kind, and the
/// required `id` and `label` of the related entity.
pub open spec fn spec_decode_rel_entry(v: JsonValue) -> Result<RelationshipEntryV, Seq<PathSegV>> {
    match v {
        JsonValue::Obj(fields) => match spec_req_str(fields@, "type"@) {
            Err(p) => Err(p),
            Ok(t) => match spec_rel_kind_of(t) {
                Option::None => Err(seq![PathSegV::Field("type"@)]),
                Option::Some(kind) => match spec_req_str(fields@, "id"@) {
                    Err(p) => Err(p),
                    Ok(related_id) => match spec_req_str(fields@, "label"@) {
                        Err(p) => Err(p),
                        Ok(related_name) => Ok(RelationshipEntryV { kind, related_id, related_name }),
                    },
                },
            },
        },
        _ => Err(Seq::<PathSegV>::empty()),
    }
}

fn decode_rel_entry(v: &JsonValue) -> (r: Result<RelationshipEntry, Vec<PathSeg>>)
    ensures
        match r {
            Ok(e) => spec_decode_rel_entry(*v) == Ok::<RelationshipEntryV, Seq<PathSegV>>(
                e.deep_view(),
            ),
            Err(p) => spec_decode_rel_entry(*v) == Err::<RelationshipEntryV, Seq<PathSegV>>(
                p.deep_view(),
            ),
        },
{
    match v {
        JsonValue::Obj(fields) => {
            let t = match req_str(fields, "type") {
                Ok(x) => x,
                Err(p) => {
                    return Err(p);
                },
            };
            let kind = match rel_kind_of(&t) {
                Option::Some(k) => k,
                Option::None => {
                    return Err(path_of_field("type"));
                },
            };
            let related_id = match req_str(fields, "id") {
                Ok(x) => x,
                Err(p) => {
                    return Err(p);
                },
            };
            let related_name = match req_str(fields, "label") {
                Ok(x) => x,
                Err(p) => {
                    return Err(p);
                },
            };
            Ok(RelationshipEntry { kind, related_id, related_name })
        },
        _ => {
            let p: Vec<PathSeg> = Vec::new();
            proof {
                assert(p.deep_view() =~= Seq::<PathSegV>::empty());
            }
            Err(p)
        },
    }
}

} // verus!

verus! {

/// The entries of a `names` array; the first failing element wins, reported
/// under its index.
pub open spec fn spec_decode_name_list(items: Seq<JsonValue>, i: int) -> Result<
    Seq<NameEntryV>,
    Seq<PathSegV>,
>
    decreases items.len() - i,
{
    if i < 0 || i >= items.len() {
        Ok(Seq::<NameEntryV>::empty())
    } else {
        match spec_decode_name_entry(items[i]) {
            Err(p) => Err(seq![PathSegV::Index(i)] + p),
            Ok(e) => match spec_decode_name_list(items, i + 1) {
                Err(p) => Err(p),
                Ok(rest) => Ok(seq![e] + rest),
            },
        }
    }
}

fn decode_name_list(items: &Vec<JsonValue>) -> (r: Result<Vec<NameEntry>, Vec<PathSeg>>)
    ensures
        match r {
            Ok(es) => spec_decode_name_list(items@, 0) == Ok::<Seq<NameEntryV>, Seq<PathSegV>>(
                es.deep_view(),
            ),
            Err(p) => spec_decode_name_list(items@, 0) == Err::<Seq<NameEntryV>, Seq<PathSegV>>(
                p.deep_view(),
            ),
        },
{
    let mut acc: Vec<NameEntry> = Vec::new();
    let mut i: usize = 0;
    proof {
        assert(acc.deep_view() =~= Seq::<NameEntryV>::empty());
    }
    while i < items.len()
        invariant
            i <= items@.len(),
            match spec_decode_name_list(items@, i as int) {
                Ok(rest) => spec_decode_name_list(items@, 0) == Ok::<
                    Seq<NameEntryV>,
                    Seq<PathSegV>,
                >(acc.deep_view() + rest),
                Err(p) => spec_decode_name_list(items@, 0) == Err::<
                    Seq<NameEntryV>,
                    Seq<PathSegV>,
                >(p),
            },
        decreases items@.len() - i,
    {
        match decode_name_entry(&items[i]) {
            Ok(e) => {
                let ghost acc0 = acc.deep_view();
                let ghost ev = e.deep_view();
                acc.push(e);
                proof {
                    assert(acc.deep_view() =~= acc0.push(ev));
                    match spec_decode_name_list(items@, i + 1) {
                        Ok(rest) => {
                            assert(acc0 + (seq![ev] + rest) =~= acc0.push(ev) + rest);
                        },
                        Err(p) => {},
                    }
                }
                i += 1;
            },
            Err(p) => {
                return Err(path_with_index(i, p));
            },
        }
    }
    proof {
        assert(acc.deep_view() + Seq::<NameEntryV>::empty() =~= acc.deep_view());
    }
    Ok(acc)
}

/// The entries of a `locations` array.
pub open spec fn spec_decode_location_list(items: Seq<JsonValue>, i: int) -> Result<
    Seq<LocationEntryV>,
    Seq<PathSegV>,
>
    decreases items.len() - i,
{
    if i < 0 || i >= items.len() {
        Ok(Seq::<LocationEntryV>::empty())
    } else {
        match spec_decode_location_entry(items[i]) {
            Err(p) => Err(seq![PathSegV::Index(i)] + p),
            Ok(e) => match spec_decode_location_list(items, i + 1) {
                Err(p) => Err(p),
                Ok(rest) => Ok(seq![e] + rest),
            },
        }
    }
}

fn decode_location_list(items: &Vec<JsonValue>) -> (r: Result<Vec<LocationEntry>, Vec<PathSeg>>)
    ensures
        match r {
            Ok(es) => spec_decode_location_list(items@, 0) == Ok::<
                Seq<LocationEntryV>,
                Seq<PathSegV>,
            >(es.deep_view()),
            Err(p) => spec_decode_location_list(items@, 0) == Err::<
                Seq<LocationEntryV>,
                Seq<PathSegV>,
            >(p.deep_view()),
        },
{
    let mut acc: Vec<LocationEntry> = Vec::new();
    let mut i: usize = 0;
    proof {
        assert(acc.deep_view() =~= Seq::<LocationEntryV>::empty());
    }
    while i < items.len()
        invariant
            i <= items@.len(),
            match spec_decode_location_list(items@, i as int) {
                Ok(rest) => spec_decode_location_list(items@, 0) == Ok::<
                    Seq<LocationEntryV>,
                    Seq<PathSegV>,
                >(acc.deep_view() + rest),
                Err(p) => spec_decode_location_list(items@, 0) == Err::<
                    Seq<LocationEntryV>,
                    Seq<PathSegV>,
                >(p),
            },
        decreases items@.len() - i,
    {
        match decode_location_entry(&items[i]) {
            Ok(e) => {
                let ghost acc0 = acc.deep_view();
                let ghost ev = e.deep_view();
                acc.push(e);
                proof {
                    assert(acc.deep_view() =~= acc0.push(ev));
                    match spec_decode_location_list(items@, i + 1) {
                        Ok(rest) => {
                            assert(acc0 + (seq![ev] + rest) =~= acc0.push(ev) + rest);
                        },
                        Err(p) => {},
                    }
                }
                i += 1;
            },
            Err(p) => {
                return Err(path_with_index(i, p));
            },
        }
    }
    proof {
        assert(acc.deep_view() + Seq::<LocationEntryV>::empty() =~= acc.deep_view());
    }
    Ok(acc)
}

/// The entries of an `external_ids` array.
pub open spec fn spec_decode_ext_id_list(items: Seq<JsonValue>, i: int) -> Result<
    Seq<ExternalIdEntryV>,
    Seq<PathSegV>,
>
    decreases items.len() - i,
{
    if i < 0 || i >= items.len() {
        Ok(Seq::<ExternalIdEntryV>::empty())
    } else {
        match spec_decode_ext_id_entry(items[i]) {
            Err(p) => Err(seq![PathSegV::Index(i)] + p),
            Ok(e) => match spec_decode_ext_id_list(items, i + 1) {
                Err(p) => Err(p),
                Ok(rest) => Ok(seq![e] + rest),
            },
        }
    }
}

fn decode_ext_id_list(items: &Vec<JsonValue>) -> (r: Result<Vec<ExternalIdEntry>, Vec<PathSeg>>)
    ensures
        match r {
            Ok(es) => spec_decode_ext_id_list(items@, 0) == Ok::<
                Seq<ExternalIdEntryV>,
                Seq<PathSegV>,
            >(es.deep_view()),
            Err(p) => spec_decode_ext_id_list(items@, 0) == Err::<
                Seq<ExternalIdEntryV>,
                Seq<PathSegV>,
            >(p.deep_view()),
        },
{
    let mut acc: Vec<ExternalIdEntry> = Vec::new();
    let mut i: usize = 0;
    proof {
        assert(acc.deep_view() =~= Seq::<ExternalIdEntryV>::empty());
    }
    while i < items.len()
        invariant
            i <= items@.len(),
            match spec_decode_ext_id_list(items@, i as int) {
                Ok(rest) => spec_decode_ext_id_list(items@, 0) == Ok::<
                    Seq<ExternalIdEntryV>,
                    Seq<PathSegV>,
                >(acc.deep_view() + rest),
                Err(p) => spec_decode_ext_id_list(items@, 0) == Err::<
                    Seq<ExternalIdEntryV>,
                    Seq<PathSegV>,
                >(p),
            },
        decreases items@.len() - i,
    {
        match decode_ext_id_entry(&items[i]) {
            Ok(e) => {
                let ghost acc0 = acc.deep_view();
                let ghost ev = e.deep_view();
                acc.push(e);
                proof {
                    assert(acc.deep_view() =~= acc0.push(ev));
                    match spec_decode_ext_id_list(items@, i + 1) {
                        Ok(rest) => {
                            assert(acc0 + (seq![ev] + rest) =~= acc0.push(ev) + rest);
                        },
                        Err(p) => {},
                    }
                }
                i += 1;
            },
            Err(p) => {
                return Err(path_with_index(i, p));
            },
        }
    }
    proof {
        assert(acc.deep_view() + Seq::<ExternalIdEntryV>::empty() =~= acc.deep_view());
    }
    Ok(acc)
}

/// The entries of a `links` array.
pub open spec fn spec_decode_link_list(items: Seq<JsonValue>, i: int) -> Result<
    Seq<LinkEntryV>,
    Seq<PathSegV>,
>
    decreases items.len() - i,
{
    if i < 0 || i >= items.len() {
        Ok(Seq::<LinkEntryV>::empty())
    } else {
        match spec_decode_link_entry(items[i]) {
            Err(p) => Err(seq![PathSegV::Index(i)] + p),
            Ok(e) => match spec_decode_link_list(items, i + 1) {
                Err(p) => Err(p),
                Ok(rest) => Ok(seq![e] + rest),
            },
        }
    }
}

fn decode_link_list(items: &Vec<JsonValue>) -> (r: Result<Vec<LinkEntry>, Vec<PathSeg>>)
    ensures
        match r {
            Ok(es) => spec_decode_link_list(items@, 0) == Ok::<Seq<LinkEntryV>, Seq<PathSegV>>(
                es.deep_view(),
            ),
            Err(p) => spec_decode_link_list(items@, 0) == Err::<Seq<LinkEntryV>, Seq<PathSegV>>(
                p.deep_view(),
            ),
        },
{
    let mut acc: Vec<LinkEntry> = Vec::new();
    let mut i: usize = 0;
    proof {
        assert(acc.deep_view() =~= Seq::<LinkEntryV>::empty());
    }
    while i < items.len()
        invariant
            i <= items@.len(),
            match spec_decode_link_list(items@, i as int) {
                Ok(rest) => spec_decode_link_list(items@, 0) == Ok::<
                    Seq<LinkEntryV>,
                    Seq<PathSegV>,
                >(acc.deep_view() + rest),
                Err(p) => spec_decode_link_list(items@, 0) == Err::<Seq<LinkEntryV>, Seq<PathSegV>>(
                    p,
                ),
            },
        decreases items@.len() - i,
    {
        match decode_link_entry(&items[i]) {
            Ok(e) => {
                let ghost acc0 = acc.deep_view();
                let ghost ev = e.deep_view();
                acc.push(e);
                proof {
                    assert(acc.deep_view() =~= acc0.push(ev));
                    match spec_decode_link_list(items@, i + 1) {
                        Ok(rest) => {
                            assert(acc0 + (seq![ev] + rest) =~= acc0.push(ev) + rest);
                        },
                        Err(p) => {},
                    }
                }
                i += 1;
            },
            Err(p) => {
                return Err(path_with_index(i, p));
            },
        }
    }
    proof {
        assert(acc.deep_view() + Seq::<LinkEntryV>::empty() =~= acc.deep_view());
    }
    Ok(acc)
}

/// The entries of a `relationships` array.
pub open spec fn spec_decode_rel_list(items: Seq<JsonValue>, i: int) -> Result<
    Seq<RelationshipEntryV>,
    Seq<PathSegV>,
>
    decreases items.len() - i,
{
    if i < 0 || i >= items.len() {
        Ok(Seq::<RelationshipEntryV>::empty())
    } else {
        match spec_decode_rel_entry(items[i]) {
            Err(p) => Err(seq![PathSegV::Index(i)] + p),
            Ok(e) => match spec_decode_rel_list(items, i + 1) {
                Err(p) => Err(p),
                Ok(rest) => Ok(seq![e] + rest),
            },
        }
    }
}

fn decode_rel_list(items: &Vec<JsonValue>) -> (r: Result<Vec<RelationshipEntry>, Vec<PathSeg>>)
    ensures
        match r {
            Ok(es) => spec_decode_rel_list(items@, 0) == Ok::<
                Seq<RelationshipEntryV>,
                Seq<PathSegV>,
            >(es.deep_view()),
            Err(p) => spec_decode_rel_list(items@, 0) == Err::<
                Seq<RelationshipEntryV>,
                Seq<PathSegV>,
            >(p.deep_view()),
        },
{
    let mut acc: Vec<RelationshipEntry> = Vec::new();
    let mut i: usize = 0;
    proof {
        assert(acc.deep_view() =~= Seq::<RelationshipEntryV>::empty());
    }
    while i < items.len()
        invariant
            i <= items@.len(),
            match spec_decode_rel_list(items@, i as int) {
                Ok(rest) => spec_decode_rel_list(items@, 0) == Ok::<
                    Seq<RelationshipEntryV>,
                    Seq<PathSegV>,
                >(acc.deep_view() + rest),
                Err(p) => spec_decode_rel_list(items@, 0) == Err::<
                    Seq<RelationshipEntryV>,
                    Seq<PathSegV>,
                >(p),
            },
        decreases items@.len() - i,
    {
        match decode_rel_entry(&items[i]) {
            Ok(e) => {
                let ghost acc0 = acc.deep_view();
                let ghost ev = e.deep_view();
                acc.push(e);
                proof {
                    assert(acc.deep_view() =~= acc0.push(ev));
                    match spec_decode_rel_list(items@, i + 1) {
                        Ok(rest) => {
                            assert(acc0 + (seq![ev] + rest) =~= acc0.push(ev) + rest);
                        },
                        Err(p) => {},
                    }
                }
                i += 1;
            },
            Err(p) => {
                return Err(path_with_index(i, p));
            },
        }
    }
    proof {
        assert(acc.deep_view() + Seq::<RelationshipEntryV>::empty() =~= acc.deep_view());
    }
    Ok(acc)
}

/// The entries of an array of plain strings (`types`, `domains`).
pub open spec fn spec_decode_str_list(items: Seq<JsonValue>, i: int) -> Result<
    Seq<Seq<char>>,
    Seq<PathSegV>,
>
    decreases items.len() - i,
{
    if i < 0 || i >= items.len() {
        Ok(Seq::<Seq<char>>::empty())
    } else {
        match items[i] {
            JsonValue::Str(s) => match spec_decode_str_list(items, i + 1) {
                Err(p) => Err(p),
                Ok(rest) => Ok(seq![s@] + rest),
            },
            _ => Err(seq![PathSegV::Index(i)]),
        }
    }
}

fn decode_str_list(items: &Vec<JsonValue>) -> (r: Result<Vec<String>, Vec<PathSeg>>)
    ensures
        match r {
            Ok(ss) => spec_decode_str_list(items@, 0) == Ok::<Seq<Seq<char>>, Seq<PathSegV>>(
                ss.deep_view(),
            ),
            Err(p) => spec_decode_str_list(items@, 0) == Err::<Seq<Seq<char>>, Seq<PathSegV>>(
                p.deep_view(),
            ),
        },
{
    let mut acc: Vec<String> = Vec::new();
    let mut i: usize = 0;
    proof {
        assert(acc.deep_view() =~= Seq::<Seq<char>>::empty());
    }
    while i < items.len()
        invariant
            i <= items@.len(),
            match spec_decode_str_list(items@, i as int) {
                Ok(rest) => spec_decode_str_list(items@, 0) == Ok::<
                    Seq<Seq<char>>,
                    Seq<PathSegV>,
                >(acc.deep_view() + rest),
                Err(p) => spec_decode_str_list(items@, 0) == Err::<Seq<Seq<char>>, Seq<PathSegV>>(
                    p,
                ),
            },
        decreases items@.len() - i,
    {
        match &items[i] {
            JsonValue::Str(s) => {
                let ghost acc0 = acc.deep_view();
                let ghost sv = s@;
                acc.push(s.clone());
                proof {
                    assert(acc.deep_view() =~= acc0.push(sv));
                    match spec_decode_str_list(items@, i + 1) {
                        Ok(rest) => {
                            assert(acc0 + (seq![sv] + rest) =~= acc0.push(sv) + rest);
                        },
                        Err(p) => {},
                    }
                }
                i += 1;
            },
            _ => {
                let mut p: Vec<PathSeg> = Vec::new();
                p.push(PathSeg::Index(i));
                proof {
                    assert(p.deep_view() =~= seq![PathSegV::Index(i as int)]);
                }
                return Err(p);
            },
        }
    }
    proof {
        assert(acc.deep_view() + Seq::<Seq<char>>::empty() =~= acc.deep_view());
    }
    Ok(acc)
}

} // verus!

use crate::jsonval::{json_doc_of, parse_json_text};
use crate::records::RorRecordV;

verus! {

/// The record's full identifier: a required, non-empty `id` string.
pub open spec fn spec_decode_id(fields: Seq<(String, JsonValue)>) -> Result<
    Seq<char>,
    Seq<PathSegV>,
> {
    match obj_get(fields, "id"@, 0) {
        Option::Some(JsonValue::Str(s)) => if s@.len() > 0 {
            Ok(s@)
        } else {
            Err(seq![PathSegV::Field("id"@)])
        },
        _ => Err(seq![PathSegV::Field("id"@)]),
    }
}

fn decode_id(fields: &Vec<(String, JsonValue)>) -> (r: Result<String, Vec<PathSeg>>)
    ensures
        match r {
            Ok(s) => spec_decode_id(fields@) == Ok::<Seq<char>, Seq<PathSegV>>(s@) && s@.len() > 0,
            Err(p) => spec_decode_id(fields@) == Err::<Seq<char>, Seq<PathSegV>>(p.deep_view()),
        },
{
    match obj_get_exec(fields, "id") {
        Option::Some(v) => match v {
            JsonValue::Str(s) => {
                if s.as_str().is_empty() {
                    Err(path_of_field("id"))
                } else {
                    Ok(s.clone())
                }
            },
            _ => Err(path_of_field("id")),
        },
        Option::None => Err(path_of_field("id")),
    }
}

/// The optional `admin` pair: a required `status` string and an optional
/// integer `established` year.
pub open spec fn spec_decode_admin(fields: Seq<(String, JsonValue)>) -> Result<
    Option<AdminInfoV>,
    Seq<PathSegV>,
> {
    match obj_get(fields, "admin"@, 0) {
        Option::None => Ok(Option::None),
        Option::Some(JsonValue::Obj(af)) => match spec_req_str(af@, "status"@) {
            Err(p) => Err(seq![PathSegV::Field("admin"@)] + p),
            Ok(status) => match spec_opt_i64(af@, "established"@) {
                Err(p) => Err(seq![PathSegV::Field("admin"@)] + p),
                Ok(established) => Ok(Option::Some(AdminInfoV { status, established })),
            },
        },
        Option::Some(_) => Err(seq![PathSegV::Field("admin"@)]),
    }
}

fn decode_admin(fields: &Vec<(String, JsonValue)>) -> (r: Result<Option<AdminInfo>, Vec<PathSeg>>)
    ensures
        match r {
            Ok(a) => spec_decode_admin(fields@) == Ok::<Option<AdminInfoV>, Seq<PathSegV>>(
                a.deep_view(),
            ),
            Err(p) => spec_decode_admin(fields@) == Err::<Option<AdminInfoV>, Seq<PathSegV>>(
                p.deep_view(),
            ),
        },
{
    match obj_get_exec(fields, "admin") {
        Option::None => Ok(Option::None),
        Option::Some(v) => match v {
            JsonValue::Obj(af) => {
                let status = match req_str(af, "status") {
                    Ok(s) => s,
                    Err(p) => {
                        return Err(path_with_field("admin", p));
                    },
                };
                let established = match opt_i64(af, "established") {
                    Ok(e) => e,
                    Err(p) => {
                        return Err(path_with_field("admin", p));
                    },
                };
                Ok(Option::Some(AdminInfo { status, established }))
            },
            _ => Err(path_of_field("admin")),
        },
    }
}

/// One whole source record. Required: a non-empty `id`. Optional, each an
/// array of the matching entry shape: `names`, `locations`, `external_ids`,
/// `links`, `types`, `relationships`, `domains`; plus the optional `admin`
/// pair. Unknown fields are ignored.
pub open spec fn spec_decode_record(v: JsonValue) -> Result<RorRecordV, Seq<PathSegV>> {
    match v {
        JsonValue::Obj(fields) => match spec_decode_id(fields@) {
            Err(p) => Err(p),
            Ok(id) => match spec_decode_array_field_names(fields@) {
                Err(p) => Err(p),
                Ok(names) => match spec_decode_admin(fields@) {
                    Err(p) => Err(p),
                    Ok(admin) => match spec_decode_array_field_locations(fields@) {
                        Err(p) => Err(p),
                        Ok(locations) => match spec_decode_array_field_ext_ids(fields@) {
                            Err(p) => Err(p),
                            Ok(external_ids) => match spec_decode_array_field_links(fields@) {
                                Err(p) => Err(p),
                                Ok(links) => match spec_decode_array_field_types(fields@) {
                                    Err(p) => Err(p),
                                    Ok(types) => match spec_decode_array_field_rels(fields@) {
                                        Err(p) => Err(p),
                                        Ok(relationships) => match spec_decode_array_field_domains(
                                            fields@,
                                        ) {
                                            Err(p) => Err(p),
                                            Ok(domains) => Ok(
                                                RorRecordV {
                                                    id,
                                                    names,
                                                    admin,
                                                    locations,
                                                    external_ids,
                                                    links,
                                                    types,
                                                    relationships,
                                                    domains,
                                                },
                                            ),
                                        },
                                    },
                                },
                            },
                        },
                    },
                },
            },
        },
        _ => Err(Seq::<PathSegV>::empty()),
    }
}

pub open spec fn spec_decode_array_field_names(fields: Seq<(String, JsonValue)>) -> Result<
    Seq<NameEntryV>,
    Seq<PathSegV>,
> {
    match obj_get(fields, "names"@, 0) {
        Option::None => Ok(Seq::<NameEntryV>::empty()),
        Option::Some(JsonValue::Arr(items)) => match spec_decode_name_list(items@, 0) {
            Ok(es) => Ok(es),
            Err(p) => Err(seq![PathSegV::Field("names"@)] + p),
        },
        Option::Some(_) => Err(seq![PathSegV::Field("names"@)]),
    }
}

pub open spec fn spec_decode_array_field_locations(fields: Seq<(String, JsonValue)>) -> Result<
    Seq<LocationEntryV>,
    Seq<PathSegV>,
> {
    match obj_get(fields, "locations"@, 0) {
        Option::None => Ok(Seq::<LocationEntryV>::empty()),
        Option::Some(JsonValue::Arr(items)) => match spec_decode_location_list(items@, 0) {
            Ok(es) => Ok(es),
            Err(p) => Err(seq![PathSegV::Field("locations"@)] + p),
        },
        Option::Some(_) => Err(seq![PathSegV::Field("locations"@)]),
    }
}

pub open spec fn spec_decode_array_field_ext_ids(fields: Seq<(String, JsonValue)>) -> Result<
    Seq<ExternalIdEntryV>,
    Seq<PathSegV>,
> {
    match obj_get(fields, "external_ids"@, 0) {
        Option::None => Ok(Seq::<ExternalIdEntryV>::empty()),
        Option::Some(JsonValue::Arr(items)) => match spec_decode_ext_id_list(items@, 0) {
            Ok(es) => Ok(es),
            Err(p) => Err(seq![PathSegV::Field("external_ids"@)] + p),
        },
        Option::Some(_) => Err(seq![PathSegV::Field("external_ids"@)]),
    }
}

pub open spec fn spec_decode_array_field_links(fields: Seq<(String, JsonValue)>) -> Result<
    Seq<LinkEntryV>,
    Seq<PathSegV>,
> {
    match obj_get(fields, "links"@, 0) {
        Option::None => Ok(Seq::<LinkEntryV>::empty()),
        Option::Some(JsonValue::Arr(items)) => match spec_decode_link_list(items@, 0) {
            Ok(es) => Ok(es),
            Err(p) => Err(seq![PathSegV::Field("links"@)] + p),
        },
        Option::Some(_) => Err(seq![PathSegV::Field("links"@)]),
    }
}

pub open spec fn spec_decode_array_field_types(fields: Seq<(String, JsonValue)>) -> Result<
    Seq<Seq<char>>,
    Seq<PathSegV>,
> {
    match obj_get(fields, "types"@, 0) {
        Option::None => Ok(Seq::<Seq<char>>::empty()),
        Option::Some(JsonValue::Arr(items)) => match spec_decode_str_list(items@, 0) {
            Ok(es) => Ok(es),
            Err(p) => Err(seq![PathSegV::Field("types"@)] + p),
        },
        Option::Some(_) => Err(seq![PathSegV::Field("types"@)]),
    }
}

pub open spec fn spec_decode_array_field_rels(fields: Seq<(String, JsonValue)>) -> Result<
    Seq<RelationshipEntryV>,
    Seq<PathSegV>,
> {
    match obj_get(fields, "relationships"@, 0) {
        Option::None => Ok(Seq::<RelationshipEntryV>::empty()),
        Option::Some(JsonValue::Arr(items)) => match spec_decode_rel_list(items@, 0) {
            Ok(es) => Ok(es),
            Err(p) => Err(seq![PathSegV::Field("relationships"@)] + p),
        },
        Option::Some(_) => Err(seq![PathSegV::Field("relationships"@)]),
    }
}

pub open spec fn spec_decode_array_field_domains(fields: Seq<(String, JsonValue)>) -> Result<
    Seq<Seq<char>>,
    Seq<PathSegV>,
> {
    match obj_get(fields, "domains"@, 0) {
        Option::None => Ok(Seq::<Seq<char>>::empty()),
        Option::Some(JsonValue::Arr(items)) => match spec_decode_str_list(items@, 0) {
            Ok(es) => Ok(es),
            Err(p) => Err(seq![PathSegV::Field("domains"@)] + p),
        },
        Option::Some(_) => Err(seq![PathSegV::Field("domains"@)]),
    }
}

fn decode_names_field(fields: &Vec<(String, JsonValue)>) -> (r: Result<Vec<NameEntry>, Vec<PathSeg>>)
    ensures
        match r {
            Ok(es) => spec_decode_array_field_names(fields@) == Ok::<
                Seq<NameEntryV>,
                Seq<PathSegV>,
            >(es.deep_view()),
            Err(p) => spec_decode_array_field_names(fields@) == Err::<
                Seq<NameEntryV>,
                Seq<PathSegV>,
            >(p.deep_view()),
        },
{
    match obj_get_exec(fields, "names") {
        Option::None => {
            let es: Vec<NameEntry> = Vec::new();
            proof {
                assert(es.deep_view() =~= Seq::<NameEntryV>::empty());
            }
            Ok(es)
        },
        Option::Some(v) => match v {
            JsonValue::Arr(items) => match decode_name_list(items) {
                Ok(es) => Ok(es),
                Err(p) => Err(path_with_field("names", p)),
            },
            _ => Err(path_of_field("names")),
        },
    }
}

fn decode_locations_field(fields: &Vec<(String, JsonValue)>) -> (r: Result<
    Vec<LocationEntry>,
    Vec<PathSeg>,
>)
    ensures
        match r {
            Ok(es) => spec_decode_array_field_locations(fields@) == Ok::<
                Seq<LocationEntryV>,
                Seq<PathSegV>,
            >(es.deep_view()),
            Err(p) => spec_decode_array_field_locations(fields@) == Err::<
                Seq<LocationEntryV>,
                Seq<PathSegV>,
            >(p.deep_view()),
        },
{
    match obj_get_exec(fields, "locations") {
        Option::None => {
            let es: Vec<LocationEntry> = Vec::new();
            proof {
                assert(es.deep_view() =~= Seq::<LocationEntryV>::empty());
            }
            Ok(es)
        },
        Option::Some(v) => match v {
            JsonValue::Arr(items) => match decode_location_list(items) {
                Ok(es) => Ok(es),
                Err(p) => Err(path_with_field("locations", p)),
            },
            _ => Err(path_of_field("locations")),
        },
    }
}

fn decode_ext_ids_field(fields: &Vec<(String, JsonValue)>) -> (r: Result<
    Vec<ExternalIdEntry>,
    Vec<PathSeg>,
>)
    ensures
        match r {
            Ok(es) => spec_decode_array_field_ext_ids(fields@) == Ok::<
                Seq<ExternalIdEntryV>,
                Seq<PathSegV>,
            >(es.deep_view()),
            Err(p) => spec_decode_array_field_ext_ids(fields@) == Err::<
                Seq<ExternalIdEntryV>,
                Seq<PathSegV>,
            >(p.deep_view()),
        },
{
    match obj_get_exec(fields, "external_ids") {
        Option::None => {
            let es: Vec<ExternalIdEntry> = Vec::new();
            proof {
                assert(es.deep_view() =~= Seq::<ExternalIdEntryV>::empty());
            }
            Ok(es)
        },
        Option::Some(v) => match v {
            JsonValue::Arr(items) => match decode_ext_id_list(items) {
                Ok(es) => Ok(es),
                Err(p) => Err(path_with_field("external_ids", p)),
            },
            _ => Err(path_of_field("external_ids")),
        },
    }
}

fn decode_links_field(fields: &Vec<(String, JsonValue)>) -> (r: Result<Vec<LinkEntry>, Vec<PathSeg>>)
    ensures
        match r {
            Ok(es) => spec_decode_array_field_links(fields@) == Ok::<
                Seq<LinkEntryV>,
                Seq<PathSegV>,
            >(es.deep_view()),
            Err(p) => spec_decode_array_field_links(fields@) == Err::<
                Seq<LinkEntryV>,
                Seq<PathSegV>,
            >(p.deep_view()),
        },
{
    match obj_get_exec(fields, "links") {
        Option::None => {
            let es: Vec<LinkEntry> = Vec::new();
            proof {
                assert(es.deep_view() =~= Seq::<LinkEntryV>::empty());
            }
            Ok(es)
        },
        Option::Some(v) => match v {
            JsonValue::Arr(items) => match decode_link_list(items) {
                Ok(es) => Ok(es),
                Err(p) => Err(path_with_field("links", p)),
            },
            _ => Err(path_of_field("links")),
        },
    }
}

fn decode_types_field(fields: &Vec<(String, JsonValue)>) -> (r: Result<Vec<String>, Vec<PathSeg>>)
    ensures
        match r {
            Ok(es) => spec_decode_array_field_types(fields@) == Ok::<
                Seq<Seq<char>>,
                Seq<PathSegV>,
            >(es.deep_view()),
            Err(p) => spec_decode_array_field_types(fields@) == Err::<
                Seq<Seq<char>>,
                Seq<PathSegV>,
            >(p.deep_view()),
        },
{
    match obj_get_exec(fields, "types") {
        Option::None => {
            let es: Vec<String> = Vec::new();
            proof {
                assert(es.deep_view() =~= Seq::<Seq<char>>::empty());
            }
            Ok(es)
        },
        Option::Some(v) => match v {
            JsonValue::Arr(items) => match decode_str_list(items) {
                Ok(es) => Ok(es),
                Err(p) => Err(path_with_field("types", p)),
            },
            _ => Err(path_of_field("types")),
        },
    }
}

fn decode_rels_field(fields: &Vec<(String, JsonValue)>) -> (r: Result<
    Vec<RelationshipEntry>,
    Vec<PathSeg>,
>)
    ensures
        match r {
            Ok(es) => spec_decode_array_field_rels(fields@) == Ok::<
                Seq<RelationshipEntryV>,
                Seq<PathSegV>,
            >(es.deep_view()),
            Err(p) => spec_decode_array_field_rels(fields@) == Err::<
                Seq<RelationshipEntryV>,
                Seq<PathSegV>,
            >(p.deep_view()),
        },
{
    match obj_get_exec(fields, "relationships") {
        Option::None => {
            let es: Vec<RelationshipEntry> = Vec::new();
            proof {
                assert(es.deep_view() =~= Seq::<RelationshipEntryV>::empty());
            }
            Ok(es)
        },
        Option::Some(v) => match v {
            JsonValue::Arr(items) => match decode_rel_list(items) {
                Ok(es) => Ok(es),
                Err(p) => Err(path_with_field("relationships", p)),
            },
            _ => Err(path_of_field("relationships")),
        },
    }
}

fn decode_domains_field(fields: &Vec<(String, JsonValue)>) -> (r: Result<Vec<String>, Vec<PathSeg>>)
    ensures
        match r {
            Ok(es) => spec_decode_array_field_domains(fields@) == Ok::<
                Seq<Seq<char>>,
                Seq<PathSegV>,
            >(es.deep_view()),
            Err(p) => spec_decode_array_field_domains(fields@) == Err::<
                Seq<Seq<char>>,
                Seq<PathSegV>,
            >(p.deep_view()),
        },
{
    match obj_get_exec(fields, "domains") {
        Option::None => {
            let es: Vec<String> = Vec::new();
            proof {
                assert(es.deep_view() =~= Seq::<Seq<char>>::empty());
            }
            Ok(es)
        },
        Option::Some(v) => match v {
            JsonValue::Arr(items) => match decode_str_list(items) {
                Ok(es) => Ok(es),
                Err(p) => Err(path_with_field("domains", p)),
            },
            _ => Err(path_of_field("domains")),
        },
    }
}

/// Decodes one source record from one JSON value, as `spec_decode_record`
/// states; an `Ok` record always carries a non-empty full identifier.
pub fn decode_record(v: &JsonValue) -> (r: Result<crate::records::RorRecord, Vec<PathSeg>>)
    ensures
        match r {
            Ok(rec) => spec_decode_record(*v) == Ok::<RorRecordV, Seq<PathSegV>>(rec.deep_view())
                && rec.deep_view().id.len() > 0,
            Err(p) => spec_decode_record(*v) == Err::<RorRecordV, Seq<PathSegV>>(p.deep_view()),
        },
{
    match v {
        JsonValue::Obj(fields) => {
            let id = match decode_id(fields) {
                Ok(x) => x,
                Err(p) => {
                    return Err(p);
                },
            };
            let names = match decode_names_field(fields) {
                Ok(x) => x,
                Err(p) => {
                    return Err(p);
                },
            };
            let admin = match decode_admin(fields) {
                Ok(x) => x,
                Err(p) => {
                    return Err(p);
                },
            };
            let locations = match decode_locations_field(fields) {
                Ok(x) => x,
                Err(p) => {
                    return Err(p);
                },
            };
            let external_ids = match decode_ext_ids_field(fields) {
                Ok(x) => x,
                Err(p) => {
                    return Err(p);
                },
            };
            let links = match decode_links_field(fields) {
                Ok(x) => x,
                Err(p) => {
                    return Err(p);
                },
            };
            let types = match decode_types_field(fields) {
                Ok(x) => x,
                Err(p) => {
                    return Err(p);
                },
            };
            let relationships = match decode_rels_field(fields) {
                Ok(x) => x,
                Err(p) => {
                    return Err(p);
                },
            };
            let domains = match decode_domains_field(fields) {
                Ok(x) => x,
                Err(p) => {
                    return Err(p);
                },
            };
            Ok(crate::records::RorRecord {
                id,
                names,
                admin,
                locations,
                external_ids,
                links,
                types,
                relationships,
                domains,
            })
        },
        _ => {
            let p: Vec<PathSeg> = Vec::new();
            proof {
                assert(p.deep_view() =~= Seq::<PathSegV>::empty());
            }
            Err(p)
        },
    }
}

} // verus!

verus! {

/// The records of the source array from position `i` on; the first failing
/// element wins, reported with its array index.
pub open spec fn spec_decode_records(items: Seq<JsonValue>, i: int) -> Result<
    Seq<RorRecordV>,
    (int, Seq<PathSegV>),
>
    decreases items.len() - i,
{
    if i < 0 || i >= items.len() {
        Ok(Seq::<RorRecordV>::empty())
    } else {
        match spec_decode_record(items[i]) {
            Err(p) => Err((i, p)),
            Ok(rec) => match spec_decode_records(items, i + 1) {
                Err(e) => Err(e),
                Ok(rest) => Ok(seq![rec] + rest),
            },
        }
    }
}

/// Every record of a successfully decoded sequence carries a non-empty full
/// identifier.
pub proof fn lemma_decoded_ids_nonempty(items: Seq<JsonValue>, i: int)
    ensures
        spec_decode_records(items, i) matches Ok(rs) ==> forall|j: int|
            0 <= j < rs.len() ==> #[trigger] rs[j].id.len() > 0,
    decreases items.len() - i,
{
    if 0 <= i < items.len() {
        lemma_decoded_ids_nonempty(items, i + 1);
    }
}

/// A failed run of the decoder: the source text is not JSON at all, the
/// document is not an array, or one record violates the required shape.
#[derive(Debug)]
pub enum DecodeFailure {
    Syntax { message: String },
    NotArray,
    Record { index: usize, path: Vec<PathSeg> },
}

/// Decodes the whole ordered record sequence; the first record that violates
/// the required shape is reported with its index and field path, and nothing
/// is handed out.
pub fn decode_records(items: &Vec<JsonValue>) -> (r: Result<
    Vec<crate::records::RorRecord>,
    DecodeFailure,
>)
    ensures
        match r {
            Ok(recs) => {
                &&& spec_decode_records(items@, 0) == Ok::<Seq<RorRecordV>, (int, Seq<PathSegV>)>(
                    recs.deep_view(),
                )
                &&& forall|j: int|
                    0 <= j < recs.deep_view().len() ==> #[trigger] recs.deep_view()[j].id.len() > 0
            },
            Err(f) => f matches DecodeFailure::Record { index, path } && spec_decode_records(
                items@,
                0,
            ) == Err::<Seq<RorRecordV>, (int, Seq<PathSegV>)>((index as int, path.deep_view())),
        },
{
    let mut acc: Vec<crate::records::RorRecord> = Vec::new();
    let mut i: usize = 0;
    proof {
        assert(acc.deep_view() =~= Seq::<RorRecordV>::empty());
    }
    while i < items.len()
        invariant
            i <= items@.len(),
            match spec_decode_records(items@, i as int) {
                Ok(rest) => spec_decode_records(items@, 0) == Ok::<
                    Seq<RorRecordV>,
                    (int, Seq<PathSegV>),
                >(acc.deep_view() + rest),
                Err(e) => spec_decode_records(items@, 0) == Err::<
                    Seq<RorRecordV>,
                    (int, Seq<PathSegV>),
                >(e),
            },
        decreases items@.len() - i,
    {
        match decode_record(&items[i]) {
            Ok(rec) => {
                let ghost acc0 = acc.deep_view();
                let ghost rv = rec.deep_view();
                acc.push(rec);
                proof {
                    assert(acc.deep_view() =~= acc0.push(rv));
                    match spec_decode_records(items@, i + 1) {
                        Ok(rest) => {
                            assert(acc0 + (seq![rv] + rest) =~= acc0.push(rv) + rest);
                        },
                        Err(e) => {},
                    }
                }
                i += 1;
            },
            Err(p) => {
                return Err(DecodeFailure::Record { index: i, path: p });
            },
        }
    }
    proof {
        assert(acc.deep_view() + Seq::<RorRecordV>::empty() =~= acc.deep_view());
        lemma_decoded_ids_nonempty(items@, 0);
    }
    Ok(acc)
}

/// Reads the whole source document: parses the text as JSON, requires a
/// top-level array, and decodes every record, before any row is built. Every
/// failure is reported before anything is handed out.
pub fn decode_document(text: &str) -> (r: Result<Vec<crate::records::RorRecord>, DecodeFailure>)
    ensures
        match r {
            Ok(recs) => {
                &&& json_doc_of(text@) matches Some(doc) && doc matches JsonValue::Arr(items)
                    && spec_decode_records(items@, 0) == Ok::<
                    Seq<RorRecordV>,
                    (int, Seq<PathSegV>),
                >(recs.deep_view())
                &&& forall|j: int|
                    0 <= j < recs.deep_view().len() ==> #[trigger] recs.deep_view()[j].id.len() > 0
            },
            Err(f) => match f {
                DecodeFailure::Syntax { message } => json_doc_of(text@) is None,
                DecodeFailure::NotArray => json_doc_of(text@) matches Some(doc) && !(doc
                    is Arr),
                DecodeFailure::Record { index, path } => json_doc_of(text@) matches Some(doc)
                    && doc matches JsonValue::Arr(items) && spec_decode_records(items@, 0) == Err::<
                    Seq<RorRecordV>,
                    (int, Seq<PathSegV>),
                >((index as int, path.deep_view())),
            },
        },
{
    match parse_json_text(text) {
        Err(message) => Err(DecodeFailure::Syntax { message }),
        Ok(doc) => match doc {
            JsonValue::Arr(items) => decode_records(&items),
            _ => Err(DecodeFailure::NotArray),
        },
    }
}

} // verus!
