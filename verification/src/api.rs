//! Response shapes of the language-model HTTP API.
//!
//! The shell performs the requests and hands the decoded JSON in as
//! [`JsonValue`]; this module owns what the subsystem reads out of it: the
//! list of available models a `/models` endpoint advertises, the assistant
//! text of a chat-completions response, and the endpoint URLs themselves.

use vstd::prelude::*;

use crate::json::JsonValue;
use crate::text::{spec_strip_trailing_slashes, spec_trim, strip_trailing_slashes, trim};

verus! {

/// One advertised model: its request identifier and a display label.
#[derive(Debug, Clone)]
pub struct ModelInfo {
    pub id: String,
    pub label: String,
}

/// The `(id, label)` character views of a parsed list.
pub open spec fn infos_view(infos: Seq<ModelInfo>) -> Seq<(Seq<char>, Seq<char>)> {
    infos.map_values(|mi: ModelInfo| (mi.id@, mi.label@))
}

/// The string payload under `key`, when `v` is an object holding one.
pub open spec fn spec_str_under(v: JsonValue, key: Seq<char>) -> Option<Seq<char>> {
    match v.spec_get(key) {
        Some(JsonValue::Str(s)) => Some(s@),
        _ => None,
    }
}

/// The identifier of an advertised model: the first string among its
/// `id`, `model`, `name` and `slug` fields.
pub open spec fn spec_model_id(v: JsonValue) -> Option<Seq<char>> {
    if spec_str_under(v, "id"@) is Some {
        spec_str_under(v, "id"@)
    } else if spec_str_under(v, "model"@) is Some {
        spec_str_under(v, "model"@)
    } else if spec_str_under(v, "name"@) is Some {
        spec_str_under(v, "name"@)
    } else {
        spec_str_under(v, "slug"@)
    }
}

/// The owner of an advertised model: the first string among its
/// `owned_by`, `organization` and `provider` fields.
pub open spec fn spec_model_owner(v: JsonValue) -> Option<Seq<char>> {
    if spec_str_under(v, "owned_by"@) is Some {
        spec_str_under(v, "owned_by"@)
    } else if spec_str_under(v, "organization"@) is Some {
        spec_str_under(v, "organization"@)
    } else {
        spec_str_under(v, "provider"@)
    }
}

/// What one JSON value contributes to the model list: a bare string is
/// both identifier and label; an object needs an identifier, and is
/// labelled `id (owner)` when an owner is present; anything else is
/// skipped.
pub open spec fn spec_parse_model_value(v: JsonValue) -> Option<(Seq<char>, Seq<char>)> {
    match v {
        JsonValue::Str(text) => Some((text@, text@)),
        JsonValue::Obj(_) => match spec_model_id(v) {
            Some(id) => match spec_model_owner(v) {
                Some(owner) => Some((id, id + " ("@ + owner + ")"@)),
                None => Some((id, id)),
            },
            None => None,
        },
        _ => None,
    }
}

/// The models a sequence of JSON values advertises, in order, skipping
/// unparseable entries.
pub open spec fn spec_parse_list(vals: Seq<JsonValue>) -> Seq<(Seq<char>, Seq<char>)>
    decreases vals.len(),
{
    if vals.len() == 0 {
        Seq::empty()
    } else {
        (match spec_parse_model_value(vals[0]) {
            Some(p) => seq![p],
            None => Seq::empty(),
        }) + spec_parse_list(vals.subrange(1, vals.len() as int))
    }
}

/// The values of an object's entries, in entry order.
pub open spec fn spec_values(entries: Seq<(String, JsonValue)>) -> Seq<JsonValue> {
    entries.map_values(|e: (String, JsonValue)| e.1)
}

/// What one object entry's value contributes to the fallback scan: every
/// element of an array, or the value itself.
pub open spec fn spec_scan_entry(v: JsonValue) -> Seq<(Seq<char>, Seq<char>)> {
    match v {
        JsonValue::Arr(items) => spec_parse_list(items@),
        _ => match spec_parse_model_value(v) {
            Some(p) => seq![p],
            None => Seq::empty(),
        },
    }
}

/// The fallback scan over an object: every entry's contribution, in entry
/// order.
pub open spec fn spec_scan_obj(entries: Seq<(String, JsonValue)>) -> Seq<(Seq<char>, Seq<char>)>
    decreases entries.len(),
{
    if entries.len() == 0 {
        Seq::empty()
    } else {
        spec_scan_entry(entries[0].1) + spec_scan_obj(entries.subrange(1, entries.len() as int))
    }
}

/// The models an object payload advertises: a `data` array, else a
/// `models` array, else the values of a `data` object, else the fallback
/// scan over every entry.
pub open spec fn spec_extract_from_obj(
    v: JsonValue,
    entries: Seq<(String, JsonValue)>,
) -> Seq<(Seq<char>, Seq<char>)> {
    match v.spec_get("data"@) {
        Some(JsonValue::Arr(items)) => spec_parse_list(items@),
        _ => match v.spec_get("models"@) {
            Some(JsonValue::Arr(items)) => spec_parse_list(items@),
            _ => match v.spec_get("data"@) {
                Some(JsonValue::Obj(nested)) => spec_parse_list(spec_values(nested@)),
                _ => spec_scan_obj(entries),
            },
        },
    }
}

/// The models a payload advertises: an array is parsed directly, an
/// object as [`spec_extract_from_obj`], and anything else contributes at
/// most itself.
pub open spec fn spec_extract_model_list(v: JsonValue) -> Seq<(Seq<char>, Seq<char>)> {
    match v {
        JsonValue::Arr(items) => spec_parse_list(items@),
        JsonValue::Obj(entries) => spec_extract_from_obj(v, entries@),
        _ => match spec_parse_model_value(v) {
            Some(p) => seq![p],
            None => Seq::empty(),
        },
    }
}

/// The string payload under one of the candidate keys.
fn str_under<'a>(v: &'a JsonValue, key: &str) -> (r: Option<&'a String>)
    ensures
        match r {
            Some(s) => spec_str_under(*v, key@) == Some(s@),
            None => spec_str_under(*v, key@) is None,
        },
{
    match v.get(key) {
        Some(inner) => inner.as_str(),
        None => None,
    }
}

/// Parse one JSON value as an advertised model, as
/// [`spec_parse_model_value`] describes.
pub fn parse_model_value(value: &JsonValue) -> (r: Option<ModelInfo>)
    ensures
        match r {
            Some(mi) => spec_parse_model_value(*value) == Some((mi.id@, mi.label@)),
            None => spec_parse_model_value(*value) is None,
        },
{
    match value {
        JsonValue::Str(text) => Some(ModelInfo { id: text.clone(), label: text.clone() }),
        JsonValue::Obj(_) => {
            let id = if let Some(s) = str_under(value, "id") {
                Some(s)
            } else if let Some(s) = str_under(value, "model") {
                Some(s)
            } else if let Some(s) = str_under(value, "name") {
                Some(s)
            } else {
                str_under(value, "slug")
            };
            match id {
                None => None,
                Some(id) => {
                    let owner = if let Some(s) = str_under(value, "owned_by") {
                        Some(s)
                    } else if let Some(s) = str_under(value, "organization") {
                        Some(s)
                    } else {
                        str_under(value, "provider")
                    };
                    match owner {
                        Some(owner) => {
                            let mut label = id.clone();
                            label.append(" (");
                            label.append(owner.as_str());
                            label.append(")");
                            Some(ModelInfo { id: id.clone(), label })
                        },
                        None => Some(ModelInfo { id: id.clone(), label: id.clone() }),
                    }
                },
            }
        },
        _ => None,
    }
}

/// Parse a sequence of JSON values, skipping unparseable entries.
fn parse_model_list(vals: &Vec<JsonValue>) -> (r: Vec<ModelInfo>)
    ensures
        infos_view(r@) == spec_parse_list(vals@),
{
    let mut out: Vec<ModelInfo> = Vec::new();
    let mut i: usize = 0;
    proof {
        assert(vals@.subrange(0, vals@.len() as int) =~= vals@);
        assert(infos_view(out@) =~= Seq::<(Seq<char>, Seq<char>)>::empty());
        assert(Seq::<(Seq<char>, Seq<char>)>::empty() + spec_parse_list(vals@) =~= spec_parse_list(
            vals@,
        ));
    }
    while i < vals.len()
        invariant
            i <= vals@.len(),
            infos_view(out@) + spec_parse_list(vals@.subrange(i as int, vals@.len() as int))
                == spec_parse_list(vals@),
        decreases vals@.len() - i,
    {
        let ghost pre = out@;
        let ghost rest = vals@.subrange(i as int, vals@.len() as int);
        proof {
            assert(rest[0] == vals@[i as int]);
            assert(rest.subrange(1, rest.len() as int) =~= vals@.subrange(
                i + 1,
                vals@.len() as int,
            ));
        }
        match parse_model_value(&vals[i]) {
            Some(mi) => {
                let ghost gp = (mi.id@, mi.label@);
                out.push(mi);
                proof {
                    assert(infos_view(out@) =~= infos_view(pre) + seq![gp]);
                    assert((infos_view(pre) + seq![gp]) + spec_parse_list(
                        vals@.subrange(i + 1, vals@.len() as int),
                    ) =~= infos_view(pre) + (seq![gp] + spec_parse_list(
                        vals@.subrange(i + 1, vals@.len() as int),
                    )));
                }
            },
            None => {
                proof {
                    assert(Seq::<(Seq<char>, Seq<char>)>::empty() + spec_parse_list(
                        vals@.subrange(i + 1, vals@.len() as int),
                    ) =~= spec_parse_list(vals@.subrange(i + 1, vals@.len() as int)));
                }
            },
        }
        i += 1;
    }
    proof {
        assert(vals@.subrange(vals@.len() as int, vals@.len() as int).len() == 0);
        assert(infos_view(out@) + Seq::<(Seq<char>, Seq<char>)>::empty() =~= infos_view(out@));
    }
    out
}

/// Append what one object entry's value contributes to the fallback scan.
fn scan_append(out: &mut Vec<ModelInfo>, v: &JsonValue)
    ensures
        infos_view(final(out)@) == infos_view(old(out)@) + spec_scan_entry(*v),
{
    if let Some(items) = v.as_array() {
        proof {
            assert(items@.subrange(0, items@.len() as int) =~= items@);
            assert(infos_view(out@) + spec_parse_list(items@) =~= infos_view(out@)
                + spec_parse_list(items@));
        }
        let mut j: usize = 0;
        while j < items.len()
            invariant
                j <= items@.len(),
                infos_view(out@) + spec_parse_list(
                    items@.subrange(j as int, items@.len() as int),
                ) == infos_view(old(out)@) + spec_parse_list(items@),
            decreases items@.len() - j,
        {
            let ghost pre = out@;
            let ghost rest = items@.subrange(j as int, items@.len() as int);
            proof {
                assert(rest[0] == items@[j as int]);
                assert(rest.subrange(1, rest.len() as int) =~= items@.subrange(
                    j + 1,
                    items@.len() as int,
                ));
            }
            match parse_model_value(&items[j]) {
                Some(mi) => {
                    let ghost gp = (mi.id@, mi.label@);
                    out.push(mi);
                    proof {
                        assert(infos_view(out@) =~= infos_view(pre) + seq![gp]);
                        assert((infos_view(pre) + seq![gp]) + spec_parse_list(
                            items@.subrange(j + 1, items@.len() as int),
                        ) =~= infos_view(pre) + (seq![gp] + spec_parse_list(
                            items@.subrange(j + 1, items@.len() as int),
                        )));
                    }
                },
                None => {
                    proof {
                        assert(Seq::<(Seq<char>, Seq<char>)>::empty() + spec_parse_list(
                            items@.subrange(j + 1, items@.len() as int),
                        ) =~= spec_parse_list(items@.subrange(j + 1, items@.len() as int)));
                    }
                },
            }
            j += 1;
        }
        proof {
            assert(items@.subrange(items@.len() as int, items@.len() as int).len() == 0);
            assert(infos_view(out@) + Seq::<(Seq<char>, Seq<char>)>::empty() =~= infos_view(out@));
        }
    } else {
        match parse_model_value(v) {
            Some(mi) => {
                let ghost pre = out@;
                let ghost gp = (mi.id@, mi.label@);
                out.push(mi);
                proof {
                    assert(infos_view(out@) =~= infos_view(pre) + seq![gp]);
                    assert(spec_scan_entry(*v) =~= seq![gp]);
                }
            },
            None => {
                proof {
                    assert(infos_view(out@) =~= infos_view(out@) + spec_scan_entry(*v));
                }
            },
        }
    }
}

/// Extract the advertised model list from a decoded payload, as
/// [`spec_extract_model_list`] describes.
pub fn extract_model_list(payload: &JsonValue) -> (r: Vec<ModelInfo>)
    ensures
        infos_view(r@) == spec_extract_model_list(*payload),
{
    if let Some(items) = payload.as_array() {
        return parse_model_list(items);
    }
    if let Some(entries) = payload.as_object() {
        if let Some(data) = payload.get("data") {
            if let Some(items) = data.as_array() {
                return parse_model_list(items);
            }
        }
        if let Some(models) = payload.get("models") {
            if let Some(items) = models.as_array() {
                return parse_model_list(items);
            }
        }
        if let Some(data) = payload.get("data") {
            if let Some(nested) = data.as_object() {
                let mut out: Vec<ModelInfo> = Vec::new();
                let mut i: usize = 0;
                proof {
                    let vs = spec_values(nested@);
                    assert(vs.subrange(0, vs.len() as int) =~= vs);
                    assert(infos_view(out@) =~= Seq::<(Seq<char>, Seq<char>)>::empty());
                    assert(Seq::<(Seq<char>, Seq<char>)>::empty() + spec_parse_list(vs)
                        =~= spec_parse_list(vs));
                }
                while i < nested.len()
                    invariant
                        i <= nested@.len(),
                        infos_view(out@) + spec_parse_list(
                            spec_values(nested@).subrange(i as int, nested@.len() as int),
                        ) == spec_parse_list(spec_values(nested@)),
                    decreases nested@.len() - i,
                {
                    let ghost pre = out@;
                    let ghost vs = spec_values(nested@);
                    let ghost rest = vs.subrange(i as int, vs.len() as int);
                    proof {
                        assert(rest[0] == vs[i as int]);
                        assert(vs[i as int] == nested@[i as int].1);
                        assert(rest.subrange(1, rest.len() as int) =~= vs.subrange(
                            i + 1,
                            vs.len() as int,
                        ));
                    }
                    match parse_model_value(&nested[i].1) {
                        Some(mi) => {
                            let ghost gp = (mi.id@, mi.label@);
                            out.push(mi);
                            proof {
                                assert(infos_view(out@) =~= infos_view(pre) + seq![gp]);
                                assert((infos_view(pre) + seq![gp]) + spec_parse_list(
                                    vs.subrange(i + 1, vs.len() as int),
                                ) =~= infos_view(pre) + (seq![gp] + spec_parse_list(
                                    vs.subrange(i + 1, vs.len() as int),
                                )));
                            }
                        },
                        None => {
                            proof {
                                assert(Seq::<(Seq<char>, Seq<char>)>::empty() + spec_parse_list(
                                    vs.subrange(i + 1, vs.len() as int),
                                ) =~= spec_parse_list(vs.subrange(i + 1, vs.len() as int)));
                            }
                        },
                    }
                    i += 1;
                }
                proof {
                    let vs = spec_values(nested@);
                    assert(vs.subrange(vs.len() as int, vs.len() as int).len() == 0);
                    assert(infos_view(out@) + Seq::<(Seq<char>, Seq<char>)>::empty()
                        =~= infos_view(out@));
                }
                return out;
            }
        }
        let mut out: Vec<ModelInfo> = Vec::new();
        let mut i: usize = 0;
        proof {
            assert(entries@.subrange(0, entries@.len() as int) =~= entries@);
            assert(infos_view(out@) =~= Seq::<(Seq<char>, Seq<char>)>::empty());
            assert(Seq::<(Seq<char>, Seq<char>)>::empty() + spec_scan_obj(entries@)
                =~= spec_scan_obj(entries@));
        }
        while i < entries.len()
            invariant
                i <= entries@.len(),
                infos_view(out@) + spec_scan_obj(
                    entries@.subrange(i as int, entries@.len() as int),
                ) == spec_scan_obj(entries@),
            decreases entries@.len() - i,
        {
            let ghost pre = out@;
            let ghost rest = entries@.subrange(i as int, entries@.len() as int);
            proof {
                assert(rest[0] == entries@[i as int]);
                assert(rest.subrange(1, rest.len() as int) =~= entries@.subrange(
                    i + 1,
                    entries@.len() as int,
                ));
            }
            scan_append(&mut out, &entries[i].1);
            proof {
                assert((infos_view(pre) + spec_scan_entry(entries@[i as int].1)) + spec_scan_obj(
                    entries@.subrange(i + 1, entries@.len() as int),
                ) =~= infos_view(pre) + (spec_scan_entry(entries@[i as int].1) + spec_scan_obj(
                    entries@.subrange(i + 1, entries@.len() as int),
                )));
            }
            i += 1;
        }
        proof {
            assert(entries@.subrange(entries@.len() as int, entries@.len() as int).len() == 0);
            assert(infos_view(out@) + Seq::<(Seq<char>, Seq<char>)>::empty() =~= infos_view(out@));
        }
        return out;
    }
    match parse_model_value(payload) {
        Some(mi) => {
            let ghost gp = (mi.id@, mi.label@);
            let mut out: Vec<ModelInfo> = Vec::new();
            out.push(mi);
            proof {
                assert(infos_view(out@) =~= seq![gp]);
            }
            out
        },
        None => {
            let out: Vec<ModelInfo> = Vec::new();
            proof {
                assert(infos_view(out@) =~= Seq::<(Seq<char>, Seq<char>)>::empty());
            }
            out
        },
    }
}

/// The assistant text inside a chat-completions response, before
/// trimming: `choices[0].message.content` when that path leads to a
/// string, empty otherwise.
pub open spec fn spec_chat_content(v: JsonValue) -> Seq<char> {
    match v.spec_get("choices"@) {
        Some(choices) => match choices.spec_index(0) {
            Some(choice) => match choice.spec_get("message"@) {
                Some(message) => match message.spec_get("content"@) {
                    Some(JsonValue::Str(s)) => s@,
                    _ => Seq::empty(),
                },
                None => Seq::empty(),
            },
            None => Seq::empty(),
        },
        None => Seq::empty(),
    }
}

/// The assistant text of a chat-completions response, trimmed.
pub open spec fn spec_chat_text(v: JsonValue) -> Seq<char> {
    spec_trim(spec_chat_content(v))
}

/// Extract the assistant text of a chat-completions response.
///
/// Returns the trimmed `choices[0].message.content` string when it is
/// present and non-empty after trimming, and `None` exactly when that
/// text is empty or missing.
pub fn chat_completion_text(response: &JsonValue) -> (r: Option<String>)
    ensures
        match r {
            Some(s) => s@ == spec_chat_text(*response) && s@.len() > 0,
            None => spec_chat_text(*response).len() == 0,
        },
{
    let content: Option<&String> = match response.get("choices") {
        Some(choices) => match choices.get_index(0) {
            Some(choice) => match choice.get("message") {
                Some(message) => match message.get("content") {
                    Some(c) => c.as_str(),
                    None => None,
                },
                None => None,
            },
            None => None,
        },
        None => None,
    };
    match content {
        Some(s) => {
            let t = trim(s.as_str());
            if t.as_str().unicode_len() == 0 {
                None
            } else {
                Some(t)
            }
        },
        None => None,
    }
}

/// The `/models` endpoint under a base URL, which is trimmed of
/// whitespace and trailing slashes first.
pub fn models_endpoint(base_url: &str) -> (r: String)
    ensures
        r@ == spec_strip_trailing_slashes(spec_trim(base_url@)) + "/models"@,
{
    let t = trim(base_url);
    let mut s = strip_trailing_slashes(t.as_str());
    s.append("/models");
    s
}

/// The `/chat/completions` endpoint under a base URL, which is trimmed of
/// trailing slashes first.
pub fn chat_completions_endpoint(base_url: &str) -> (r: String)
    ensures
        r@ == spec_strip_trailing_slashes(base_url@) + "/chat/completions"@,
{
    let mut s = strip_trailing_slashes(base_url);
    s.append("/chat/completions");
    s
}

} // verus!
