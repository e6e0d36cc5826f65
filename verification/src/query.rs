//! Translation of incoming query-string parameters into the upstream JSON
//! request bodies: the strict name-or-uuid choice for a whereis lookup, and
//! the ten-field filter object for a servers search, where a present but
//! unparseable value is deliberately forwarded as null.

use vstd::prelude::*;
use crate::chars::str_eq;
use crate::table::get_entry;
use crate::table::lookup;
use crate::table::table_view;
use crate::jsontext::JVal;
use crate::jsontext::JValV;
use crate::jsontext::fields_view;
use crate::jsontext::object_text;
use crate::jsontext::render_object;
use crate::num::parse_i32;
use crate::num::parse_u16;
use crate::num::spec_parse_i32;
use crate::num::spec_parse_u16;

verus! {

/// Query parameters as name/value pairs, in the order they arrived.
pub open spec fn params_view(ps: Seq<(String, String)>) -> Seq<(Seq<char>, Seq<char>)> {
    table_view(ps)
}

/// The tri-state reading of a boolean query value: `"true"` and `"yes"`
/// mean true, `"false"` and `"no"` mean false, and anything else means
/// null. Every string maps to one of the three.
pub open spec fn spec_string_bool(s: Seq<char>) -> JValV {
    if s == "true"@ || s == "yes"@ {
        JValV::Bool(true)
    } else if s == "false"@ || s == "no"@ {
        JValV::Bool(false)
    } else {
        JValV::Null
    }
}

/// Tri-state boolean parsing is total: every string — the recognised
/// spellings, the empty string, anything else — reads as true, false or
/// null, and never as anything else.
pub proof fn lemma_string_bool_total(s: Seq<char>)
    ensures
        spec_string_bool(s) == JValV::Bool(true) || spec_string_bool(s) == JValV::Bool(false)
            || spec_string_bool(s) == JValV::Null,
{
}

pub fn string_bool_value(val: &str) -> (r: JVal)
    ensures
        r@ == spec_string_bool(val@),
{
    if str_eq(val, "true") || str_eq(val, "yes") {
        JVal::Bool(true)
    } else if str_eq(val, "false") || str_eq(val, "no") {
        JVal::Bool(false)
    } else {
        JVal::Null
    }
}

/// The one search key a whereis lookup may carry.
pub enum SearchType {
    Name(String),
    Uuid(String),
}

pub enum SearchTypeV {
    Name(Seq<char>),
    Uuid(Seq<char>),
}

impl View for SearchType {
    type V = SearchTypeV;

    open spec fn view(&self) -> SearchTypeV {
        match self {
            SearchType::Name(s) => SearchTypeV::Name(s@),
            SearchType::Uuid(s) => SearchTypeV::Uuid(s@),
        }
    }
}

/// Why a whereis request's parameters were rejected.
pub enum ParamError {
    BothNameAndUuid,
    NeitherNameNorUuid,
}

/// Chooses the whereis search key: exactly one of `name` and `uuid` must
/// be present.
pub fn whereis_search_type(params: &Vec<(String, String)>) -> (r: Result<SearchType, ParamError>)
    ensures
        ({
            let n = lookup(params_view(params@), "name"@);
            let u = lookup(params_view(params@), "uuid"@);
            match r {
                Ok(SearchType::Name(v)) => n == Some(v@) && u is None,
                Ok(SearchType::Uuid(v)) => n is None && u == Some(v@),
                Err(ParamError::BothNameAndUuid) => n is Some && u is Some,
                Err(ParamError::NeitherNameNorUuid) => n is None && u is None,
            }
        }),
{
    let name = get_entry(params, "name");
    let uuid = get_entry(params, "uuid");
    match (name, uuid) {
        (Some(n), None) => Ok(SearchType::Name(n.clone())),
        (None, Some(u)) => Ok(SearchType::Uuid(u.clone())),
        (Some(_), Some(_)) => Err(ParamError::BothNameAndUuid),
        (None, None) => Err(ParamError::NeitherNameNorUuid),
    }
}

/// The JSON body a whereis search key turns into: one field, named after
/// the key.
pub open spec fn spec_whereis_body(st: SearchTypeV) -> Seq<char> {
    match st {
        SearchTypeV::Name(s) => render_object(seq![("name"@, JValV::Text(s))]),
        SearchTypeV::Uuid(s) => render_object(seq![("uuid"@, JValV::Text(s))]),
    }
}

pub fn whereis_body(st: &SearchType) -> (r: String)
    ensures
        r@ == spec_whereis_body(st@),
{
    let mut fields: Vec<(String, JVal)> = Vec::new();
    match st {
        SearchType::Name(s) => {
            fields.push((String::from_str("name"), JVal::Text(s.clone())));
            let r = object_text(&fields);
            assert(fields_view(fields@) =~= seq![("name"@, JValV::Text(s@))]);
            r
        },
        SearchType::Uuid(s) => {
            fields.push((String::from_str("uuid"), JVal::Text(s.clone())));
            let r = object_text(&fields);
            assert(fields_view(fields@) =~= seq![("uuid"@, JValV::Text(s@))]);
            r
        },
    }
}

/// A numeric filter value in unsigned 16-bit range: absent or unparseable
/// becomes null.
pub open spec fn num_filter_u16(o: Option<Seq<char>>) -> JValV {
    match o {
        None => JValV::Null,
        Some(s) => match spec_parse_u16(s) {
            Some(v) => JValV::Num(v as int),
            None => JValV::Null,
        },
    }
}

/// A numeric filter value in signed 32-bit range: absent or unparseable
/// becomes null.
pub open spec fn num_filter_i32(o: Option<Seq<char>>) -> JValV {
    match o {
        None => JValV::Null,
        Some(s) => match spec_parse_i32(s) {
            Some(v) => JValV::Num(v as int),
            None => JValV::Null,
        },
    }
}

/// A tri-state boolean filter value: absent becomes null.
pub open spec fn bool_filter(o: Option<Seq<char>>) -> JValV {
    match o {
        None => JValV::Null,
        Some(s) => spec_string_bool(s),
    }
}

/// A string filter value, passed through verbatim: absent becomes null.
pub open spec fn text_filter(o: Option<Seq<char>>) -> JValV {
    match o {
        None => JValV::Null,
        Some(s) => JValV::Text(s),
    }
}

fn num_value_u16(v: Option<&String>) -> (r: JVal)
    ensures
        r@ == num_filter_u16(match v {
            Some(s) => Some(s@),
            None => None,
        }),
{
    match v {
        None => JVal::Null,
        Some(s) => match parse_u16(s.as_str()) {
            Some(n) => JVal::Num(n as i64),
            None => JVal::Null,
        },
    }
}

fn num_value_i32(v: Option<&String>) -> (r: JVal)
    ensures
        r@ == num_filter_i32(match v {
            Some(s) => Some(s@),
            None => None,
        }),
{
    match v {
        None => JVal::Null,
        Some(s) => match parse_i32(s.as_str()) {
            Some(n) => JVal::Num(n as i64),
            None => JVal::Null,
        },
    }
}

fn bool_value(v: Option<&String>) -> (r: JVal)
    ensures
        r@ == bool_filter(match v {
            Some(s) => Some(s@),
            None => None,
        }),
{
    match v {
        None => JVal::Null,
        Some(s) => string_bool_value(s.as_str()),
    }
}

fn text_value(v: Option<&String>) -> (r: JVal)
    ensures
        r@ == text_filter(match v {
            Some(s) => Some(s@),
            None => None,
        }),
{
    match v {
        None => JVal::Null,
        Some(s) => JVal::Text(s.clone()),
    }
}

/// The ten fields of the servers filter body, in the order the body
/// carries them.
pub open spec fn spec_servers_fields(pv: Seq<(Seq<char>, Seq<char>)>) -> Seq<(Seq<char>, JValV)> {
    seq![
        ("asn"@, num_filter_u16(lookup(pv, "asn"@))),
        ("country_code"@, text_filter(lookup(pv, "country_code"@))),
        ("cracked"@, bool_filter(lookup(pv, "cracked"@))),
        ("description"@, text_filter(lookup(pv, "description"@))),
        ("ignore_modded"@, bool_filter(lookup(pv, "ignore_modded"@))),
        ("max_players"@, num_filter_i32(lookup(pv, "max_players"@))),
        ("online_players"@, num_filter_i32(lookup(pv, "online_players"@))),
        ("only_bungeespoofable"@, bool_filter(lookup(pv, "only_bungeespoofable"@))),
        ("protocol"@, num_filter_i32(lookup(pv, "protocol"@))),
        ("version"@, text_filter(lookup(pv, "version"@))),
    ]
}

/// The servers filter body as compact JSON text. The body always carries
/// all ten keys; absent and unparseable values both render as null.
pub open spec fn spec_servers_body(pv: Seq<(Seq<char>, Seq<char>)>) -> Seq<char> {
    render_object(spec_servers_fields(pv))
}

pub fn servers_body(params: &Vec<(String, String)>) -> (r: String)
    ensures
        r@ == spec_servers_body(params_view(params@)),
{
    let ghost pv = params_view(params@);
    let mut fields: Vec<(String, JVal)> = Vec::new();
    let asn = num_value_u16(get_entry(params, "asn"));
    fields.push((String::from_str("asn"), asn));
    let country_code = text_value(get_entry(params, "country_code"));
    fields.push((String::from_str("country_code"), country_code));
    let cracked = bool_value(get_entry(params, "cracked"));
    fields.push((String::from_str("cracked"), cracked));
    let description = text_value(get_entry(params, "description"));
    fields.push((String::from_str("description"), description));
    let ignore_modded = bool_value(get_entry(params, "ignore_modded"));
    fields.push((String::from_str("ignore_modded"), ignore_modded));
    let max_players = num_value_i32(get_entry(params, "max_players"));
    fields.push((String::from_str("max_players"), max_players));
    let online_players = num_value_i32(get_entry(params, "online_players"));
    fields.push((String::from_str("online_players"), online_players));
    let only_bungeespoofable = bool_value(get_entry(params, "only_bungeespoofable"));
    fields.push((String::from_str("only_bungeespoofable"), only_bungeespoofable));
    let protocol = num_value_i32(get_entry(params, "protocol"));
    fields.push((String::from_str("protocol"), protocol));
    let version = text_value(get_entry(params, "version"));
    fields.push((String::from_str("version"), version));
    let r = object_text(&fields);
    assert(fields_view(fields@) =~= spec_servers_fields(pv));
    r
}

} // verus!
