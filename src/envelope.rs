//! Reading a JSON-RPC envelope out of a parsed JSON value.
use vstd::prelude::*;
use crate::rpc::{Incoming, Params, Request, RequestId};
use crate::text::same_text;

verus! {

/// A parsed JSON value, as far as an envelope reader distinguishes values.
#[derive(Debug)]
pub enum Json {
    Null,
    Bool(bool),
    /// A number that is an integer within `i64`.
    Int(i64),
    /// Any other number.
    OtherNumber,
    Str(String),
    Array(Vec<Json>),
    /// Members in document order.
    Object(Vec<(String, Json)>),
}

/// The value of the first member named `key`.
pub open spec fn member_spec(fields: Seq<(String, Json)>, key: Seq<char>) -> Option<Json>
    decreases fields.len(),
{
    if fields.len() == 0 {
        None
    } else if fields[0].0@ == key {
        Some(fields[0].1)
    } else {
        member_spec(fields.drop_first(), key)
    }
}

/// The member named `key`, where it holds a string.
pub open spec fn text_member(fields: Seq<(String, Json)>, key: Seq<char>) -> Option<String> {
    match member_spec(fields, key) {
        Some(Json::Str(s)) => Some(s),
        _ => None,
    }
}

/// The request id a JSON value denotes; `None` for a value that cannot be an id.
pub open spec fn id_of(v: Json) -> Option<RequestId> {
    match v {
        Json::Null => Some(RequestId::Null),
        Json::Int(n) => Some(RequestId::Number(n)),
        Json::Str(s) => Some(RequestId::Text(s)),
        _ => None,
    }
}

/// The string-valued members of an object, in order; others are skipped.
pub open spec fn string_members(fields: Seq<(String, Json)>) -> Seq<(String, String)>
    decreases fields.len(),
{
    if fields.len() == 0 {
        Seq::empty()
    } else {
        let rest = string_members(fields.drop_last());
        match fields.last().1 {
            Json::Str(s) => rest.push((fields.last().0, s)),
            _ => rest,
        }
    }
}

/// `p` holds what the server reads of a `params` member.
pub open spec fn params_from(params: Option<Json>, p: Params) -> bool {
    match params {
        Some(Json::Object(f)) => {
            &&& p.uri == text_member(f@, "uri"@)
            &&& p.name == text_member(f@, "name"@)
            &&& p.arguments@ == match member_spec(f@, "arguments"@) {
                Some(Json::Object(a)) => string_members(a@),
                _ => Seq::empty(),
            }
        },
        _ => p.uri is None && p.name is None && p.arguments@.len() == 0,
    }
}

/// `inc` is what the JSON value `v` says as a request envelope: an object
/// with a string `method` and, where present, a scalar `id`; anything else
/// is an invalid request.
pub open spec fn envelope_spec(v: Json, inc: Incoming) -> bool {
    match v {
        Json::Object(f) => {
            let id_member = member_spec(f@, "id"@);
            if id_member is Some && id_of(id_member->Some_0) is None {
                inc == (Incoming::Invalid { id: RequestId::Null })
            } else {
                let id = match id_member {
                    Some(j) => Some(id_of(j)->Some_0),
                    None => None,
                };
                match text_member(f@, "method"@) {
                    None => inc == (Incoming::Invalid {
                        id: match id {
                            Some(i) => i,
                            None => RequestId::Null,
                        },
                    }),
                    Some(m) => {
                        &&& inc is Call
                        &&& inc->Call_0.id == id
                        &&& inc->Call_0.method == m
                        &&& inc->Call_0.jsonrpc@ == match text_member(f@, "jsonrpc"@) {
                            Some(s) => s@,
                            None => Seq::empty(),
                        }
                        &&& params_from(member_spec(f@, "params"@), inc->Call_0.params)
                    },
                }
            }
        },
        _ => inc == (Incoming::Invalid { id: RequestId::Null }),
    }
}

/// The first member named `key`.
pub fn member<'a>(fields: &'a Vec<(String, Json)>, key: &str) -> (r: Option<&'a Json>)
    ensures
        member_spec(fields@, key@) is None ==> r is None,
        member_spec(fields@, key@) is Some ==> r is Some && *r->Some_0 == member_spec(fields@, key@)->Some_0,
{
    let mut i: usize = 0;
    proof {
        assert(fields@.subrange(0, fields@.len() as int) =~= fields@);
    }
    while i < fields.len()
        invariant
            i <= fields@.len(),
            member_spec(fields@, key@) == member_spec(fields@.subrange(i as int, fields@.len() as int), key@),
        decreases fields@.len() - i,
    {
        proof {
            let rest = fields@.subrange(i as int, fields@.len() as int);
            assert(rest.drop_first() =~= fields@.subrange(i + 1, fields@.len() as int));
            assert(rest[0] == fields@[i as int]);
        }
        if same_text(fields[i].0.as_str(), key) {
            return Some(&fields[i].1);
        }
        i = i + 1;
    }
    None
}

fn text_of(fields: &Vec<(String, Json)>, key: &str) -> (r: Option<String>)
    ensures
        r == text_member(fields@, key@),
{
    match member(fields, key) {
        Some(Json::Str(s)) => Some(s.clone()),
        _ => None,
    }
}

fn id_from(v: &Json) -> (r: Option<RequestId>)
    ensures
        r == id_of(*v),
{
    match v {
        Json::Null => Some(RequestId::Null),
        Json::Int(n) => Some(RequestId::Number(*n)),
        Json::Str(s) => Some(RequestId::Text(s.clone())),
        _ => None,
    }
}

/// The string-valued members of an object, in order.
pub fn string_members_of(fields: &Vec<(String, Json)>) -> (r: Vec<(String, String)>)
    ensures
        r@ == string_members(fields@),
{
    let mut r: Vec<(String, String)> = Vec::new();
    let mut i: usize = 0;
    while i < fields.len()
        invariant
            i <= fields@.len(),
            r@ == string_members(fields@.subrange(0, i as int)),
        decreases fields@.len() - i,
    {
        proof {
            let next = fields@.subrange(0, i + 1);
            assert(next.drop_last() =~= fields@.subrange(0, i as int));
            assert(next.last() == fields@[i as int]);
        }
        match &fields[i].1 {
            Json::Str(s) => r.push((fields[i].0.clone(), s.clone())),
            _ => {},
        }
        i = i + 1;
    }
    proof {
        assert(fields@.subrange(0, fields@.len() as int) =~= fields@);
    }
    r
}

fn params_of(params: Option<&Json>) -> (r: Params)
    ensures
        params_from(
            match params {
                Some(j) => Some(*j),
                None => None,
            },
            r,
        ),
{
    match params {
        Some(Json::Object(f)) => {
            let arguments = match member(f, "arguments") {
                Some(Json::Object(a)) => string_members_of(a),
                _ => Vec::new(),
            };
            Params { uri: text_of(f, "uri"), name: text_of(f, "name"), arguments }
        },
        _ => Params { uri: None, name: None, arguments: Vec::new() },
    }
}

/// Reads a request envelope out of a parsed body.
pub fn read_envelope(v: &Json) -> (r: Incoming)
    ensures
        envelope_spec(*v, r),
{
    match v {
        Json::Object(f) => {
            let id = match member(f, "id") {
                None => None,
                Some(j) => match id_from(j) {
                    Some(id) => Some(id),
                    None => {
                        return Incoming::Invalid { id: RequestId::Null };
                    },
                },
            };
            match text_of(f, "method") {
                None => Incoming::Invalid {
                    id: match id {
                        Some(i) => i,
                        None => RequestId::Null,
                    },
                },
                Some(method) => {
                    let jsonrpc = match text_of(f, "jsonrpc") {
                        Some(s) => s,
                        None => String::new(),
                    };
                    Incoming::Call(Request { jsonrpc, id, method, params: params_of(member(f, "params")) })
                },
            }
        },
        _ => Incoming::Invalid { id: RequestId::Null },
    }
}

} // verus!
