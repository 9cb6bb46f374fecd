//! The request and response messages and their text encoding: a JSON object
//! whose fields are written in declaration order.
use vstd::prelude::*;

use crate::hex::{hex_digit, is_lower_hex_char};

verus! {

/// A call's payload, tagged with its correlation id.
#[derive(Debug, Clone)]
pub struct HashRequest {
    pub id: String,
    pub data: String,
}

/// A computed result, tagged with the correlation id of its request.
#[derive(Debug, Clone)]
pub struct HashResponse {
    pub id: String,
    pub hash: String,
}

/// Whether `s` is a random (version 4, RFC 4122 variant) UUID in lower-case
/// hyphenated form.
pub open spec fn is_uuid_v4_text(s: Seq<char>) -> bool {
    &&& s.len() == 36
    &&& forall|i: int|
        0 <= i < 36 ==> if i == 8 || i == 13 || i == 18 || i == 23 {
            s[i] == '-'
        } else {
            is_lower_hex_char(#[trigger] s[i])
        }
    &&& s[14] == '4'
    &&& (s[19] == '8' || s[19] == '9' || s[19] == 'a' || s[19] == 'b')
}

/// Relies on uuid::Uuid::new_v4 and its `Display`: a random version 4 UUID,
/// written as lower-case hyphenated text.
#[verifier::external_body]
fn random_uuid_text() -> (r: String)
    ensures
        is_uuid_v4_text(r@),
{
    uuid::Uuid::new_v4().to_string()
}

/// How a JSON string literal writes `c`: quote and backslash escaped, the
/// control characters below U+0020 as `\b \t \n \f \r` or `\u00xx` with
/// lower-case hex digits, every other character as itself.
pub open spec fn json_escape(c: char) -> Seq<char> {
    if c == '"' {
        seq!['\\', '"']
    } else if c == '\\' {
        seq!['\\', '\\']
    } else if c == '\x08' {
        seq!['\\', 'b']
    } else if c == '\t' {
        seq!['\\', 't']
    } else if c == '\n' {
        seq!['\\', 'n']
    } else if c == '\x0c' {
        seq!['\\', 'f']
    } else if c == '\r' {
        seq!['\\', 'r']
    } else if (c as int) < 0x20 {
        seq!['\\', 'u', '0', '0', hex_digit(c as int / 16), hex_digit(c as int % 16)]
    } else {
        seq![c]
    }
}

/// Each character of `s` as a JSON string literal writes it.
pub open spec fn json_escaped(s: Seq<char>) -> Seq<char>
    decreases s.len(),
{
    if s.len() == 0 {
        Seq::empty()
    } else {
        json_escaped(s.drop_last()) + json_escape(s.last())
    }
}

/// The JSON string literal that stands for `s`: its escaped characters
/// between double quotes.
pub open spec fn json_quoted(s: Seq<char>) -> Seq<char> {
    seq!['"'] + json_escaped(s) + seq!['"']
}

/// Relies on serde_json::to_string on a `str`: the JSON string literal of
/// `s`, escaped as its `ESCAPE` table and `write_char_escape` do. Serialising
/// a string cannot fail.
#[verifier::external_body]
fn json_quote(s: &str) -> (r: String)
    ensures
        r@ == json_quoted(s@),
{
    serde_json::to_string(s).unwrap_or_default()
}

/// The string member `key` of the JSON object written in `text`: none when
/// `text` is not JSON, is not an object, or its member `key` is missing or
/// not a string.
pub uninterp spec fn json_string_field(text: Seq<char>, key: Seq<char>) -> Option<Seq<char>>;

/// Relies on serde_json::from_str into a `serde_json::Value` and
/// serde_json::Value::get: the member `key` of the object that `text`
/// writes, kept only when it is a string.
#[verifier::external_body]
pub(crate) fn string_field(text: &str, key: &str) -> (r: Option<String>)
    ensures
        match r {
            Some(s) => json_string_field(text@, key@) == Some(s@),
            None => json_string_field(text@, key@) is None,
        },
{
    match serde_json::from_str::<serde_json::Value>(text) {
        Ok(v) => match v.get(key) {
            Some(serde_json::Value::String(s)) => Some(s.clone()),
            _ => None,
        },
        Err(_) => None,
    }
}

/// The id and data of the request message written in `text`, when both are
/// string members of a JSON object.
pub open spec fn decoded_request(text: Seq<char>) -> Option<(Seq<char>, Seq<char>)> {
    match (json_string_field(text, seq!['i', 'd']), json_string_field(text, seq!['d', 'a', 't', 'a'])) {
        (Some(id), Some(data)) => Some((id, data)),
        _ => None,
    }
}

/// The id and hash of the response message written in `text`, when both are
/// string members of a JSON object.
pub open spec fn decoded_response(text: Seq<char>) -> Option<(Seq<char>, Seq<char>)> {
    match (json_string_field(text, seq!['i', 'd']), json_string_field(text, seq!['h', 'a', 's', 'h'])) {
        (Some(id), Some(hash)) => Some((id, hash)),
        _ => None,
    }
}

/// `{"<k1>":<v1>,"<k2>":<v2>}` with both values given as JSON text.
pub open spec fn json_pair_object(k1: Seq<char>, v1: Seq<char>, k2: Seq<char>, v2: Seq<char>) -> Seq<char> {
    seq!['{', '"'] + k1 + seq!['"', ':'] + v1 + seq![',', '"'] + k2 + seq!['"', ':'] + v2 + seq!['}']
}

/// The encoding of a request message.
pub open spec fn request_json(id: Seq<char>, data: Seq<char>) -> Seq<char> {
    json_pair_object(seq!['i', 'd'], json_quoted(id), seq!['d', 'a', 't', 'a'], json_quoted(data))
}

/// The encoding of a response message.
pub open spec fn response_json(id: Seq<char>, hash: Seq<char>) -> Seq<char> {
    json_pair_object(seq!['i', 'd'], json_quoted(id), seq!['h', 'a', 's', 'h'], json_quoted(hash))
}

fn pair_object(k1: &str, v1: &str, k2: &str, v2: &str) -> (r: String)
    ensures
        r@ == json_pair_object(k1@, json_quoted(v1@), k2@, json_quoted(v2@)),
{
    let open_brace = "{\"";
    let colon = "\":";
    let comma = ",\"";
    let close_brace = "}";
    proof {
        reveal_strlit("{\"");
        reveal_strlit("\":");
        reveal_strlit(",\"");
        reveal_strlit("}");
    }
    let mut out = String::from_str(open_brace);
    out.append(k1);
    out.append(colon);
    let q1 = json_quote(v1);
    out.append(q1.as_str());
    out.append(comma);
    out.append(k2);
    out.append(colon);
    let q2 = json_quote(v2);
    out.append(q2.as_str());
    out.append(close_brace);
    proof {
        assert(out@ =~= json_pair_object(k1@, json_quoted(v1@), k2@, json_quoted(v2@)));
    }
    out
}

impl HashRequest {
    /// A request for `data` under a fresh random correlation id.
    pub fn new(data: String) -> (r: HashRequest)
        ensures
            r.data@ == data@,
            is_uuid_v4_text(r.id@),
    {
        HashRequest { id: random_uuid_text(), data }
    }

    /// The request built from the members of a decoded object: present only
    /// when both `id` and `data` were strings.
    pub fn from_members(id: Option<String>, data: Option<String>) -> (r: Option<HashRequest>)
        ensures
            r is Some <==> (id is Some && data is Some),
            r is Some ==> r.unwrap().id@ == id.unwrap()@ && r.unwrap().data@ == data.unwrap()@,
    {
        match (id, data) {
            (Some(id), Some(data)) => Some(HashRequest { id, data }),
            _ => None,
        }
    }

    /// The message text: `{"id":...,"data":...}`.
    pub fn to_json(&self) -> (r: String)
        ensures
            r@ == request_json(self.id@, self.data@),
    {
        proof {
            reveal_strlit("id");
            assert("id"@ =~= seq!['i', 'd']);
            reveal_strlit("data");
            assert("data"@ =~= seq!['d', 'a', 't', 'a']);
        }
        pair_object("id", self.id.as_str(), "data", self.data.as_str())
    }

    /// Decodes a request message; none when `text` is not a JSON object with
    /// string members `id` and `data`.
    pub fn from_json(text: &str) -> (r: Option<HashRequest>)
        ensures
            match decoded_request(text@) {
                Some((id, data)) => r is Some && r.unwrap().id@ == id && r.unwrap().data@ == data,
                None => r is None,
            },
    {
        proof {
            reveal_strlit("id");
            assert("id"@ =~= seq!['i', 'd']);
            reveal_strlit("data");
            assert("data"@ =~= seq!['d', 'a', 't', 'a']);
        }
        let id = string_field(text, "id");
        let data = string_field(text, "data");
        HashRequest::from_members(id, data)
    }
}

impl HashResponse {
    /// The response built from the members of a decoded object: present only
    /// when both `id` and `hash` were strings.
    pub fn from_members(id: Option<String>, hash: Option<String>) -> (r: Option<HashResponse>)
        ensures
            r is Some <==> (id is Some && hash is Some),
            r is Some ==> r.unwrap().id@ == id.unwrap()@ && r.unwrap().hash@ == hash.unwrap()@,
    {
        match (id, hash) {
            (Some(id), Some(hash)) => Some(HashResponse { id, hash }),
            _ => None,
        }
    }

    /// The message text: `{"id":...,"hash":...}`.
    pub fn to_json(&self) -> (r: String)
        ensures
            r@ == response_json(self.id@, self.hash@),
    {
        proof {
            reveal_strlit("id");
            assert("id"@ =~= seq!['i', 'd']);
            reveal_strlit("hash");
            assert("hash"@ =~= seq!['h', 'a', 's', 'h']);
        }
        pair_object("id", self.id.as_str(), "hash", self.hash.as_str())
    }

    /// Decodes a response message; none when `text` is not a JSON object with
    /// string members `id` and `hash`.
    pub fn from_json(text: &str) -> (r: Option<HashResponse>)
        ensures
            match decoded_response(text@) {
                Some((id, hash)) => r is Some && r.unwrap().id@ == id && r.unwrap().hash@ == hash,
                None => r is None,
            },
    {
        proof {
            reveal_strlit("id");
            assert("id"@ =~= seq!['i', 'd']);
            reveal_strlit("hash");
            assert("hash"@ =~= seq!['h', 'a', 's', 'h']);
        }
        let id = string_field(text, "id");
        let hash = string_field(text, "hash");
        HashResponse::from_members(id, hash)
    }
}

} // verus!
