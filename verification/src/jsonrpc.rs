//! The envelope of a JSON-RPC request: what makes a line a request, and
//! which method it calls.
use vstd::prelude::*;

use crate::text::{joined, same_text, trim, trimmed};

verus! {

/// What `serde_json::from_str` makes of a text: whether the value that it
/// reads is an object, or what its error prints.
pub uninterp spec fn json_parsed(text: Seq<char>) -> Result<bool, Seq<char>>;

/// The member of this name of the value that `serde_json::from_str` reads
/// from a text: `None` where there is no such value or no such member,
/// `Some(None)` for a member that is no string, and the string otherwise.
pub uninterp spec fn json_member(text: Seq<char>, key: Seq<char>) -> Option<Option<Seq<char>>>;

/// `serde_json::from_str` to a `Value`, and `Value::is_object` of the
/// result: whether the text is a JSON object, or the text of the error for
/// a text that is no JSON value.
#[verifier::external_body]
pub(crate) fn parse_json(text: &str) -> (r: Result<bool, String>)
    ensures
        match r {
            Ok(object) => json_parsed(text@) == Ok::<bool, Seq<char>>(object),
            Err(e) => json_parsed(text@) == Err::<bool, Seq<char>>(e@),
        },
{
    match serde_json::from_str::<serde_json::Value>(text) {
        Ok(value) => Ok(value.is_object()),
        Err(e) => Err(e.to_string()),
    }
}

/// `serde_json::from_str` to a `Value`, then `Value::get` with the key and
/// `Value::as_str` of the member: the string under that key, if the text is
/// a JSON object with such a member.
#[verifier::external_body]
pub(crate) fn json_text_member(text: &str, key: &str) -> (r: Option<Option<String>>)
    ensures
        match r {
            Some(Some(s)) => json_member(text@, key@) == Some(Some(s@)),
            Some(None) => json_member(text@, key@) == Some(None::<Seq<char>>),
            None => json_member(text@, key@) is None,
        },
{
    match serde_json::from_str::<serde_json::Value>(text) {
        Ok(value) => match value.get(key) {
            Some(member) => match member.as_str() {
                Some(s) => Some(Some(s.to_string())),
                None => Some(None),
            },
            None => None,
        },
        Err(_) => None,
    }
}

/// Whether a line, without the white space at its ends, is a request: it is
/// not empty, and it is a JSON object.
pub open spec fn is_request(line: Seq<char>) -> bool {
    line.len() > 0 && json_parsed(line) == Ok::<bool, Seq<char>>(true)
}

/// Whether a line that was read as JSON is a request.
pub fn accepts(parsed: &Result<bool, String>) -> (r: bool)
    ensures
        r == (*parsed == Ok::<bool, String>(true)),
{
    match parsed {
        Ok(object) => *object,
        Err(_) => false,
    }
}

/// The request that a line of input holds: the line without the white
/// space at its ends, where that is a JSON object; `None` for any other line.
pub fn parse_json_rpc_request(input: &str) -> (r: Option<String>)
    ensures
        match r {
            Some(request) => request@ == trimmed(input@) && is_request(trimmed(input@)),
            None => !is_request(trimmed(input@)),
        },
{
    let trimmed = trim(input);
    if trimmed.unicode_len() == 0 {
        return None;
    }
    let parsed = parse_json(trimmed);
    if accepts(&parsed) {
        Some(String::from_str(trimmed))
    } else {
        None
    }
}

/// The method that a request calls, or why it is no valid request, given
/// what was read of it: whether it is an object or the error of the reader,
/// its member `jsonrpc` and its member `method`.
pub open spec fn method_of(
    parsed: Result<bool, Seq<char>>,
    version: Option<Option<Seq<char>>>,
    method: Option<Option<Seq<char>>>,
) -> Result<Seq<char>, Seq<char>> {
    match parsed {
        Err(e) => Err("Invalid JSON: "@ + e),
        Ok(object) => if !object {
            Err("Request must be a JSON object"@)
        } else if version is Some && version != Some(Some("2.0"@)) {
            Err("Only JSON-RPC 2.0 is supported"@)
        } else {
            match method {
                None => Err("Missing 'method' field"@),
                Some(None) => Err("'method' must be a string"@),
                Some(Some(name)) => Ok(name),
            }
        },
    }
}

/// The view of what was read of a request.
pub open spec fn parsed_view(parsed: Result<bool, String>) -> Result<bool, Seq<char>> {
    match parsed {
        Ok(object) => Ok(object),
        Err(e) => Err(e@),
    }
}

/// The view of a member of a request.
pub open spec fn member_view(member: Option<Option<String>>) -> Option<Option<Seq<char>>> {
    match member {
        Some(Some(s)) => Some(Some(s@)),
        Some(None) => Some(None),
        None => None,
    }
}

/// The view of a method or of the reason why there is none.
pub open spec fn method_view(r: Result<String, String>) -> Result<Seq<char>, Seq<char>> {
    match r {
        Ok(name) => Ok(name@),
        Err(e) => Err(e@),
    }
}

/// The method that a request calls, or why it is no valid request, given
/// what was read of it.
pub fn extract_method(
    parsed: Result<bool, String>,
    version: Option<Option<String>>,
    method: Option<Option<String>>,
) -> (r: Result<String, String>)
    ensures
        method_view(r) == method_of(parsed_view(parsed), member_view(version), member_view(method)),
{
    let object = match parsed {
        Ok(object) => object,
        Err(e) => {
            return Err(joined("Invalid JSON: ", e.as_str()));
        },
    };
    if !object {
        return Err(String::from_str("Request must be a JSON object"));
    }
    match version {
        Some(Some(v)) => {
            if !same_text(v.as_str(), "2.0") {
                return Err(String::from_str("Only JSON-RPC 2.0 is supported"));
            }
        },
        Some(None) => {
            return Err(String::from_str("Only JSON-RPC 2.0 is supported"));
        },
        None => {},
    }
    match method {
        None => Err(String::from_str("Missing 'method' field")),
        Some(None) => Err(String::from_str("'method' must be a string")),
        Some(Some(name)) => Ok(name),
    }
}

/// The method that a request calls, or why it is no valid request. The
/// parameters and the id of the request are the caller's to read.
pub fn extract_method_and_params(request_str: &str) -> (r: Result<String, String>)
    ensures
        method_view(r) == method_of(
            json_parsed(request_str@),
            json_member(request_str@, "jsonrpc"@),
            json_member(request_str@, "method"@),
        ),
{
    let parsed = parse_json(request_str);
    let version = json_text_member(request_str, "jsonrpc");
    let method = json_text_member(request_str, "method");
    extract_method(parsed, version, method)
}

} // verus!
