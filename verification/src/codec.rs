//! The wire format: one JSON array per message. A request is
//! `[id, method, params]`, or `[id, method]` where it has no arguments; a
//! response is `[id, status, message, payload]`.

use crate::message::{null_payload, Request, RequestView, Response, ResponseView};
use vstd::prelude::*;
use vstd::string::StringExecFns;

verus! {

/// What `serde_json` reads in `bytes` as a JSON array: the compact JSON text
/// of each of its items in order; or, where it reads none, whether the bytes
/// end before the value does.
pub uninterp spec fn json_array_items(bytes: Seq<u8>) -> Result<Seq<Seq<char>>, bool>;

/// The string that `serde_json` reads in `text` as a JSON string, if it
/// reads one.
pub uninterp spec fn json_string_value(text: Seq<char>) -> Option<Seq<char>>;

/// The JSON text that `serde_json` writes for the string `text`.
pub uninterp spec fn json_string_literal(text: Seq<char>) -> Seq<char>;

/// Calls `serde_json::from_slice` for a `Vec` of `serde_json::Value` and
/// renders each value with its `Display`. The contract claims that the
/// outcome depends on the bytes alone: the items' texts, or for an error
/// what its `is_eof` reports.
#[verifier::external_body]
fn read_array(bytes: &[u8]) -> (items: Result<Vec<String>, bool>)
    ensures
        match items {
            Ok(texts) => json_array_items(bytes@) == Ok::<Seq<Seq<char>>, bool>(
                texts.deep_view(),
            ),
            Err(cut) => json_array_items(bytes@) == Err::<Seq<Seq<char>>, bool>(cut),
        },
{
    match serde_json::from_slice::<Vec<serde_json::Value>>(bytes) {
        Ok(values) => Ok(values.iter().map(|value| value.to_string()).collect()),
        Err(error) => Err(error.is_eof()),
    }
}

/// Calls `serde_json::from_str` for a `String`. The contract claims that the
/// outcome depends on the text alone.
#[verifier::external_body]
fn read_string(text: &str) -> (value: Option<String>)
    ensures
        match value {
            Some(string) => json_string_value(text@) == Some(string@),
            None => json_string_value(text@) is None,
        },
{
    serde_json::from_str::<String>(text).ok()
}

/// Calls `serde_json::to_string` on a string slice. The contract claims that
/// a text is always written, since the writer fills a vector in memory and
/// refuses no string, and that it depends on the string alone.
#[verifier::external_body]
fn write_string(text: &str) -> (literal: Option<String>)
    ensures
        literal is Some,
        literal matches Some(json) ==> json@ == json_string_literal(text@),
{
    serde_json::to_string(text).ok()
}

/// What a run of bytes holds, read as one request.
#[derive(Debug, Clone, PartialEq, Eq)]
pub enum Decoded {
    /// The bytes are one whole request.
    Complete(Request),
    /// The bytes end before the message does.
    Incomplete,
    /// The bytes are no request.
    Malformed,
}

/// What a `Decoded` is, as plain text.
pub enum DecodedView {
    Complete(RequestView),
    Incomplete,
    Malformed,
}

impl View for Decoded {
    type V = DecodedView;

    open spec fn view(&self) -> DecodedView {
        match self {
            Decoded::Complete(request) => DecodedView::Complete(request@),
            Decoded::Incomplete => DecodedView::Incomplete,
            Decoded::Malformed => DecodedView::Malformed,
        }
    }
}

/// The text that an optional string holds.
pub open spec fn text_of(value: Option<String>) -> Option<Seq<char>> {
    match value {
        Some(text) => Some(text@),
        None => None,
    }
}

/// The request that an array stands for, given its items and what its first
/// two items hold as strings: two or three items, of which the first is the
/// id and the second the method. Arguments left out are `null`.
pub open spec fn assembled(
    items: Seq<Seq<char>>,
    id: Option<Seq<char>>,
    method: Option<Seq<char>>,
) -> Option<RequestView> {
    if (items.len() == 2 || items.len() == 3) && id is Some && method is Some {
        Some(
            RequestView {
                id: id->0,
                method: method->0,
                params: if items.len() == 3 {
                    items[2]
                } else {
                    null_payload()
                },
            },
        )
    } else {
        None
    }
}

/// The request that the items of an array stand for.
pub open spec fn request_of_items(items: Seq<Seq<char>>) -> Option<RequestView> {
    if items.len() >= 2 {
        assembled(items, json_string_value(items[0]), json_string_value(items[1]))
    } else {
        None
    }
}

/// What a run of bytes holds, read as one request.
pub open spec fn decoded(bytes: Seq<u8>) -> DecodedView {
    match json_array_items(bytes) {
        Ok(items) => match request_of_items(items) {
            Some(request) => DecodedView::Complete(request),
            None => DecodedView::Malformed,
        },
        Err(cut) => if cut {
            DecodedView::Incomplete
        } else {
            DecodedView::Malformed
        },
    }
}

/// Builds the request that an array stands for from its items and from the
/// strings that its first two items hold.
pub fn assemble_request(items: Vec<String>, id: Option<String>, method: Option<String>) -> (request:
    Option<Request>)
    ensures
        match request {
            Some(found) => assembled(items.deep_view(), text_of(id), text_of(method)) == Some(
                found@,
            ),
            None => assembled(items.deep_view(), text_of(id), text_of(method)) is None,
        },
{
    let ghost texts = items.deep_view();
    let n = items.len();
    if n != 2 && n != 3 {
        return None;
    }
    match (id, method) {
        (Some(id), Some(method)) => {
            let params = if n == 3 {
                assert(texts[2] == items@[2]@);
                items[2].clone()
            } else {
                "null".to_owned()
            };
            Some(Request { id, method, params })
        },
        _ => None,
    }
}

/// Builds the request that the items of an array stand for.
pub fn request_from_items(items: Vec<String>) -> (request: Option<Request>)
    ensures
        match request {
            Some(found) => request_of_items(items.deep_view()) == Some(found@),
            None => request_of_items(items.deep_view()) is None,
        },
{
    let ghost texts = items.deep_view();
    if items.len() < 2 {
        return None;
    }
    assert(texts[0] == items@[0]@);
    assert(texts[1] == items@[1]@);
    let id = read_string(items[0].as_str());
    let method = read_string(items[1].as_str());
    assemble_request(items, id, method)
}

/// Reads a run of bytes as one request.
pub fn decode_request(bytes: &[u8]) -> (outcome: Decoded)
    ensures
        outcome@ == decoded(bytes@),
{
    match read_array(bytes) {
        Ok(items) => match request_from_items(items) {
            Some(request) => Decoded::Complete(request),
            None => Decoded::Malformed,
        },
        Err(cut) => if cut {
            Decoded::Incomplete
        } else {
            Decoded::Malformed
        },
    }
}

/// The character that stands for a digit.
pub open spec fn digit_char(digit: nat) -> char {
    if digit == 0 {
        '0'
    } else if digit == 1 {
        '1'
    } else if digit == 2 {
        '2'
    } else if digit == 3 {
        '3'
    } else if digit == 4 {
        '4'
    } else if digit == 5 {
        '5'
    } else if digit == 6 {
        '6'
    } else if digit == 7 {
        '7'
    } else if digit == 8 {
        '8'
    } else {
        '9'
    }
}

/// A number written in decimal digits, without leading zeros.
pub open spec fn decimal(number: nat) -> Seq<char>
    decreases number,
{
    if number < 10 {
        seq![digit_char(number)]
    } else {
        decimal(number / 10).push(digit_char(number % 10))
    }
}

/// The text of one decimal digit.
fn digit_text(digit: u16) -> (text: &'static str)
    requires
        digit < 10,
    ensures
        text@ == seq![digit_char(digit as nat)],
{
    proof {
        reveal_strlit("0");
        reveal_strlit("1");
        reveal_strlit("2");
        reveal_strlit("3");
        reveal_strlit("4");
        reveal_strlit("5");
        reveal_strlit("6");
        reveal_strlit("7");
        reveal_strlit("8");
        reveal_strlit("9");
    }
    let text = if digit == 0 {
        "0"
    } else if digit == 1 {
        "1"
    } else if digit == 2 {
        "2"
    } else if digit == 3 {
        "3"
    } else if digit == 4 {
        "4"
    } else if digit == 5 {
        "5"
    } else if digit == 6 {
        "6"
    } else if digit == 7 {
        "7"
    } else if digit == 8 {
        "8"
    } else {
        "9"
    };
    assert(text@ =~= seq![digit_char(digit as nat)]);
    text
}

/// Writes a number in decimal digits.
pub fn decimal_text(number: u16) -> (text: String)
    ensures
        text@ == decimal(number as nat),
    decreases number,
{
    if number < 10 {
        digit_text(number).to_owned()
    } else {
        let mut text = decimal_text(number / 10);
        text.append(digit_text(number % 10));
        assert(text@ =~= decimal(number as nat));
        text
    }
}

/// A response as a JSON array, given its id and its message as JSON
/// strings. The payload stands in it as it is.
pub open spec fn framed(response: ResponseView, id: Seq<char>, message: Seq<char>) -> Seq<char> {
    "["@ + id + ","@ + decimal(response.status as nat) + ","@ + message + ","@ + response.payload
        + "]"@
}

/// A response as one message: the JSON array of its id, its status, its
/// message and its payload.
pub open spec fn encoded(response: ResponseView) -> Seq<char> {
    framed(response, json_string_literal(response.id), json_string_literal(response.message))
}

/// Writes a response as a JSON array around its id and its message, which
/// are given as JSON strings.
pub fn frame_response(response: &Response, id: &str, message: &str) -> (json: String)
    ensures
        json@ == framed(response@, id@, message@),
{
    let status = decimal_text(response.status);
    let mut json = "[".to_owned();
    json.append(id);
    json.append(",");
    json.append(status.as_str());
    json.append(",");
    json.append(message);
    json.append(",");
    json.append(response.payload.as_str());
    json.append("]");
    json
}

/// Writes a string as JSON text.
pub fn string_literal(text: &str) -> (json: String)
    ensures
        json@ == json_string_literal(text@),
{
    write_string(text).unwrap()
}

/// Writes a response as one message.
pub fn encode_response(response: &Response) -> (json: String)
    ensures
        json@ == encoded(response@),
{
    let id = string_literal(response.id.as_str());
    let message = string_literal(response.message.as_str());
    frame_response(response, id.as_str(), message.as_str())
}

} // verus!
