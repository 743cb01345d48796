//! The replies the endpoints give.

use vstd::prelude::*;

verus! {

/// Whether a reply body is plain text or JSON.
pub enum BodyKind {
    Text,
    Json,
}

/// A cookie to set on the client.
pub struct Cookie {
    pub name: String,
    pub value: String,
    pub path: String,
    pub http_only: bool,
    pub max_age_secs: i64,
}

/// An HTTP reply: status, body and an optional cookie.
pub struct Reply {
    pub status: u16,
    pub kind: BodyKind,
    pub body: String,
    pub cookie: Option<Cookie>,
}

/// A reply with a plain-text body and no cookie.
pub open spec fn is_text_reply(r: Reply, status: u16, body: Seq<char>) -> bool {
    &&& r.status == status
    &&& r.kind is Text
    &&& r.body@ == body
    &&& r.cookie is None
}

/// A reply with a JSON body and no cookie.
pub open spec fn is_json_reply(r: Reply, status: u16, body: Seq<char>) -> bool {
    &&& r.status == status
    &&& r.kind is Json
    &&& r.body@ == body
    &&& r.cookie is None
}

/// Whether an upstream status code reports success (2xx).
pub open spec fn is_success_status(status: u16) -> bool {
    200 <= status && status <= 299
}

pub fn text_reply(status: u16, body: &str) -> (r: Reply)
    ensures
        is_text_reply(r, status, body@),
{
    Reply { status, kind: BodyKind::Text, body: String::from_str(body), cookie: None }
}

pub fn text_reply_owned(status: u16, body: String) -> (r: Reply)
    ensures
        is_text_reply(r, status, body@),
{
    Reply { status, kind: BodyKind::Text, body, cookie: None }
}

pub fn json_reply(status: u16, body: String) -> (r: Reply)
    ensures
        is_json_reply(r, status, body@),
{
    Reply { status, kind: BodyKind::Json, body, cookie: None }
}

/// A text made of a fixed prefix and a variable tail.
pub fn concat_text(prefix: &str, tail: &str) -> (r: String)
    ensures
        r@ == prefix@ + tail@,
{
    let mut s = String::from_str(prefix);
    s.append(tail);
    s
}

} // verus!
