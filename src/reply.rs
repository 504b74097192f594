use vstd::prelude::*;

verus! {

/// Status of an answered request.
pub const STATUS_OK: u16 = 200;

/// Status of a request whose form lacks a field.
pub const STATUS_BAD_REQUEST: u16 = 400;

/// Status of a request that failed inside the agent.
pub const STATUS_INTERNAL_ERROR: u16 = 500;

/// What an endpoint sends back: text, or bytes produced by an encoder.
pub enum Body {
    Text(String),
    Bytes(Vec<u8>),
}

/// An endpoint's answer, before the HTTP layer writes it out.
pub struct Reply {
    pub status: u16,
    /// `None` leaves the content type to the HTTP layer.
    pub content_type: Option<String>,
    pub body: Body,
}

/// A status in the 4xx class.
pub open spec fn is_client_error(status: u16) -> bool {
    400 <= status < 500
}

/// `r` carries `status`, no content type of its own, and the text `text`.
pub open spec fn is_text_reply(r: Reply, status: u16, text: Seq<char>) -> bool {
    &&& r.status == status
    &&& r.content_type is None
    &&& r.body matches Body::Text(t) && t@ == text
}

/// The content type of a body that must be shown as plain text, never
/// interpreted as markup.
pub open spec fn plain_text_type() -> Seq<char> {
    "text/plain; charset=utf-8"@
}

/// `r` carries `status`, the plain-text content type, and the text `text`.
pub open spec fn is_plain_text_reply(r: Reply, status: u16, text: Seq<char>) -> bool {
    &&& r.status == status
    &&& r.content_type matches Some(t) && t@ == plain_text_type()
    &&& r.body matches Body::Text(t) && t@ == text
}

impl Reply {
    /// A reply with the given status and a text body declared as plain text,
    /// so that clients never render it as markup.
    pub fn plain_text(status: u16, text: String) -> (r: Reply)
        ensures
            is_plain_text_reply(r, status, text@),
    {
        Reply {
            status,
            content_type: Some(String::from_str("text/plain; charset=utf-8")),
            body: Body::Text(text),
        }
    }

    /// A reply with the given status and text body.
    pub fn text(status: u16, text: String) -> (r: Reply)
        ensures
            is_text_reply(r, status, text@),
    {
        Reply { status, content_type: None, body: Body::Text(text) }
    }
}

} // verus!
