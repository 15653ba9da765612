//! Request validation shared by the HTTP server handlers: the Origin check
//! against DNS rebinding, the JSON content type, the protocol version header
//! and the `Last-Event-ID` header.

use vstd::prelude::*;

use crate::schema::jsonrpc::{is_supported_protocol_version, supported_protocol_versions};
use crate::text::{
    ascii_lower_seq, chars_of, contains_text, eq_ignore_ascii_case, eq_ignore_case, has_prefix,
    lower_ascii, owned, parse_u64, parse_u64_spec, push_all, starts_with, str_eq, text_contains,
};

verus! {

/// A header as the handlers see it: absent, present as text, or present with
/// bytes that are not visible ASCII (so `HeaderValue::to_str` fails).
pub open spec fn header_view(h: Option<Option<&str>>) -> Option<Option<Seq<char>>> {
    match h {
        None => None,
        Some(None) => Some(None),
        Some(Some(t)) => Some(Some(t@)),
    }
}

/// The parts of a URL that the Origin check reads, as `url::Url::parse`
/// yields them: scheme, host, explicit port, and port or the scheme's known
/// default port.
pub uninterp spec fn parsed_url(s: Seq<char>) -> Option<(Seq<char>, Option<Seq<char>>, Option<u16>, Option<u16>)>;

/// Parse a URL (`url::Url::parse`) into the parts the Origin check reads;
/// a URL that does not parse gives the parser's message, whose text is not
/// stated.
#[verifier::external_body]
pub(crate) fn parse_url_parts(s: &str) -> (r: Result<(String, Option<String>, Option<u16>, Option<u16>), String>)
    ensures
        match (r, parsed_url(s@)) {
            (Err(_), None) => true,
            (Ok((a, b, c, d)), Some((w, x, y, z))) => a@ == w && match (b, x) {
                (None, None) => true,
                (Some(h), Some(k)) => h@ == k,
                _ => false,
            } && c == y && d == z,
            _ => false,
        },
{
    match ::url::Url::parse(s) {
        Ok(u) => Ok((u.scheme().to_string(), u.host_str().map(|h| h.to_string()), u.port(), u.port_or_known_default())),
        Err(e) => Err(e.to_string()),
    }
}

/// The ASCII serialization of the origin of a URL that parses
/// (`url::Url::origin().ascii_serialization()`).
pub uninterp spec fn url_origin(s: Seq<char>) -> Seq<char>;

/// The origin of a URL (`Url::parse`, `origin`, `ascii_serialization`); the
/// URL must parse.
#[verifier::external_body]
pub(crate) fn url_origin_text(s: &str) -> (r: String)
    requires
        parsed_url(s@) is Some,
    ensures
        r@ == url_origin(s@),
{
    match ::url::Url::parse(s) {
        Ok(u) => u.origin().ascii_serialization(),
        Err(_) => String::new(),
    }
}

/// The host and port of an HTTP authority, as `http::uri::Authority` parses
/// them.
pub uninterp spec fn parsed_authority(s: Seq<char>) -> Option<(Seq<char>, Option<u16>)>;

/// Parse an HTTP authority (`http::uri::Authority::from_str`).
#[verifier::external_body]
fn parse_authority_parts(s: &str) -> (r: Option<(String, Option<u16>)>)
    ensures
        match (r, parsed_authority(s@)) {
            (None, None) => true,
            (Some((h, p)), Some((k, q))) => h@ == k && p == q,
            _ => false,
        },
{
    s.parse::<::http::uri::Authority>().ok().map(|a| (a.host().to_string(), a.port_u16()))
}

/// Whether a request with the given Origin and Host headers is accepted: no
/// Origin at all, or an http(s) Origin other than `null` whose host equals
/// the Host header's host (ignoring ASCII case) and whose port matches.
pub open spec fn origin_allowed(origin: Option<Option<Seq<char>>>, host: Option<Option<Seq<char>>>) -> bool {
    match origin {
        None => true,
        Some(None) => false,
        Some(Some(o)) => o != "null"@ && match parsed_url(o) {
            None => false,
            Some((scheme, origin_host, port, known_port)) => (scheme == "http"@ || scheme
                == "https"@) && match host {
                Some(Some(h)) => match parsed_authority(h) {
                    None => false,
                    Some((authority_host, authority_port)) => match origin_host {
                        None => false,
                        Some(oh) => eq_ignore_ascii_case(oh, authority_host) && match authority_port {
                            Some(p) => known_port == Some(p),
                            None => port is None,
                        },
                    },
                },
                _ => false,
            },
        },
    }
}

/// Validate the Origin header against the request Host when present.
pub fn validate_origin(origin: Option<Option<&str>>, host: Option<Option<&str>>) -> (ok: bool)
    ensures
        ok == origin_allowed(header_view(origin), header_view(host)),
{
    let o = match origin {
        None => return true,
        Some(None) => return false,
        Some(Some(o)) => o,
    };
    if str_eq(o, "null") {
        return false;
    }
    let (scheme, origin_host, port, known_port) = match parse_url_parts(o) {
        Err(_) => return false,
        Ok(parts) => parts,
    };
    if !(str_eq(scheme.as_str(), "http") || str_eq(scheme.as_str(), "https")) {
        return false;
    }
    let h = match host {
        Some(Some(h)) => h,
        _ => return false,
    };
    let (authority_host, authority_port) = match parse_authority_parts(h) {
        None => return false,
        Some(parts) => parts,
    };
    let oh = match origin_host {
        None => return false,
        Some(oh) => oh,
    };
    let a = chars_of(oh.as_str());
    let b = chars_of(authority_host.as_str());
    if !eq_ignore_case(&a, &b) {
        return false;
    }
    match authority_port {
        Some(p) => match known_port {
            Some(k) => k == p,
            None => false,
        },
        None => port.is_none(),
    }
}

/// Why a POST body's content type is refused (`415 Unsupported Media Type`).
#[derive(Debug, Clone, Copy, PartialEq, Eq)]
pub enum ContentTypeError {
    /// No Content-Type header, or one that is not JSON.
    NotJson,
    /// A Content-Type header whose bytes are not visible ASCII.
    Invalid,
}

impl ContentTypeError {
    /// The response body text.
    pub fn message(&self) -> (s: &'static str)
        ensures
            s@ == match self {
                ContentTypeError::NotJson => "Content-Type must be application/json"@,
                ContentTypeError::Invalid => "Invalid Content-Type"@,
            },
    {
        match self {
            ContentTypeError::NotJson => "Content-Type must be application/json",
            ContentTypeError::Invalid => "Invalid Content-Type",
        }
    }
}

/// The verdict on a Content-Type header: it must start with
/// `application/json`, ignoring ASCII case.
pub open spec fn content_type_verdict(h: Option<Option<Seq<char>>>) -> core::result::Result<(), ContentTypeError> {
    match h {
        None => Err(ContentTypeError::NotJson),
        Some(None) => Err(ContentTypeError::Invalid),
        Some(Some(t)) => if has_prefix(ascii_lower_seq(t), "application/json"@) {
            Ok(())
        } else {
            Err(ContentTypeError::NotJson)
        },
    }
}

/// Ensure the request Content-Type is JSON.
pub fn validate_json_content_type(content_type: Option<Option<&str>>) -> (r: core::result::Result<(), ContentTypeError>)
    ensures
        r == content_type_verdict(header_view(content_type)),
{
    match content_type {
        None => Err(ContentTypeError::NotJson),
        Some(None) => Err(ContentTypeError::Invalid),
        Some(Some(t)) => {
            let v = chars_of(t);
            let lower = lower_ascii(&v);
            if starts_with(&lower, "application/json") {
                Ok(())
            } else {
                Err(ContentTypeError::NotJson)
            }
        },
    }
}

/// Whether the `MCP-Protocol-Version` header, when present, names a
/// protocol version accepted from peers (`400 Unsupported protocol version`
/// otherwise).
pub open spec fn protocol_version_accepted(h: Option<Option<Seq<char>>>) -> bool {
    match h {
        None => true,
        Some(None) => false,
        Some(Some(v)) => supported_protocol_versions().contains(v),
    }
}

/// Validate the MCP-Protocol-Version header, if present.
pub fn validate_protocol_version(version: Option<Option<&str>>) -> (ok: bool)
    ensures
        ok == protocol_version_accepted(header_view(version)),
{
    match version {
        None => true,
        Some(None) => false,
        Some(Some(v)) => is_supported_protocol_version(v),
    }
}

/// The event id named by a `Last-Event-ID` header, when it is a decimal
/// `u64`.
pub open spec fn last_event_id_of(h: Option<Option<Seq<char>>>) -> Option<u64> {
    match h {
        Some(Some(t)) => parse_u64_spec(t),
        _ => None,
    }
}

/// Parse the Last-Event-ID header, if present.
pub fn parse_last_event_id(header: Option<Option<&str>>) -> (r: Option<u64>)
    ensures
        r == last_event_id_of(header_view(header)),
{
    match header {
        Some(Some(t)) => parse_u64(t),
        _ => None,
    }
}

/// The largest POST body the server reads, in bytes.
pub const MAX_HTTP_BODY_SIZE: usize = 2097152;

/// The refusal of a POST whose body could not be read: `413` when it
/// exceeded the size limit (the reader reports a length limit), `400`
/// otherwise, quoting the reader's message.
pub fn body_read_refusal(reader_error: &str) -> (r: (u16, String))
    ensures
        r.0 == if contains_text(reader_error@, "length limit exceeded"@) {
            413u16
        } else {
            400u16
        },
        r.1@ == "Failed to read request body: "@ + reader_error@,
{
    let status: u16 = if text_contains(reader_error, "length limit exceeded") {
        413
    } else {
        400
    };
    let mut message = owned("Failed to read request body: ");
    push_all(&mut message, reader_error);
    (status, message)
}

/// The refusal of a POST whose body is not a JSON-RPC message: `400`,
/// quoting the parser's message.
pub fn invalid_body_refusal(parser_error: &str) -> (r: (u16, String))
    ensures
        r.0 == 400,
        r.1@ == "Invalid JSON body: "@ + parser_error@,
{
    let mut message = owned("Invalid JSON body: ");
    push_all(&mut message, parser_error);
    (400, message)
}

} // verus!
