//! Requests and answers as plain values: what is to be sent, and what came back.

use reqwest::header::HeaderValue;
use vstd::prelude::*;
use vstd::utf8::{decode_utf8, encode_utf8, valid_utf8};

use crate::error::Failure;
use crate::functions::Timeout;

verus! {

/// The HTTP methods that the site's interface is driven with.
#[derive(Clone, Copy, Debug, PartialEq, Eq, Hash, Structural)]
pub enum Method {
    /// Fetches a page.
    Get,
    /// Submits the login.
    Post,
    /// Changes an offer.
    Patch,
}

/// A request that is ready to be sent.
#[derive(Clone, Debug, PartialEq, Eq, Hash)]
pub struct Request {
    /// The method to send it with.
    pub method: Method,
    /// The address to send it to.
    pub url: String,
    /// The headers, each a name with its content, in the order in which they are set.
    pub headers: Vec<(String, String)>,
    /// The members of the JSON object that makes up the body, each a name with its text;
    /// empty where the request has no body.
    pub body: Vec<(String, String)>,
    /// How long to wait for the answer.
    pub timeout: Timeout,
}

/// What a [`Request`] holds, as mathematical values.
pub ghost struct RequestView {
    pub method: Method,
    pub url: Seq<char>,
    pub headers: Seq<(Seq<char>, Seq<char>)>,
    pub body: Seq<(Seq<char>, Seq<char>)>,
    pub timeout: Timeout,
}

impl View for Request {
    type V = RequestView;

    open spec fn view(&self) -> RequestView {
        RequestView {
            method: self.method,
            url: self.url@,
            headers: self.headers.deep_view(),
            body: self.body.deep_view(),
            timeout: self.timeout,
        }
    }
}

impl RequestView {
    /// Whether the body of an answer with this status is read: that of the page that was
    /// fetched with success, and no other.
    pub open spec fn reads_body(self, status: u16) -> bool {
        self.method == Method::Get && spec_is_success(status)
    }
}

impl Request {
    /// Whether the body of an answer with this status is read.
    pub fn reads_body(&self, status: u16) -> (reads: bool)
        ensures
            reads == self@.reads_body(status),
    {
        match self.method {
            Method::Get => is_success(status),
            _ => false,
        }
    }
}

/// Whether what was built is the request that was wanted, or failed as it was to fail.
pub open spec fn same_request(
    built: Result<Request, Failure>,
    wanted: Result<RequestView, Failure>,
) -> bool {
    match wanted {
        Ok(request) => built is Ok && built->Ok_0@ == request,
        Err(failure) => built == Err::<Request, Failure>(failure),
    }
}

/// Whether what was found is the pair of texts that was wanted, or failed as it was to fail.
pub open spec fn same_pair(
    found: Result<(String, String), Failure>,
    wanted: Result<(Seq<char>, Seq<char>), Failure>,
) -> bool {
    match wanted {
        Ok((first, second)) => found is Ok && found->Ok_0.0@ == first && found->Ok_0.1@ == second,
        Err(failure) => found == Err::<(String, String), Failure>(failure),
    }
}

/// What the site answered to a request.
#[derive(Clone, Debug, PartialEq, Eq, Hash)]
pub struct Response {
    /// The status code of the answer.
    pub status: u16,
    /// The cookies that the answer sets, each a name with its value, in the answer's order.
    pub cookies: Vec<(String, String)>,
    /// The body of the answer.
    pub body: Vec<u8>,
}

/// A request that got no answer: the connection failed, or the timeout ran out.
#[derive(Clone, Debug, PartialEq, Eq, Hash)]
pub struct TransportError {
    /// The transport's own account of what went wrong.
    pub message: String,
}

/// Whether a status code reports success, that is, lies between 200 and 299.
pub open spec fn spec_is_success(status: u16) -> bool {
    200 <= status <= 299
}

/// Whether a status code reports success.
#[verifier::when_used_as_spec(spec_is_success)]
pub fn is_success(status: u16) -> (success: bool)
    ensures
        success == spec_is_success(status),
{
    200 <= status && status <= 299
}

/// Whether a byte may stand in the content of a header: a tab, or anything from the space
/// upwards but the delete character.
pub open spec fn is_header_byte(byte: u8) -> bool {
    (byte >= 32 && byte != 127) || byte == 9
}

/// Whether a text can be sent as the content of a header: each byte of its UTF-8 form may
/// stand there.
pub open spec fn is_header_value(text: Seq<char>) -> bool {
    forall|i: int|
        0 <= i < encode_utf8(text).len() ==> is_header_byte(#[trigger] encode_utf8(text)[i])
}

/// Calls `HeaderValue::from_str`, which goes through the bytes of the text and fails if one of
/// them is below 32 and no tab, or is 127. The contract claims that it succeeds exactly on the
/// texts without such a byte.
#[verifier::external_body]
pub(crate) fn header_value_accepts(text: &str) -> (accepted: bool)
    ensures
        accepted == is_header_value(text@),
{
    HeaderValue::from_str(text).is_ok()
}

/// Calls `String::from_utf8` of std, which turns bytes into a text if they are valid UTF-8
/// and fails otherwise. The contract claims that, and that the text is the one that these
/// bytes encode.
#[verifier::external_body]
pub(crate) fn text_from_utf8(bytes: Vec<u8>) -> (text: Option<String>)
    ensures
        text is Some <==> valid_utf8(bytes@),
        text is Some ==> text->Some_0@ == decode_utf8(bytes@),
{
    String::from_utf8(bytes).ok()
}

} // verus!
