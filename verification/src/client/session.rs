use reqwest::Url;
use vstd::prelude::*;
use vstd::string::StrSliceExecFns;
use vstd::string::StringExecFns;

use crate::auth_data::{AuthData, AuthDataView};
use crate::error::{Failure, HeaderField};
use crate::functions::{decimal_digits, decimal_string, lemma_decimal_digits_len, pow10, Timeout};
use crate::patch_data::{PatchData, PatchDataView};
use crate::transport::{
    header_value_accepts, is_header_value, is_success, same_request, Method, Request, RequestView,
    Response, TransportError,
};

verus! {

/// The address under which the offers are changed.
pub const OFFER_MODIFY_URL: &'static str = "https://www.wg-gesucht.de/api/offers";

/// The longest text, counted in characters, that is taken as one segment of an address.
pub const MAX_SEGMENT_LENGTH: usize = 0x0100_0000;

/// The address that `Url` of the crate `url`, which `reqwest` hands on, gives when it parses
/// `base` and `PathSegmentsMut::extend` appends `segments` to its path. It is `None` where
/// `Url::parse` does not accept `base`, or where the address it makes cannot be a base.
pub uninterp spec fn url_with_segments(base: Seq<char>, segments: Seq<Seq<char>>) -> Option<
    Seq<char>,
>;

/// Parses `base` with `Url::parse`, appends `segments` with `PathSegmentsMut::extend` and
/// gives the address as text. The contract gives the outcome its name, [`url_with_segments`],
/// and claims nothing else of it. An address of more than `u32::MAX` bytes makes `extend`
/// panic; a character takes at most four bytes, which the escaping can triple, so the bounds
/// of `requires` keep far below that.
#[verifier::external_body]
fn extend_url(base: &str, segments: &Vec<String>) -> (url: Option<String>)
    requires
        base@.len() <= MAX_SEGMENT_LENGTH,
        segments.len() <= 3,
        forall|i: int|
            0 <= i < segments.len() ==> (#[trigger] segments[i])@.len() <= MAX_SEGMENT_LENGTH,
    ensures
        url.deep_view() == url_with_segments(base@, segments.deep_view()),
{
    let mut url = Url::parse(base).ok()?;
    url.path_segments_mut().ok()?.extend(segments);
    Some(String::from(url))
}

/// The address of the offer `offer_id` of the user `user_id`, if there is one: the address of
/// the offers, extended by the offer's number, by `users` and by the user's ID.
pub open spec fn spec_patch_url(offer_id: u32, user_id: Seq<char>) -> Option<Seq<char>> {
    if user_id.len() > MAX_SEGMENT_LENGTH {
        None
    } else {
        url_with_segments(
            OFFER_MODIFY_URL@,
            seq![decimal_digits(offer_id as nat), "users"@, user_id],
        )
    }
}

/// Puts the address together under which an offer of a user is changed. There is none for a
/// user ID of more than [`MAX_SEGMENT_LENGTH`] characters.
pub fn build_patch_url(offer_id: u32, user_id: &str) -> (url: Option<String>)
    ensures
        url.deep_view() == spec_patch_url(offer_id, user_id@),
{
    if user_id.unicode_len() > MAX_SEGMENT_LENGTH {
        return None;
    }
    let mut segments: Vec<String> = Vec::new();
    segments.push(decimal_string(offer_id));
    segments.push(String::from_str("users"));
    segments.push(String::from_str(user_id));
    proof {
        reveal_strlit("https://www.wg-gesucht.de/api/offers");
        reveal_strlit("users");
        reveal_with_fuel(pow10, 11);
        assert(pow10(10) == 10_000_000_000nat);
        lemma_decimal_digits_len(offer_id as nat, 10);
        assert(segments.deep_view() =~= seq![
            decimal_digits(offer_id as nat),
            "users"@,
            user_id@,
        ]);
    }
    extend_url(OFFER_MODIFY_URL, &segments)
}

/// Session with the wg-gesucht web API: the state after a login that went through.
#[derive(Clone, Debug, PartialEq, Eq, Hash)]
pub struct Session {
    auth_data: AuthData,
    timeout: Timeout,
    user_agent: String,
}

/// What a [`Session`] holds, as mathematical values.
pub ghost struct SessionView {
    pub auth_data: AuthDataView,
    pub timeout: Timeout,
    pub user_agent: Seq<char>,
}

impl SessionView {
    /// The request that shows (`deactivated` false) or hides (`deactivated` true) the offer
    /// `id`, or why there is none: no address, an authorization header that cannot be sent, or
    /// a user agent that cannot be sent, in this order.
    pub open spec fn patch_request(self, id: u32, deactivated: bool) -> Result<
        RequestView,
        Failure,
    > {
        let url = spec_patch_url(id, self.auth_data.user_id);
        if url is None {
            Err(Failure::InvalidUrl)
        } else if self.auth_data.invalid_header() is Some {
            Err(Failure::InvalidHeader(self.auth_data.invalid_header()->Some_0))
        } else if !is_header_value(self.user_agent) {
            Err(Failure::InvalidHeader(HeaderField::UserAgent))
        } else {
            Ok(
                RequestView {
                    method: Method::Patch,
                    url: url->Some_0,
                    headers: self.auth_data.headers().push(("User-Agent"@, self.user_agent)),
                    body: (PatchDataView {
                        deactivated,
                        csrf_token: self.auth_data.csrf_token,
                    }).fields(),
                    timeout: self.timeout,
                },
            )
        }
    }
}

impl View for Session {
    type V = SessionView;

    closed spec fn view(&self) -> SessionView {
        SessionView {
            auth_data: self.auth_data@,
            timeout: self.timeout,
            user_agent: self.user_agent@,
        }
    }
}

/// What an answer to a request that changes an offer amounts to: nothing on success, else
/// the failure of the transport or the status that was not a success.
pub open spec fn spec_outcome(reply: Result<Response, TransportError>) -> Result<(), Failure> {
    match reply {
        Err(error) => Err(Failure::Transport(error.message)),
        Ok(response) => if is_success(response.status) {
            Ok(())
        } else {
            Err(Failure::Status(response.status))
        },
    }
}

impl Session {
    /// Create a new session to the "WG gesucht" API.
    ///
    /// # Attributes
    /// * `auth_data` - The credentials that the login has given.
    /// * `timeout` - The HTTP request timeout.
    /// * `user_agent` - The HTTP user agent to send with the requests.
    #[must_use]
    pub fn new(auth_data: AuthData, timeout: Timeout, user_agent: String) -> (session: Self)
        ensures
            session@ == (SessionView {
                auth_data: auth_data@,
                timeout,
                user_agent: user_agent@,
            }),
    {
        Self { auth_data, timeout, user_agent }
    }

    /// The credentials of the session.
    pub fn auth_data(&self) -> (auth_data: &AuthData)
        ensures
            auth_data@ == self@.auth_data,
    {
        &self.auth_data
    }

    /// The HTTP request timeout.
    pub fn timeout(&self) -> (timeout: Timeout)
        ensures
            timeout == self@.timeout,
    {
        self.timeout
    }

    /// The HTTP user agent that is sent with the requests.
    pub fn user_agent(&self) -> (user_agent: &str)
        ensures
            user_agent@ == self@.user_agent,
    {
        self.user_agent.as_str()
    }

    /// The request that deactivates and then re-activates an offer: its two halves, in the
    /// order in which they are sent. The second is sent only after the first went through.
    ///
    /// # Attributes
    /// * `id` - The offer ID (also referred to as "ad id").
    ///
    /// # Errors
    /// Returns the [`Failure`] that keeps the requests from being built.
    pub fn bump(&self, id: u32) -> (requests: Result<(Request, Request), Failure>)
        ensures
            match self@.patch_request(id, true) {
                Ok(first) => requests is Ok && requests->Ok_0.0@ == first && Ok::<
                    RequestView,
                    Failure,
                >(requests->Ok_0.1@) == self@.patch_request(id, false),
                Err(failure) => requests == Err::<(Request, Request), Failure>(failure),
            },
    {
        let first = match self.deactivate(id) {
            Ok(first) => first,
            Err(failure) => { return Err(failure); },
        };
        match self.activate(id) {
            Ok(second) => Ok((first, second)),
            Err(failure) => Err(failure),
        }
    }

    /// The request that deactivates an offer.
    ///
    /// # Attributes
    /// * `id` - The offer ID (also referred to as "ad id").
    ///
    /// # Errors
    /// Returns the [`Failure`] that keeps the request from being built.
    pub fn deactivate(&self, id: u32) -> (request: Result<Request, Failure>)
        ensures
            same_request(request, self@.patch_request(id, true)),
    {
        self.build_patch_request(id, true)
    }

    /// The request that activates an offer.
    ///
    /// # Attributes
    /// * `id` - The offer ID (also referred to as "ad id").
    ///
    /// # Errors
    /// Returns the [`Failure`] that keeps the request from being built.
    pub fn activate(&self, id: u32) -> (request: Result<Request, Failure>)
        ensures
            same_request(request, self@.patch_request(id, false)),
    {
        self.build_patch_request(id, false)
    }

    /// Reads the answer to a request that changes an offer.
    pub fn outcome(reply: Result<Response, TransportError>) -> (outcome: Result<(), Failure>)
        ensures
            outcome == spec_outcome(reply),
    {
        match reply {
            Err(error) => Err(Failure::Transport(error.message)),
            Ok(response) => if is_success(response.status) {
                Ok(())
            } else {
                Err(Failure::Status(response.status))
            },
        }
    }

    /// Builds the request that shows or hides an offer.
    pub fn build_patch_request(&self, id: u32, deactivated: bool) -> (request: Result<
        Request,
        Failure,
    >)
        ensures
            same_request(request, self@.patch_request(id, deactivated)),
    {
        let url = match build_patch_url(id, self.auth_data.user_id()) {
            Some(url) => url,
            None => { return Err(Failure::InvalidUrl); },
        };
        let mut headers = match self.auth_data.headers() {
            Ok(headers) => headers,
            Err(failure) => { return Err(failure); },
        };
        if !header_value_accepts(self.user_agent.as_str()) {
            return Err(Failure::InvalidHeader(HeaderField::UserAgent));
        }
        let ghost auth_headers = headers.deep_view();
        headers.push((String::from_str("User-Agent"), self.user_agent.clone()));
        assert(headers.deep_view() =~= auth_headers.push(("User-Agent"@, self.user_agent@)));
        let body = PatchData::new(deactivated, self.auth_data.csrf_token()).fields();
        Ok(Request { method: Method::Patch, url, headers, body, timeout: self.timeout })
    }
}

} // verus!
