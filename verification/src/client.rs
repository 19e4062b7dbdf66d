//! The login handshake: two requests whose answers together make up the credentials of a
//! session.

use vstd::prelude::*;
use vstd::string::StringExecFns;
use vstd::utf8::{decode_utf8, valid_utf8};

use crate::auth_data::{AuthData, AuthDataView};
use crate::error::{Cookie, ExtractionError, Failure, HeaderField, Scraped};
use crate::functions::Timeout;
use crate::html_ext::{first_attribute, scrape_csrf_token_and_user_id, Page};
use crate::login_data::{LoginData, LoginDataView};
use crate::response_ext::{
    cookie_jar, scrape_dev_ref_and_access_token, spec_dev_ref_and_access_token,
    ACCESS_TOKEN_COOKIE, DEV_REF_COOKIE,
};
use crate::transport::{
    header_value_accepts, is_header_value, is_success, same_pair, same_request, text_from_utf8,
    Method, Request, RequestView, Response, TransportError,
};

pub use session::Session;
pub use session::SessionView;

pub mod session;

verus! {

/// The address to which the login is submitted.
pub const LOGIN_URL: &'static str = "https://www.wg-gesucht.de/ajax/sessions.php?action=login";

/// The address of the page that lists the user's offers.
pub const OFFERS_LIST_URL: &'static str = "https://www.wg-gesucht.de/meine-anzeigen.html";

/// The name under which this client is known to the site.
pub const CLIENT_ID: &'static str = "wg_desktop_website";

/// The language in which the site is asked to answer.
pub const LANGUAGE: &'static str = "de";

/// The timeout of a request unless another is given, in seconds.
pub const TIMEOUT: u64 = 10;

/// The user agent that is sent unless another is given.
pub const USER_AGENT: &'static str = "Mozilla/5.0 (Windows NT 10.0; Win64; x64) \
AppleWebKit/537.36 (KHTML, like Gecko) Chrome/116.0.0.0 Safari/537.36";

/// Client to the wg-gesucht web API: the state before the login.
#[derive(Clone, Debug, PartialEq, Eq, Hash)]
pub struct Client {
    timeout: Timeout,
    user_agent: String,
}

/// What a [`Client`] holds, as mathematical values.
pub ghost struct ClientView {
    pub timeout: Timeout,
    pub user_agent: Seq<char>,
}

impl ClientView {
    /// The headers that every request carries: the user agent.
    pub open spec fn headers(self) -> Seq<(Seq<char>, Seq<char>)> {
        seq![("User-Agent"@, self.user_agent)]
    }

    /// The request that submits the login, or why there is none: the user agent cannot be
    /// sent.
    pub open spec fn login_request(self, user_name: Seq<char>, password: Seq<char>) -> Result<
        RequestView,
        Failure,
    > {
        if !is_header_value(self.user_agent) {
            Err(Failure::InvalidHeader(HeaderField::UserAgent))
        } else {
            Ok(
                RequestView {
                    method: Method::Post,
                    url: LOGIN_URL@,
                    headers: self.headers(),
                    body: (LoginDataView {
                        user_name,
                        password,
                        autologin: true,
                        language: LANGUAGE@,
                    }).fields(),
                    timeout: self.timeout,
                },
            )
        }
    }

    /// The request that fetches the list of offers, or why there is none: the user agent
    /// cannot be sent.
    pub open spec fn offer_list_request(self) -> Result<RequestView, Failure> {
        if !is_header_value(self.user_agent) {
            Err(Failure::InvalidHeader(HeaderField::UserAgent))
        } else {
            Ok(
                RequestView {
                    method: Method::Get,
                    url: OFFERS_LIST_URL@,
                    headers: self.headers(),
                    body: Seq::empty(),
                    timeout: self.timeout,
                },
            )
        }
    }

    /// The session that the four scraped credentials give.
    pub open spec fn session(
        self,
        dev_ref: Seq<char>,
        access_token: Seq<char>,
        csrf_token: Seq<char>,
        user_id: Seq<char>,
    ) -> SessionView {
        SessionView {
            auth_data: AuthDataView {
                user_id,
                client_id: CLIENT_ID@,
                access_token,
                dev_ref,
                csrf_token,
            },
            timeout: self.timeout,
            user_agent: self.user_agent,
        }
    }
}

impl View for Client {
    type V = ClientView;

    closed spec fn view(&self) -> ClientView {
        ClientView { timeout: self.timeout, user_agent: self.user_agent@ }
    }
}

/// What the answer to the login gives: the reference number and the access token of the
/// session. It fails if there was no answer, if the status is not a success, or if one of the
/// two cookies is missing, in this order.
pub open spec fn spec_dev_ref_and_access_token_of(
    reply: Result<Response, TransportError>,
) -> Result<(Seq<char>, Seq<char>), Failure> {
    match reply {
        Err(error) => Err(Failure::Transport(error.message)),
        Ok(response) => if !is_success(response.status) {
            Err(Failure::Status(response.status))
        } else {
            match spec_dev_ref_and_access_token(cookie_jar(response.cookies.deep_view())) {
                Ok(pair) => Ok(pair),
                Err(error) => Err(Failure::Extraction(error)),
            }
        },
    }
}

/// What the text of the page that lists the offers gives: the anti-forgery token and the user's
/// ID.
pub open spec fn spec_csrf_token_and_user_id_in(html: Seq<char>) -> Result<
    (Seq<char>, Seq<char>),
    ExtractionError,
> {
    match Page::spec_parse(html) {
        Err(error) => Err(error),
        Ok((csrf_tokens, user_ids)) => match first_attribute(csrf_tokens, Scraped::CsrfToken) {
            Err(error) => Err(error),
            Ok(csrf_token) => match first_attribute(user_ids, Scraped::UserId) {
                Err(error) => Err(error),
                Ok(user_id) => Ok((csrf_token, user_id)),
            },
        },
    }
}

/// What the answer to the request for the list of offers gives: the anti-forgery token and the
/// user's ID. It fails if there was no answer, if the status is not a success, if the body is
/// not valid UTF-8, if the page is longer than what is read, or if one of the two values is not
/// found on the page, in this order.
pub open spec fn spec_csrf_token_and_user_id_of(reply: Result<Response, TransportError>) -> Result<
    (Seq<char>, Seq<char>),
    Failure,
> {
    match reply {
        Err(error) => Err(Failure::Transport(error.message)),
        Ok(response) => if !is_success(response.status) {
            Err(Failure::Status(response.status))
        } else if !valid_utf8(response.body@) {
            Err(Failure::Decode)
        } else {
            match spec_csrf_token_and_user_id_in(decode_utf8(response.body@)) {
                Ok(pair) => Ok(pair),
                Err(error) => Err(Failure::Extraction(error)),
            }
        },
    }
}

/// A login under way: a request of the handshake is out, and its answer is waited for.
#[derive(Clone, Debug, PartialEq, Eq, Hash)]
pub struct Login {
    client: Client,
    credentials: Option<(String, String)>,
}

/// What a [`Login`] holds, as mathematical values.
pub ghost struct LoginView {
    /// The client that logs in.
    pub client: ClientView,
    /// The reference number and the access token of the session, once the login has been
    /// answered. Until then the answer to the login is waited for; from then on, the page that
    /// lists the offers.
    pub credentials: Option<(Seq<char>, Seq<char>)>,
}

/// How a login goes on.
#[derive(Debug, PartialEq, Eq)]
pub enum LoginStep {
    /// This request is to be sent, and its answer handed to the login that comes with it.
    Send(Request, Login),
    /// The login is over: it has led to a session, or it has failed.
    Finish(Result<Session, Failure>),
}

/// What a [`LoginStep`] holds, as mathematical values.
pub ghost enum LoginStepView {
    Send(RequestView, LoginView),
    Finish(Result<SessionView, Failure>),
}

impl View for Login {
    type V = LoginView;

    closed spec fn view(&self) -> LoginView {
        LoginView {
            client: self.client@,
            credentials: match self.credentials {
                Some((dev_ref, access_token)) => Some((dev_ref@, access_token@)),
                None => None,
            },
        }
    }
}

impl View for LoginStep {
    type V = LoginStepView;

    open spec fn view(&self) -> LoginStepView {
        match *self {
            LoginStep::Send(request, login) => LoginStepView::Send(request@, login@),
            LoginStep::Finish(Ok(session)) => LoginStepView::Finish(Ok(session@)),
            LoginStep::Finish(Err(failure)) => LoginStepView::Finish(Err(failure)),
        }
    }
}

impl ClientView {
    /// The first step of the handshake: the login is submitted, unless the request cannot be
    /// built.
    pub open spec fn login(self, user_name: Seq<char>, password: Seq<char>) -> LoginStepView {
        match self.login_request(user_name, password) {
            Ok(request) => LoginStepView::Send(
                request,
                LoginView { client: self, credentials: None },
            ),
            Err(failure) => LoginStepView::Finish(Err(failure)),
        }
    }
}

impl LoginView {
    /// The step that an answer leads to. The answer to the login has to give the two cookies;
    /// then the page that lists the offers is asked for. The answer to that has to give the
    /// two values on the page; then the session stands. Any failure ends the login.
    pub open spec fn receive(self, reply: Result<Response, TransportError>) -> LoginStepView {
        match self.credentials {
            None => match spec_dev_ref_and_access_token_of(reply) {
                Err(failure) => LoginStepView::Finish(Err(failure)),
                Ok(credentials) => match self.client.offer_list_request() {
                    Err(failure) => LoginStepView::Finish(Err(failure)),
                    Ok(request) => LoginStepView::Send(
                        request,
                        LoginView { credentials: Some(credentials), ..self },
                    ),
                },
            },
            Some((dev_ref, access_token)) => match spec_csrf_token_and_user_id_of(reply) {
                Err(failure) => LoginStepView::Finish(Err(failure)),
                Ok((csrf_token, user_id)) => LoginStepView::Finish(
                    Ok(self.client.session(dev_ref, access_token, csrf_token, user_id)),
                ),
            },
        }
    }
}

/// A handshake whose two answers are in order leads to a session, and the five credentials of
/// that session are the five values that were sourced: the user's ID and the anti-forgery
/// token from the first elements that were selected on the page, the access token and the
/// reference number from the cookies of the login, and the fixed name of the application.
/// The answers are in order if each has a success status, the login sets both cookies, and
/// the page is valid UTF-8, no longer than what is read, in which each of the two selectors
/// finds, first of all, an element with its attribute; what kind of element that is does not
/// matter. The user agent has to be one that can be sent.
pub proof fn lemma_login_succeeds(client: ClientView, login: Response, listing: Response)
    requires
        is_header_value(client.user_agent),
        is_success(login.status),
        cookie_jar(login.cookies.deep_view()).contains_key(DEV_REF_COOKIE@),
        cookie_jar(login.cookies.deep_view()).contains_key(
            ACCESS_TOKEN_COOKIE@,
        ),
        is_success(listing.status),
        valid_utf8(listing.body@),
        Page::spec_parse(decode_utf8(listing.body@)) is Ok,
        first_attribute(
            Page::spec_parse(decode_utf8(listing.body@))->Ok_0.0,
            Scraped::CsrfToken,
        ) is Ok,
        first_attribute(
            Page::spec_parse(decode_utf8(listing.body@))->Ok_0.1,
            Scraped::UserId,
        ) is Ok,
    ensures
        ({
            let jar = cookie_jar(login.cookies.deep_view());
            let found = Page::spec_parse(decode_utf8(listing.body@))->Ok_0;
            let start = LoginView { client, credentials: None };
            let first = start.receive(Ok(login));
            &&& first is Send
            &&& Ok::<RequestView, Failure>(first->Send_0) == client.offer_list_request()
            &&& first->Send_1.receive(Ok(listing)) == LoginStepView::Finish(
                Ok(
                    SessionView {
                        auth_data: AuthDataView {
                            user_id: found.1[0]->Some_0,
                            client_id: CLIENT_ID@,
                            access_token: jar[ACCESS_TOKEN_COOKIE@],
                            dev_ref: jar[DEV_REF_COOKIE@],
                            csrf_token: found.0[0]->Some_0,
                        },
                        timeout: client.timeout,
                        user_agent: client.user_agent,
                    },
                ),
            )
        }),
{
}

/// A login whose answer lacks one of the two cookies fails with that, and there is no
/// session: the reference number is looked for first.
pub proof fn lemma_login_needs_both_cookies(client: ClientView, login: Response)
    requires
        is_success(login.status),
        !cookie_jar(login.cookies.deep_view()).contains_key(DEV_REF_COOKIE@)
            || !cookie_jar(login.cookies.deep_view()).contains_key(
            ACCESS_TOKEN_COOKIE@,
        ),
    ensures
        ({
            let jar = cookie_jar(login.cookies.deep_view());
            let missing = if !jar.contains_key(DEV_REF_COOKIE@) {
                Cookie::DevRefNo
            } else {
                Cookie::AccessToken
            };
            (LoginView { client, credentials: None }).receive(Ok(login)) == LoginStepView::Finish(
                Err(Failure::Extraction(ExtractionError::MissingField(missing))),
            )
        }),
{
}

/// A login fails, and there is no session, if the page that lists the offers, being no
/// longer than what is read, lacks one of the two values: the selector finds no element, or the
/// first element that it finds is without the attribute. The anti-forgery token is looked for
/// first.
pub proof fn lemma_login_needs_both_attributes(
    client: ClientView,
    dev_ref: Seq<char>,
    access_token: Seq<char>,
    listing: Response,
)
    requires
        is_success(listing.status),
        valid_utf8(listing.body@),
        Page::spec_parse(decode_utf8(listing.body@)) is Ok,
        first_attribute(
            Page::spec_parse(decode_utf8(listing.body@))->Ok_0.0,
            Scraped::CsrfToken,
        ) is Err || first_attribute(
            Page::spec_parse(decode_utf8(listing.body@))->Ok_0.1,
            Scraped::UserId,
        ) is Err,
    ensures
        ({
            let found = Page::spec_parse(decode_utf8(listing.body@))->Ok_0;
            let (list, what) = if first_attribute(found.0, Scraped::CsrfToken) is Err {
                (found.0, Scraped::CsrfToken)
            } else {
                (found.1, Scraped::UserId)
            };
            let missing = if list.len() == 0 {
                ExtractionError::MissingElement(what)
            } else {
                ExtractionError::MissingAttribute(what)
            };
            (LoginView { client, credentials: Some((dev_ref, access_token)) }).receive(Ok(listing))
                == LoginStepView::Finish(Err(Failure::Extraction(missing)))
        }),
{
}

/// An answer without a success status ends the login at once, whatever else it holds: no
/// cookie is looked for and no page is read.
pub proof fn lemma_login_needs_success(login: LoginView, response: Response)
    requires
        !is_success(response.status),
    ensures
        login.receive(Ok(response)) == LoginStepView::Finish(Err(Failure::Status(response.status))),
{
}

impl Login {
    /// Takes the answer to the request that is out, and says how the login goes on.
    pub fn receive(self, reply: Result<Response, TransportError>) -> (step: LoginStep)
        ensures
            step@ == self@.receive(reply),
    {
        match self.credentials {
            None => {
                let (dev_ref, access_token) = match Client::get_dev_ref_and_access_token(reply) {
                    Ok(credentials) => credentials,
                    Err(failure) => { return LoginStep::Finish(Err(failure)); },
                };
                let request = match self.client.build_offer_list_request() {
                    Ok(request) => request,
                    Err(failure) => { return LoginStep::Finish(Err(failure)); },
                };
                LoginStep::Send(
                    request,
                    Login { client: self.client, credentials: Some((dev_ref, access_token)) },
                )
            },
            Some((dev_ref, access_token)) => {
                let (csrf_token, user_id) = match Client::get_csrf_token_and_user_id(reply) {
                    Ok(scraped) => scraped,
                    Err(failure) => { return LoginStep::Finish(Err(failure)); },
                };
                let auth_data = Client::get_auth_data(dev_ref, access_token, csrf_token, user_id);
                LoginStep::Finish(
                    Ok(Session::new(auth_data, self.client.timeout, self.client.user_agent)),
                )
            },
        }
    }
}

impl Client {
    /// Create a new client to the "WG gesucht" API.
    ///
    /// # Attributes
    /// * `timeout` - The HTTP request timeout.
    /// * `user_agent` - The HTTP user agent to send with the requests.
    #[must_use]
    pub fn new(timeout: Timeout, user_agent: String) -> (client: Self)
        ensures
            client@ == (ClientView { timeout, user_agent: user_agent@ }),
    {
        Self { timeout, user_agent }
    }

    /// The HTTP request timeout.
    pub fn timeout(&self) -> (timeout: Timeout)
        ensures
            timeout == self@.timeout,
    {
        self.timeout
    }

    /// The HTTP user agent that is sent with the requests.
    pub fn user_agent(&self) -> (user_agent: &str)
        ensures
            user_agent@ == self@.user_agent,
    {
        self.user_agent.as_str()
    }

    /// The headers that every request carries, or the failure that the user agent cannot be
    /// sent.
    fn headers(&self) -> (headers: Result<Vec<(String, String)>, Failure>)
        ensures
            match headers {
                Ok(headers) => is_header_value(self@.user_agent) && headers.deep_view()
                    == self@.headers(),
                Err(failure) => !is_header_value(self@.user_agent) && failure
                    == Failure::InvalidHeader(HeaderField::UserAgent),
            },
    {
        if !header_value_accepts(self.user_agent.as_str()) {
            return Err(Failure::InvalidHeader(HeaderField::UserAgent));
        }
        let mut headers: Vec<(String, String)> = Vec::new();
        headers.push((String::from_str("User-Agent"), self.user_agent.clone()));
        assert(headers.deep_view() =~= self@.headers());
        Ok(headers)
    }

    /// Builds the request that submits the login.
    pub fn build_login_request(&self, user_name: &str, password: &str) -> (request: Result<
        Request,
        Failure,
    >)
        ensures
            same_request(request, self@.login_request(user_name@, password@)),
    {
        let headers = match self.headers() {
            Ok(headers) => headers,
            Err(failure) => { return Err(failure); },
        };
        let body = LoginData::new(user_name, password, true, LANGUAGE).fields();
        Ok(
            Request {
                method: Method::Post,
                url: String::from_str(LOGIN_URL),
                headers,
                body,
                timeout: self.timeout,
            },
        )
    }

    /// Builds the request that fetches the page which lists the user's offers.
    pub fn build_offer_list_request(&self) -> (request: Result<Request, Failure>)
        ensures
            same_request(request, self@.offer_list_request()),
    {
        let headers = match self.headers() {
            Ok(headers) => headers,
            Err(failure) => { return Err(failure); },
        };
        let body: Vec<(String, String)> = Vec::new();
        assert(body.deep_view() =~= Seq::<(Seq<char>, Seq<char>)>::empty());
        Ok(
            Request {
                method: Method::Get,
                url: String::from_str(OFFERS_LIST_URL),
                headers,
                body,
                timeout: self.timeout,
            },
        )
    }

    /// Reads the reference number and the access token of the session off the answer to the
    /// login.
    pub fn get_dev_ref_and_access_token(reply: Result<Response, TransportError>) -> (pair: Result<
        (String, String),
        Failure,
    >)
        ensures
            same_pair(pair, spec_dev_ref_and_access_token_of(reply)),
    {
        let response = match reply {
            Ok(response) => response,
            Err(error) => { return Err(Failure::Transport(error.message)); },
        };
        if !is_success(response.status) {
            return Err(Failure::Status(response.status));
        }
        match scrape_dev_ref_and_access_token(&response.cookies) {
            Ok((dev_ref, access_token)) => Ok(
                (String::from_str(dev_ref), String::from_str(access_token)),
            ),
            Err(error) => Err(Failure::Extraction(error)),
        }
    }

    /// Reads the anti-forgery token and the user's ID off the answer to the request for the
    /// list of offers.
    pub fn get_csrf_token_and_user_id(reply: Result<Response, TransportError>) -> (pair: Result<
        (String, String),
        Failure,
    >)
        ensures
            same_pair(pair, spec_csrf_token_and_user_id_of(reply)),
    {
        let response = match reply {
            Ok(response) => response,
            Err(error) => { return Err(Failure::Transport(error.message)); },
        };
        if !is_success(response.status) {
            return Err(Failure::Status(response.status));
        }
        let html = match text_from_utf8(response.body) {
            Some(html) => html,
            None => { return Err(Failure::Decode); },
        };
        let page = match Page::parse(html.as_str()) {
            Ok(page) => page,
            Err(error) => { return Err(Failure::Extraction(error)); },
        };
        match scrape_csrf_token_and_user_id(&page) {
            Ok((csrf_token, user_id)) => Ok(
                (String::from_str(csrf_token), String::from_str(user_id)),
            ),
            Err(error) => Err(Failure::Extraction(error)),
        }
    }

    /// Initiate API session.
    ///
    /// A login must be performed as the first call to the API
    /// in order to use subsequent requests to modify offers. This gives the first step of
    /// the handshake; [`Login::receive`] gives the others.
    pub fn login(self, user_name: &str, password: &str) -> (step: LoginStep)
        ensures
            step@ == self@.login(user_name@, password@),
    {
        match self.build_login_request(user_name, password) {
            Ok(request) => LoginStep::Send(request, Login { client: self, credentials: None }),
            Err(failure) => LoginStep::Finish(Err(failure)),
        }
    }

    /// Puts the credentials of a session together from what the two answers of the handshake
    /// gave. The name of the application is fixed to [`CLIENT_ID`].
    pub fn get_auth_data(
        dev_ref: String,
        access_token: String,
        csrf_token: String,
        user_id: String,
    ) -> (auth_data: AuthData)
        ensures
            auth_data@ == (AuthDataView {
                user_id: user_id@,
                client_id: CLIENT_ID@,
                access_token: access_token@,
                dev_ref: dev_ref@,
                csrf_token: csrf_token@,
            }),
    {
        AuthData::new(user_id, String::from_str(CLIENT_ID), access_token, dev_ref, csrf_token)
    }
}

impl Default for Client {
    fn default() -> (client: Self)
        ensures
            client@ == (ClientView {
                timeout: Timeout { secs: TIMEOUT },
                user_agent: USER_AGENT@,
            }),
    {
        Self::new(Timeout::from_secs(TIMEOUT), String::from_str(USER_AGENT))
    }
}

} // verus!
