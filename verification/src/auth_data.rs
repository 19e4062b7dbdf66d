//! The composite authorization context of a session.

use vstd::prelude::*;
use vstd::string::StringExecFns;

use crate::error::{Failure, HeaderField};
use crate::transport::{header_value_accepts, is_header_value};

verus! {

/// The five credential fragments that authorize a request which changes an offer.
#[derive(Clone, Debug, Eq, PartialEq, Hash)]
pub struct AuthData {
    user_id: String,
    client_id: String,
    access_token: String,
    dev_ref: String,
    csrf_token: String,
}

/// What an [`AuthData`] holds, as mathematical values.
pub ghost struct AuthDataView {
    pub user_id: Seq<char>,
    pub client_id: Seq<char>,
    pub access_token: Seq<char>,
    pub dev_ref: Seq<char>,
    pub csrf_token: Seq<char>,
}

impl AuthDataView {
    /// The content of the header `X-Authorization`.
    pub open spec fn authorization(self) -> Seq<char> {
        "Bearer "@ + self.access_token
    }

    /// The authorization headers, in the order in which they are set.
    pub open spec fn headers(self) -> Seq<(Seq<char>, Seq<char>)> {
        seq![
            ("X-User-ID"@, self.user_id),
            ("X-Client-ID"@, self.client_id),
            ("X-Authorization"@, self.authorization()),
            ("X-Dev-Ref-No"@, self.dev_ref),
        ]
    }

    /// The first of the authorization headers whose content cannot be sent, if there is one.
    pub open spec fn invalid_header(self) -> Option<HeaderField> {
        if !is_header_value(self.user_id) {
            Some(HeaderField::UserId)
        } else if !is_header_value(self.client_id) {
            Some(HeaderField::ClientId)
        } else if !is_header_value(self.authorization()) {
            Some(HeaderField::Authorization)
        } else if !is_header_value(self.dev_ref) {
            Some(HeaderField::DevRefNo)
        } else {
            None
        }
    }
}

impl View for AuthData {
    type V = AuthDataView;

    closed spec fn view(&self) -> AuthDataView {
        AuthDataView {
            user_id: self.user_id@,
            client_id: self.client_id@,
            access_token: self.access_token@,
            dev_ref: self.dev_ref@,
            csrf_token: self.csrf_token@,
        }
    }
}

impl AuthData {
    /// Puts the five fragments together.
    pub fn new(
        user_id: String,
        client_id: String,
        access_token: String,
        dev_ref: String,
        csrf_token: String,
    ) -> (auth_data: Self)
        ensures
            auth_data@ == (AuthDataView {
                user_id: user_id@,
                client_id: client_id@,
                access_token: access_token@,
                dev_ref: dev_ref@,
                csrf_token: csrf_token@,
            }),
    {
        Self { user_id, client_id, access_token, dev_ref, csrf_token }
    }

    /// The user's ID, which is also a part of the address of each of the user's offers.
    pub fn user_id(&self) -> (user_id: &str)
        ensures
            user_id@ == self@.user_id,
    {
        self.user_id.as_str()
    }

    /// The identifier of the calling application.
    pub fn client_id(&self) -> (client_id: &str)
        ensures
            client_id@ == self@.client_id,
    {
        self.client_id.as_str()
    }

    /// The access token of the session.
    pub fn access_token(&self) -> (access_token: &str)
        ensures
            access_token@ == self@.access_token,
    {
        self.access_token.as_str()
    }

    /// The reference number of the session.
    pub fn dev_ref(&self) -> (dev_ref: &str)
        ensures
            dev_ref@ == self@.dev_ref,
    {
        self.dev_ref.as_str()
    }

    /// The anti-forgery token, which goes into the body of each request that changes an offer.
    pub fn csrf_token(&self) -> (csrf_token: &str)
        ensures
            csrf_token@ == self@.csrf_token,
    {
        self.csrf_token.as_str()
    }

    /// The headers that authorize a request, or the first of them whose content cannot be
    /// sent.
    pub fn headers(&self) -> (headers: Result<Vec<(String, String)>, Failure>)
        ensures
            match headers {
                Ok(headers) => self@.invalid_header() is None && headers.deep_view()
                    == self@.headers(),
                Err(failure) => self@.invalid_header() is Some && failure == Failure::InvalidHeader(
                    self@.invalid_header()->Some_0,
                ),
            },
    {
        if !header_value_accepts(self.user_id.as_str()) {
            return Err(Failure::InvalidHeader(HeaderField::UserId));
        }
        if !header_value_accepts(self.client_id.as_str()) {
            return Err(Failure::InvalidHeader(HeaderField::ClientId));
        }
        let authorization = String::from_str("Bearer ").concat(self.access_token.as_str());
        if !header_value_accepts(authorization.as_str()) {
            return Err(Failure::InvalidHeader(HeaderField::Authorization));
        }
        if !header_value_accepts(self.dev_ref.as_str()) {
            return Err(Failure::InvalidHeader(HeaderField::DevRefNo));
        }
        let mut headers: Vec<(String, String)> = Vec::new();
        headers.push((String::from_str("X-User-ID"), self.user_id.clone()));
        headers.push((String::from_str("X-Client-ID"), self.client_id.clone()));
        headers.push((String::from_str("X-Authorization"), authorization));
        headers.push((String::from_str("X-Dev-Ref-No"), self.dev_ref.clone()));
        assert(headers.deep_view() =~= self@.headers());
        Ok(headers)
    }
}

} // verus!
