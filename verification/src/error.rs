//! What can go wrong while talking to the site.

use vstd::prelude::*;
use vstd::string::StringExecFns;

use crate::functions::{decimal_digits, decimal_string};

pub use failed_updates::FailedUpdates;
pub use failed_updates::Kind;

pub mod failed_updates;

verus! {

/// The session cookies that a login answer has to carry.
#[derive(Clone, Copy, Debug, PartialEq, Eq, Hash)]
pub enum Cookie {
    /// The cookie `X-Dev-Ref-No`.
    DevRefNo,
    /// The cookie `X-Access-Token`.
    AccessToken,
}

/// The values that are read off the page which lists the offers.
#[derive(Clone, Copy, Debug, PartialEq, Eq, Hash)]
pub enum Scraped {
    /// The anti-forgery token, in the attribute `data-csrf_token`.
    CsrfToken,
    /// The user's ID, in the attribute `data-user_id`.
    UserId,
}

/// The headers that a request of this library carries.
#[derive(Clone, Copy, Debug, PartialEq, Eq, Hash)]
pub enum HeaderField {
    /// `User-Agent`
    UserAgent,
    /// `X-User-ID`
    UserId,
    /// `X-Client-ID`
    ClientId,
    /// `X-Authorization`
    Authorization,
    /// `X-Dev-Ref-No`
    DevRefNo,
}

/// A credential fragment that could not be found where it was expected.
#[derive(Clone, Copy, Debug, PartialEq, Eq, Hash)]
pub enum ExtractionError {
    /// The login answer set no cookie of this name.
    MissingField(Cookie),
    /// No element of the page was selected for this value.
    MissingElement(Scraped),
    /// The first selected element does not carry the attribute.
    MissingAttribute(Scraped),
    /// The selector for this value was not accepted.
    InvalidSelector(Scraped),
    /// The page is longer than what is read.
    PageTooLong,
}

/// Why a single exchange with the site failed.
#[derive(Clone, Debug, PartialEq, Eq, Hash)]
pub enum Failure {
    /// The request got no answer; the text is the transport's own account of it.
    Transport(String),
    /// The answer's status was not a success; the status code is kept.
    Status(u16),
    /// A credential fragment was missing from an answer.
    Extraction(ExtractionError),
    /// The page was not valid UTF-8.
    Decode,
    /// A value cannot be sent as the content of this header.
    InvalidHeader(HeaderField),
    /// The address of an offer could not be put together.
    InvalidUrl,
}

/// Errors that can occur during API calls.
#[derive(Debug)]
pub enum Error {
    /// An error occurred during login.
    Login(Failure),
    /// Some offers failed to update.
    Updates(Box<FailedUpdates>),
}

impl ExtractionError {
    /// What is said of the error to the user.
    pub open spec fn spec_message(self) -> Seq<char> {
        match self {
            ExtractionError::MissingField(Cookie::DevRefNo) => "X-Dev-Ref-No not found in cookies"@,
            ExtractionError::MissingField(Cookie::AccessToken) => {
                "X-Access-Token not found in cookies"@
            },
            ExtractionError::MissingElement(Scraped::CsrfToken) => {
                "Could not find element with CSRF token"@
            },
            ExtractionError::MissingElement(Scraped::UserId) => {
                "Could not find element with user ID"@
            },
            ExtractionError::MissingAttribute(Scraped::CsrfToken) => {
                "Could not extract CSRF token from element"@
            },
            ExtractionError::MissingAttribute(Scraped::UserId) => {
                "Could not extract user ID from element"@
            },
            ExtractionError::InvalidSelector(Scraped::CsrfToken) => {
                "Could not create CSRF token selector"@
            },
            ExtractionError::InvalidSelector(Scraped::UserId) => {
                "Could not create user ID selector"@
            },
            ExtractionError::PageTooLong => "The page is too long to be read"@,
        }
    }

    /// What is said of the error to the user.
    pub fn message(&self) -> (text: &'static str)
        ensures
            text@ == self.spec_message(),
    {
        match self {
            ExtractionError::MissingField(Cookie::DevRefNo) => "X-Dev-Ref-No not found in cookies",
            ExtractionError::MissingField(Cookie::AccessToken) => {
                "X-Access-Token not found in cookies"
            },
            ExtractionError::MissingElement(Scraped::CsrfToken) => {
                "Could not find element with CSRF token"
            },
            ExtractionError::MissingElement(Scraped::UserId) => {
                "Could not find element with user ID"
            },
            ExtractionError::MissingAttribute(Scraped::CsrfToken) => {
                "Could not extract CSRF token from element"
            },
            ExtractionError::MissingAttribute(Scraped::UserId) => {
                "Could not extract user ID from element"
            },
            ExtractionError::InvalidSelector(Scraped::CsrfToken) => {
                "Could not create CSRF token selector"
            },
            ExtractionError::InvalidSelector(Scraped::UserId) => {
                "Could not create user ID selector"
            },
            ExtractionError::PageTooLong => "The page is too long to be read",
        }
    }
}

impl HeaderField {
    /// The name of the header.
    pub open spec fn spec_name(self) -> Seq<char> {
        match self {
            HeaderField::UserAgent => "User-Agent"@,
            HeaderField::UserId => "X-User-ID"@,
            HeaderField::ClientId => "X-Client-ID"@,
            HeaderField::Authorization => "X-Authorization"@,
            HeaderField::DevRefNo => "X-Dev-Ref-No"@,
        }
    }

    /// The name of the header.
    pub fn name(&self) -> (name: &'static str)
        ensures
            name@ == self.spec_name(),
    {
        match self {
            HeaderField::UserAgent => "User-Agent",
            HeaderField::UserId => "X-User-ID",
            HeaderField::ClientId => "X-Client-ID",
            HeaderField::Authorization => "X-Authorization",
            HeaderField::DevRefNo => "X-Dev-Ref-No",
        }
    }
}

impl Failure {
    /// What is said of the failure to the user.
    pub open spec fn spec_message(self) -> Seq<char> {
        match self {
            Failure::Transport(message) => message@,
            Failure::Status(status) => "HTTP status "@ + decimal_digits(status as nat),
            Failure::Extraction(error) => error.spec_message(),
            Failure::Decode => "The page is not valid UTF-8"@,
            Failure::InvalidHeader(field) => "Invalid value for the header "@ + field.spec_name(),
            Failure::InvalidUrl => "Could not build the address of the offer"@,
        }
    }

    /// What is said of the failure to the user.
    pub fn message(&self) -> (text: String)
        ensures
            text@ == self.spec_message(),
    {
        match self {
            Failure::Transport(message) => message.clone(),
            Failure::Status(status) => {
                let status: u32 = *status as u32;
                String::from_str("HTTP status ").concat(decimal_string(status).as_str())
            },
            Failure::Extraction(error) => String::from_str(error.message()),
            Failure::Decode => String::from_str("The page is not valid UTF-8"),
            Failure::InvalidHeader(field) => String::from_str(
                "Invalid value for the header ",
            ).concat(field.name()),
            Failure::InvalidUrl => String::from_str("Could not build the address of the offer"),
        }
    }
}

impl Kind {
    /// The word for this kind of update in a message.
    pub open spec fn spec_verb(self) -> Seq<char> {
        match self {
            Kind::Activate => "activate"@,
            Kind::Deactivate => "deactivate"@,
            Kind::Bump => "bump"@,
        }
    }

    /// The word for this kind of update in a message.
    pub fn verb(&self) -> (verb: &'static str)
        ensures
            verb@ == self.spec_verb(),
    {
        match self {
            Kind::Activate => "activate",
            Kind::Deactivate => "deactivate",
            Kind::Bump => "bump",
        }
    }
}

/// What is said to the user of an update of `kind` that failed for the offer `id`.
pub open spec fn spec_failed_update_message(kind: Kind, id: u32, failure: Failure) -> Seq<char> {
    "Failed to "@ + kind.spec_verb() + " #"@ + decimal_digits(id as nat) + ": "@
        + failure.spec_message()
}

/// What is said to the user of an update of `kind` that failed for the offer `id`.
pub fn failed_update_message(kind: Kind, id: u32, failure: &Failure) -> (text: String)
    ensures
        text@ == spec_failed_update_message(kind, id, *failure),
{
    let mut text = String::from_str("Failed to ");
    text.append(kind.verb());
    text.append(" #");
    text.append(decimal_string(id).as_str());
    text.append(": ");
    text.append(failure.message().as_str());
    text
}

/// What is said to the user of a login that failed.
pub open spec fn spec_failed_login_message(failure: Failure) -> Seq<char> {
    "Login failed: "@ + failure.spec_message()
}

/// What is said to the user of a login that failed.
pub fn failed_login_message(failure: &Failure) -> (text: String)
    ensures
        text@ == spec_failed_login_message(*failure),
{
    String::from_str("Login failed: ").concat(failure.message().as_str())
}

/// What an [`Error`] holds, as mathematical values.
pub ghost enum ErrorView {
    Login(Failure),
    Updates(failed_updates::Failures),
}

impl View for Error {
    type V = ErrorView;

    open spec fn view(&self) -> ErrorView {
        match *self {
            Error::Login(failure) => ErrorView::Login(failure),
            Error::Updates(failed_updates) => ErrorView::Updates(failed_updates@),
        }
    }
}

impl ErrorView {
    /// What is said of the error to the user.
    pub open spec fn message(self) -> Seq<char> {
        match self {
            ErrorView::Login(failure) => spec_failed_login_message(failure),
            ErrorView::Updates(failures) => failures.message(),
        }
    }
}

impl Error {
    /// What is said of the error to the user: that the login failed and why, or which updates
    /// failed and why.
    pub fn message(&self) -> (text: String)
        ensures
            text@ == self@.message(),
    {
        match self {
            Error::Login(failure) => failed_login_message(failure),
            Error::Updates(failed_updates) => failed_updates.message(),
        }
    }
}

impl From<Failure> for Error {
    fn from(failure: Failure) -> (error: Self) {
        Self::Login(failure)
    }
}

impl vstd::std_specs::convert::FromSpecImpl<Failure> for Error {
    open spec fn obeys_from_spec() -> bool {
        true
    }

    open spec fn from_spec(failure: Failure) -> Self {
        Self::Login(failure)
    }
}

impl From<FailedUpdates> for Error {
    fn from(failed_updates: FailedUpdates) -> (error: Self) {
        Self::Updates(Box::new(failed_updates))
    }
}

impl vstd::std_specs::convert::FromSpecImpl<FailedUpdates> for Error {
    open spec fn obeys_from_spec() -> bool {
        true
    }

    open spec fn from_spec(failed_updates: FailedUpdates) -> Self {
        Self::Updates(Box::new(failed_updates))
    }
}

} // verus!
