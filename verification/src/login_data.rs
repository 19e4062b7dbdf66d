//! The body of the login request.

use vstd::prelude::*;
use vstd::string::StringExecFns;

use crate::functions::{bool_to_int_str, spec_bool_to_int_str};

verus! {

/// What is submitted to log in.
#[derive(Clone, Copy, Debug, Eq, PartialEq, Hash)]
pub struct LoginData<'creds> {
    user_name: &'creds str,
    password: &'creds str,
    autologin: bool,
    language: &'creds str,
}

/// What a [`LoginData`] holds, as mathematical values.
pub ghost struct LoginDataView {
    pub user_name: Seq<char>,
    pub password: Seq<char>,
    pub autologin: bool,
    pub language: Seq<char>,
}

impl LoginDataView {
    /// The members of the JSON object that is sent, in order. The flag goes out as the text
    /// `"1"` or `"0"`, which is what the site expects in place of a JSON boolean.
    pub open spec fn fields(self) -> Seq<(Seq<char>, Seq<char>)> {
        seq![
            ("login_email_username"@, self.user_name),
            ("login_password"@, self.password),
            ("login_form_autologin"@, spec_bool_to_int_str(self.autologin)),
            ("display_language"@, self.language),
        ]
    }
}

impl<'creds> View for LoginData<'creds> {
    type V = LoginDataView;

    closed spec fn view(&self) -> LoginDataView {
        LoginDataView {
            user_name: self.user_name@,
            password: self.password@,
            autologin: self.autologin,
            language: self.language@,
        }
    }
}

impl<'creds> LoginData<'creds> {
    /// Puts the login data together.
    pub fn new(
        user_name: &'creds str,
        password: &'creds str,
        autologin: bool,
        language: &'creds str,
    ) -> (login_data: Self)
        ensures
            login_data@ == (LoginDataView {
                user_name: user_name@,
                password: password@,
                autologin,
                language: language@,
            }),
    {
        Self { user_name, password, autologin, language }
    }

    /// The members of the JSON object that is sent, each a name with its text.
    pub fn fields(&self) -> (fields: Vec<(String, String)>)
        ensures
            fields.deep_view() == self@.fields(),
    {
        let mut fields: Vec<(String, String)> = Vec::new();
        fields.push((String::from_str("login_email_username"), String::from_str(self.user_name)));
        fields.push((String::from_str("login_password"), String::from_str(self.password)));
        let autologin = String::from_str(bool_to_int_str(self.autologin));
        fields.push((String::from_str("login_form_autologin"), autologin));
        fields.push((String::from_str("display_language"), String::from_str(self.language)));
        assert(fields.deep_view() =~= self@.fields());
        fields
    }
}

} // verus!
