//! The body of a request that changes an offer.

use vstd::prelude::*;
use vstd::string::StringExecFns;

use crate::functions::{bool_to_int_str, spec_bool_to_int_str};

verus! {

/// What is submitted to show or hide an offer.
#[derive(Clone, Copy, Debug, Eq, PartialEq, Hash)]
pub struct PatchData<'token> {
    deactivated: bool,
    csrf_token: &'token str,
}

/// What a [`PatchData`] holds, as mathematical values.
pub ghost struct PatchDataView {
    pub deactivated: bool,
    pub csrf_token: Seq<char>,
}

impl PatchDataView {
    /// The members of the JSON object that is sent, in order. The flag goes out as the text
    /// `"1"` or `"0"`, which is what the site expects in place of a JSON boolean.
    pub open spec fn fields(self) -> Seq<(Seq<char>, Seq<char>)> {
        seq![
            ("deactivated"@, spec_bool_to_int_str(self.deactivated)),
            ("csrf_token"@, self.csrf_token),
        ]
    }
}

impl<'token> View for PatchData<'token> {
    type V = PatchDataView;

    closed spec fn view(&self) -> PatchDataView {
        PatchDataView { deactivated: self.deactivated, csrf_token: self.csrf_token@ }
    }
}

impl<'token> PatchData<'token> {
    /// Puts the data of a change together.
    pub fn new(deactivated: bool, csrf_token: &'token str) -> (patch_data: Self)
        ensures
            patch_data@ == (PatchDataView { deactivated, csrf_token: csrf_token@ }),
    {
        Self { deactivated, csrf_token }
    }

    /// The members of the JSON object that is sent, each a name with its text.
    pub fn fields(&self) -> (fields: Vec<(String, String)>)
        ensures
            fields.deep_view() == self@.fields(),
    {
        let mut fields: Vec<(String, String)> = Vec::new();
        fields.push(
            (String::from_str("deactivated"), String::from_str(bool_to_int_str(self.deactivated))),
        );
        fields.push((String::from_str("csrf_token"), String::from_str(self.csrf_token)));
        assert(fields.deep_view() =~= self@.fields());
        fields
    }
}

} // verus!
