//! The session cookies of a login answer.

use vstd::prelude::*;
use vstd::string::StringExecFns;

use crate::error::{Cookie, ExtractionError};

verus! {

/// The name of the cookie that holds the reference number of the session.
pub const DEV_REF_COOKIE: &'static str = "X-Dev-Ref-No";

/// The name of the cookie that holds the access token of the session.
pub const ACCESS_TOKEN_COOKIE: &'static str = "X-Access-Token";

/// The mapping from names to values that a list of cookies amounts to. Where a name occurs
/// more than once, the cookie that comes last decides.
pub open spec fn cookie_jar(cookies: Seq<(Seq<char>, Seq<char>)>) -> Map<Seq<char>, Seq<char>>
    decreases cookies.len(),
{
    if cookies.len() == 0 {
        Map::empty()
    } else {
        cookie_jar(cookies.drop_last()).insert(cookies.last().0, cookies.last().1)
    }
}

/// The two session credentials that a jar of cookies holds, the reference number first, or the
/// first of the two cookies that it lacks.
pub open spec fn spec_dev_ref_and_access_token(jar: Map<Seq<char>, Seq<char>>) -> Result<
    (Seq<char>, Seq<char>),
    ExtractionError,
> {
    if !jar.contains_key(DEV_REF_COOKIE@) {
        Err(ExtractionError::MissingField(Cookie::DevRefNo))
    } else if !jar.contains_key(ACCESS_TOKEN_COOKIE@) {
        Err(ExtractionError::MissingField(Cookie::AccessToken))
    } else {
        Ok((jar[DEV_REF_COOKIE@], jar[ACCESS_TOKEN_COOKIE@]))
    }
}

/// The order of the cookies does not matter but among cookies of one name: a name is in the
/// jar exactly if some cookie has it, and the jar gives it the value of each cookie of that name
/// that no other cookie of that name comes after.
pub proof fn lemma_cookie_jar(cookies: Seq<(Seq<char>, Seq<char>)>)
    ensures
        forall|name: Seq<char>|
            cookie_jar(cookies).contains_key(name) <==> exists|i: int|
                0 <= i < cookies.len() && (#[trigger] cookies[i]).0 == name,
        forall|i: int|
            0 <= i < cookies.len() && (forall|j: int|
                i < j < cookies.len() ==> (#[trigger] cookies[j]).0 != cookies[i].0)
                ==> cookie_jar(cookies)[(#[trigger] cookies[i]).0] == cookies[i].1,
    decreases cookies.len(),
{
    if cookies.len() > 0 {
        let before = cookies.drop_last();
        let last = cookies.last();
        let jar = cookie_jar(cookies);
        lemma_cookie_jar(before);
        assert(jar == cookie_jar(before).insert(last.0, last.1));
        assert(forall|i: int| 0 <= i < before.len() ==> before[i] == cookies[i]);
        assert forall|name: Seq<char>| jar.contains_key(name) implies exists|i: int|
            0 <= i < cookies.len() && (#[trigger] cookies[i]).0 == name by {
            if name == last.0 {
                assert(cookies[cookies.len() - 1].0 == name);
            } else {
                assert(cookie_jar(before).contains_key(name));
                let i = choose|i: int| 0 <= i < before.len() && (#[trigger] before[i]).0 == name;
                assert(cookies[i].0 == name);
            }
        }
        assert forall|name: Seq<char>|
            (exists|i: int| 0 <= i < cookies.len() && (#[trigger] cookies[i]).0 == name)
            implies jar.contains_key(name) by {
            let i = choose|i: int| 0 <= i < cookies.len() && (#[trigger] cookies[i]).0 == name;
            if i < before.len() {
                assert(before[i].0 == name);
                assert(cookie_jar(before).contains_key(name));
            }
        }
        assert forall|i: int|
            0 <= i < cookies.len() && (forall|j: int|
                i < j < cookies.len() ==> (#[trigger] cookies[j]).0
                    != cookies[i].0) implies jar[(#[trigger] cookies[i]).0] == cookies[i].1 by {
            if i < before.len() {
                assert(cookies[cookies.len() - 1].0 != cookies[i].0);
                assert(before[i] == cookies[i]);
                assert forall|j: int| i < j < before.len() implies (#[trigger] before[j]).0
                    != before[i].0 by {
                    assert(cookies[j].0 != cookies[i].0);
                }
                assert(cookie_jar(before)[before[i].0] == before[i].1);
            }
        }
    }
}

/// Looks a cookie up by its name.
pub fn find_cookie<'a>(cookies: &'a Vec<(String, String)>, name: &str) -> (value: Option<&'a str>)
    ensures
        match value {
            Some(value) => cookie_jar(cookies.deep_view()).contains_key(name@) && value@
                == cookie_jar(cookies.deep_view())[name@],
            None => !cookie_jar(cookies.deep_view()).contains_key(name@),
        },
{
    let wanted = String::from_str(name);
    let mut rest: usize = cookies.len();
    proof {
        assert(cookies.deep_view().take(rest as int) =~= cookies.deep_view());
    }
    while rest > 0
        invariant
            rest <= cookies.len(),
            wanted@ == name@,
            ({
                let jar = cookie_jar(cookies.deep_view().take(rest as int));
                &&& cookie_jar(cookies.deep_view()).contains_key(name@) == jar.contains_key(name@)
                &&& jar.contains_key(name@) ==> cookie_jar(cookies.deep_view())[name@] == jar[name@]
            }),
        decreases rest,
    {
        let ghost all = cookies.deep_view();
        let ghost before = all.take(rest as int);
        proof {
            assert(before.drop_last() =~= all.take(rest - 1));
            assert(before.last() == all[rest - 1]);
            assert(all[rest - 1] == cookies[rest - 1].deep_view());
        }
        rest = rest - 1;
        if cookies[rest].0 == wanted {
            return Some(cookies[rest].1.as_str());
        }
    }
    proof {
        assert(cookies.deep_view().take(0) =~= Seq::<(Seq<char>, Seq<char>)>::empty());
    }
    None
}

/// Takes the reference number and the access token of the session out of the cookies that
/// the login answer has set.
pub fn scrape_dev_ref_and_access_token(cookies: &Vec<(String, String)>) -> (pair: Result<
    (&str, &str),
    ExtractionError,
>)
    ensures
        match spec_dev_ref_and_access_token(cookie_jar(cookies.deep_view())) {
            Ok((dev_ref, access_token)) => pair is Ok && pair->Ok_0.0@ == dev_ref && pair->Ok_0.1@
                == access_token,
            Err(error) => pair == Err::<(&str, &str), ExtractionError>(error),
        },
{
    let dev_ref = match find_cookie(cookies, DEV_REF_COOKIE) {
        Some(dev_ref) => dev_ref,
        None => { return Err(ExtractionError::MissingField(Cookie::DevRefNo)); },
    };
    let access_token = match find_cookie(cookies, ACCESS_TOKEN_COOKIE) {
        Some(access_token) => access_token,
        None => { return Err(ExtractionError::MissingField(Cookie::AccessToken)); },
    };
    Ok((dev_ref, access_token))
}

} // verus!
