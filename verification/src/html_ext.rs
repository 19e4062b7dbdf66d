//! The credentials that are read off the page which lists the user's offers.

use scraper::{Html, Selector};
use vstd::prelude::*;
use vstd::utf8::encode_utf8;

use crate::error::{ExtractionError, Scraped};

verus! {

/// Selects the elements that carry the anti-forgery token, whatever kind of element they are.
pub const CSRF_TOKEN_SELECTOR: &'static str = "[data-csrf_token]";

/// The attribute that holds the anti-forgery token.
pub const CSRF_TOKEN_ATTRIBUTE: &'static str = "data-csrf_token";

/// Selects the elements that carry the user's ID, whatever kind of element they are.
pub const USER_ID_SELECTOR: &'static str = "[data-user_id]";

/// The attribute that holds the user's ID.
pub const USER_ID_ATTRIBUTE: &'static str = "data-user_id";

/// The longest page that is read, counted in the bytes of its UTF-8 form.
pub const MAX_PAGE_LENGTH: usize = 0x1000_0000;

/// The longest selector and the longest name of an attribute that is handed to the parser,
/// counted in characters.
pub const MAX_SELECTOR_LENGTH: usize = 64;

/// What `Html::select` of `scraper` finds in the document that `Html::parse_document` makes
/// of `html`: for each element that the CSS selector `selector` selects, in the order in
/// which they are yielded, the value of its attribute `attribute`, if it has that attribute.
/// It is `None` where `Selector::parse` does not accept `selector`.
pub uninterp spec fn selected_attributes(
    html: Seq<char>,
    selector: Seq<char>,
    attribute: Seq<char>,
) -> Option<Seq<Option<Seq<char>>>>;

/// Parses `selector` with `Selector::parse` and `html` with `Html::parse_document`, runs
/// `Html::select`, and asks each element that comes out for `attribute` with `Element::attr`.
/// The contract gives the outcome its name, [`selected_attributes`], and claims nothing else
/// of it. The parser keeps its texts in buffers (`Tendril`) that panic where they are to hold
/// more than `u32::MAX` bytes, or are grown beyond half of that. The bound on the page in
/// `requires` is a sixteenth of `u32::MAX`, so that the page, and the texts that the parser
/// makes of its parts (at the most three bytes for one, where the replacement character stands
/// for a null byte), stay far below. The bound on the selector keeps the parser of selectors,
/// which descends into nested brackets, from going deep.
#[verifier::external_body]
fn select_attributes(html: &str, selector: &str, attribute: &str) -> (found: Option<
    Vec<Option<String>>,
>)
    requires
        encode_utf8(html@).len() <= MAX_PAGE_LENGTH,
        selector@.len() <= MAX_SELECTOR_LENGTH,
        attribute@.len() <= MAX_SELECTOR_LENGTH,
    ensures
        found.deep_view() == selected_attributes(html@, selector@, attribute@),
{
    let selector = Selector::parse(selector).ok()?;
    let document = Html::parse_document(html);
    Some(
        document.select(&selector).map(
            |element| element.value().attr(attribute).map(String::from),
        ).collect(),
    )
}

/// What the two selectors find on a page. Each list has one entry for each selected element,
/// in the order in which they were found: the value of the attribute, if the element has it.
#[derive(Clone, Debug, PartialEq, Eq, Hash)]
pub struct Page {
    /// What the selector for the anti-forgery token found.
    pub csrf_tokens: Vec<Option<String>>,
    /// What the selector for the user's ID found.
    pub user_ids: Vec<Option<String>>,
}

impl Page {
    /// What was found for `what`.
    pub open spec fn found(&self, what: Scraped) -> Seq<Option<Seq<char>>> {
        match what {
            Scraped::CsrfToken => self.csrf_tokens.deep_view(),
            Scraped::UserId => self.user_ids.deep_view(),
        }
    }

    /// What the selectors find in the text of a page. There is nothing for a page of more
    /// than [`MAX_PAGE_LENGTH`] bytes, which is not read at all, and nothing where a selector
    /// was not accepted: the failure then names the value that it was for.
    pub open spec fn spec_parse(html: Seq<char>) -> Result<
        (Seq<Option<Seq<char>>>, Seq<Option<Seq<char>>>),
        ExtractionError,
    > {
        let csrf_tokens = selected_attributes(html, CSRF_TOKEN_SELECTOR@, CSRF_TOKEN_ATTRIBUTE@);
        let user_ids = selected_attributes(html, USER_ID_SELECTOR@, USER_ID_ATTRIBUTE@);
        if encode_utf8(html).len() > MAX_PAGE_LENGTH {
            Err(ExtractionError::PageTooLong)
        } else if csrf_tokens is None {
            Err(ExtractionError::InvalidSelector(Scraped::CsrfToken))
        } else if user_ids is None {
            Err(ExtractionError::InvalidSelector(Scraped::UserId))
        } else {
            Ok((csrf_tokens->Some_0, user_ids->Some_0))
        }
    }

    /// Parses the text of a page and runs the two selectors on it. A page of more than
    /// [`MAX_PAGE_LENGTH`] bytes is not read.
    pub fn parse(html: &str) -> (page: Result<Page, ExtractionError>)
        ensures
            match Self::spec_parse(html@) {
                Ok((csrf_tokens, user_ids)) => page is Ok && page->Ok_0.found(Scraped::CsrfToken)
                    == csrf_tokens && page->Ok_0.found(Scraped::UserId) == user_ids,
                Err(error) => page == Err::<Page, ExtractionError>(error),
            },
    {
        if html.as_bytes().len() > MAX_PAGE_LENGTH {
            return Err(ExtractionError::PageTooLong);
        }
        proof {
            reveal_strlit("[data-csrf_token]");
            reveal_strlit("data-csrf_token");
            reveal_strlit("[data-user_id]");
            reveal_strlit("data-user_id");
        }
        let csrf_tokens = match select_attributes(html, CSRF_TOKEN_SELECTOR, CSRF_TOKEN_ATTRIBUTE) {
            Some(csrf_tokens) => csrf_tokens,
            None => { return Err(ExtractionError::InvalidSelector(Scraped::CsrfToken)); },
        };
        let user_ids = match select_attributes(html, USER_ID_SELECTOR, USER_ID_ATTRIBUTE) {
            Some(user_ids) => user_ids,
            None => { return Err(ExtractionError::InvalidSelector(Scraped::UserId)); },
        };
        Ok(Page { csrf_tokens, user_ids })
    }
}

/// The value that a selection gives: the attribute of the element that was found first.
pub open spec fn first_attribute(found: Seq<Option<Seq<char>>>, what: Scraped) -> Result<
    Seq<char>,
    ExtractionError,
> {
    if found.len() == 0 {
        Err(ExtractionError::MissingElement(what))
    } else if found[0] is None {
        Err(ExtractionError::MissingAttribute(what))
    } else {
        Ok(found[0]->Some_0)
    }
}

/// The anti-forgery token and the user's ID that a page gives, or what is missing: the token is
/// looked at first.
pub open spec fn spec_csrf_token_and_user_id(page: Page) -> Result<
    (Seq<char>, Seq<char>),
    ExtractionError,
> {
    match first_attribute(page.found(Scraped::CsrfToken), Scraped::CsrfToken) {
        Err(error) => Err(error),
        Ok(csrf_token) => match first_attribute(page.found(Scraped::UserId), Scraped::UserId) {
            Err(error) => Err(error),
            Ok(user_id) => Ok((csrf_token, user_id)),
        },
    }
}

/// Takes the value of the first selected element.
pub fn scrape_first<'a>(found: &'a Vec<Option<String>>, what: Scraped) -> (value: Result<
    &'a str,
    ExtractionError,
>)
    ensures
        match first_attribute(found.deep_view(), what) {
            Ok(text) => value is Ok && value->Ok_0@ == text,
            Err(error) => value == Err::<&str, ExtractionError>(error),
        },
{
    if found.len() == 0 {
        return Err(ExtractionError::MissingElement(what));
    }
    assert(found.deep_view()[0] == found[0].deep_view());
    match &found[0] {
        Some(text) => Ok(text.as_str()),
        None => Err(ExtractionError::MissingAttribute(what)),
    }
}

/// Takes the anti-forgery token and the user's ID off the page that lists the offers. Of the
/// elements that a selector has found, the first one counts.
pub fn scrape_csrf_token_and_user_id(page: &Page) -> (pair: Result<(&str, &str), ExtractionError>)
    ensures
        match spec_csrf_token_and_user_id(*page) {
            Ok((csrf_token, user_id)) => pair is Ok && pair->Ok_0.0@ == csrf_token && pair->Ok_0.1@
                == user_id,
            Err(error) => pair == Err::<(&str, &str), ExtractionError>(error),
        },
{
    let csrf_token = match scrape_first(&page.csrf_tokens, Scraped::CsrfToken) {
        Ok(csrf_token) => csrf_token,
        Err(error) => { return Err(error); },
    };
    let user_id = match scrape_first(&page.user_ids, Scraped::UserId) {
        Ok(user_id) => user_id,
        Err(error) => { return Err(error); },
    };
    Ok((csrf_token, user_id))
}

} // verus!
