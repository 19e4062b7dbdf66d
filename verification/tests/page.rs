use wg_gesucht_updater::error::{ExtractionError, Scraped};
use wg_gesucht_updater::html_ext::{
    scrape_csrf_token_and_user_id, scrape_first, Page, MAX_PAGE_LENGTH,
};

fn found(values: &[Option<&str>]) -> Vec<Option<String>> {
    values.iter().map(|value| value.map(str::to_string)).collect()
}

#[test]
fn parse_finds_both_values_on_one_element() {
    let html = "<html><body><a data-csrf_token=\"csrf\" data-user_id=\"4711\">x</a></body></html>";
    let page = Page::parse(html).unwrap();
    assert_eq!(page.csrf_tokens, found(&[Some("csrf")]));
    assert_eq!(page.user_ids, found(&[Some("4711")]));
    assert_eq!(scrape_csrf_token_and_user_id(&page), Ok(("csrf", "4711")));
}

#[test]
fn parse_finds_the_values_on_different_elements() {
    let html = "<p><a href=\"/\" data-user_id=\"4711\">me</a></p>\
                <div><a class=\"logout\" data-csrf_token=\"csrf\">out</a></div>";
    let page = Page::parse(html).unwrap();
    assert_eq!(scrape_csrf_token_and_user_id(&page), Ok(("csrf", "4711")));
}

#[test]
fn parse_lists_the_elements_in_the_order_of_the_document() {
    let html = "<a data-csrf_token=\"first\">1</a><div><a data-csrf_token=\"second\">2</a></div>\
                <a data-csrf_token=\"third\" data-user_id=\"7\">3</a><a data-user_id=\"8\">4</a>";
    let page = Page::parse(html).unwrap();
    assert_eq!(page.csrf_tokens, found(&[Some("first"), Some("second"), Some("third")]));
    assert_eq!(page.user_ids, found(&[Some("7"), Some("8")]));
    assert_eq!(scrape_csrf_token_and_user_id(&page), Ok(("first", "7")));
}

#[test]
fn parse_takes_any_element_that_carries_the_attribute() {
    let html = "<div data-csrf_token=\"csrf\" data-user_id=\"4711\"></div>";
    let page = Page::parse(html).unwrap();
    assert_eq!(page.csrf_tokens, found(&[Some("csrf")]));
    assert_eq!(page.user_ids, found(&[Some("4711")]));
    assert_eq!(scrape_csrf_token_and_user_id(&page), Ok(("csrf", "4711")));
    let page = Page::parse("<div data-csrf_token='c' data-user_id='u'></div>").unwrap();
    assert_eq!(scrape_csrf_token_and_user_id(&page), Ok(("c", "u")));
}

#[test]
fn parse_takes_the_first_carrier_whatever_element_it_is() {
    let html = "<span data-user_id=\"1\">a</span><a data-user_id=\"2\">b</a>\
                <form><input data-csrf_token=\"x\"><a data-csrf_token=\"y\">c</a></form>";
    let page = Page::parse(html).unwrap();
    assert_eq!(page.user_ids, found(&[Some("1"), Some("2")]));
    assert_eq!(page.csrf_tokens, found(&[Some("x"), Some("y")]));
    assert_eq!(scrape_csrf_token_and_user_id(&page), Ok(("x", "1")));
}

#[test]
fn parse_does_not_take_an_attribute_of_another_name() {
    let html = "<div data-csrf-token=\"csrf\" data-userid=\"4711\" csrf_token=\"x\"></div>";
    let page = Page::parse(html).unwrap();
    assert_eq!(page.csrf_tokens, found(&[]));
    assert_eq!(page.user_ids, found(&[]));
    assert_eq!(
        scrape_csrf_token_and_user_id(&page),
        Err(ExtractionError::MissingElement(Scraped::CsrfToken))
    );
}

#[test]
fn parse_does_not_read_a_page_beyond_the_limit() {
    let mut html = "<a data-csrf_token=\"csrf\" data-user_id=\"4711\">x</a>".to_string();
    let padding = MAX_PAGE_LENGTH + 1 - html.len();
    html.push_str(&" ".repeat(padding));
    assert_eq!(html.len(), MAX_PAGE_LENGTH + 1);
    assert_eq!(Page::parse(&html), Err(ExtractionError::PageTooLong));
}

#[test]
fn parse_takes_what_is_no_page_at_all() {
    let page = Page::parse("").unwrap();
    assert_eq!(page.csrf_tokens, found(&[]));
    assert_eq!(page.user_ids, found(&[]));
    let page = Page::parse("{\"error\": true} <a data-user_id='1'").unwrap();
    assert_eq!(page.csrf_tokens, found(&[]));
    assert_eq!(page.user_ids, found(&[]));
}

#[test]
fn parse_keeps_an_empty_value() {
    let page = Page::parse("<a data-csrf_token data-user_id=\"\">x</a>").unwrap();
    assert_eq!(scrape_csrf_token_and_user_id(&page), Ok(("", "")));
}

#[test]
fn a_page_without_the_token_misses_that_element() {
    let page = Page::parse("<a data-user_id=\"4711\">x</a>").unwrap();
    assert_eq!(
        scrape_csrf_token_and_user_id(&page),
        Err(ExtractionError::MissingElement(Scraped::CsrfToken))
    );
}

#[test]
fn a_page_without_the_user_id_misses_that_element() {
    let page = Page::parse("<a data-csrf_token=\"csrf\">x</a>").unwrap();
    assert_eq!(
        scrape_csrf_token_and_user_id(&page),
        Err(ExtractionError::MissingElement(Scraped::UserId))
    );
}

#[test]
fn the_first_element_decides_even_without_its_attribute() {
    let page = Page { csrf_tokens: found(&[None, Some("csrf")]), user_ids: found(&[Some("4711")]) };
    assert_eq!(
        scrape_csrf_token_and_user_id(&page),
        Err(ExtractionError::MissingAttribute(Scraped::CsrfToken))
    );
    let page = Page { csrf_tokens: found(&[Some("csrf")]), user_ids: found(&[None]) };
    assert_eq!(
        scrape_csrf_token_and_user_id(&page),
        Err(ExtractionError::MissingAttribute(Scraped::UserId))
    );
}

#[test]
fn the_token_is_looked_for_first() {
    let page = Page { csrf_tokens: found(&[]), user_ids: found(&[None]) };
    assert_eq!(
        scrape_csrf_token_and_user_id(&page),
        Err(ExtractionError::MissingElement(Scraped::CsrfToken))
    );
}

#[test]
fn scrape_first_takes_the_first_value() {
    assert_eq!(scrape_first(&found(&[Some("a"), Some("b")]), Scraped::UserId), Ok("a"));
    assert_eq!(
        scrape_first(&found(&[]), Scraped::UserId),
        Err(ExtractionError::MissingElement(Scraped::UserId))
    );
    assert_eq!(
        scrape_first(&found(&[None, Some("b")]), Scraped::CsrfToken),
        Err(ExtractionError::MissingAttribute(Scraped::CsrfToken))
    );
}
