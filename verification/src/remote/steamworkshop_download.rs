//! The scrape provider: a form is posted, and the page that comes back is
//! searched for a link to the item's archive.

use crate::pattern::{capture, captured_text, is_part_of, pattern_compiles};
use crate::remote::{FormField, ProviderError, ProviderOutcome};
use crate::text::{decimal_digits, decimal_string};
use vstd::prelude::*;

verus! {

/// Where the form is posted.
pub const ENDPOINT: &'static str = "http://steamworkshop.download/online/steamonline.php";

/// The application that the items belong to.
pub const APP_ID: &'static str = "281990";

/// How long to wait for the page, in milliseconds.
pub const READ_TIMEOUT_MS: u64 = 3000;

/// The pattern's part before the item identifier: the start of a link and
/// as little as possible after it.
pub const LINK_HEAD: &'static str = "http.*?";

/// The pattern's part after the item identifier.
pub const LINK_TAIL: &'static str = ".zip";

/// The form that asks for an item's download page.
pub fn request_form(item_id: u32) -> (form: Vec<FormField>)
    ensures
        form@.len() == 2,
        form@[0].holds("app"@, APP_ID@),
        form@[1].holds("item"@, decimal_digits(item_id as nat)),
{
    let mut form: Vec<FormField> = Vec::new();
    form.push(FormField { name: String::from_str("app"), value: String::from_str(APP_ID) });
    form.push(FormField { name: String::from_str("item"), value: decimal_string(item_id) });
    form
}

/// The pattern that a link to an item's archive matches.
pub open spec fn link_pattern_spec(item_id: u32) -> Seq<char> {
    LINK_HEAD@ + decimal_digits(item_id as nat) + LINK_TAIL@
}

/// The pattern that a link to an item's archive matches.
pub fn link_pattern(item_id: u32) -> (pattern: String)
    ensures
        pattern@ == link_pattern_spec(item_id),
{
    let mut pattern = String::from_str(LINK_HEAD);
    let id = decimal_string(item_id);
    pattern.append(id.as_str());
    pattern.append(LINK_TAIL);
    pattern
}

/// The link that a page holds for an item: the leftmost text that the
/// item's link pattern matches.
pub open spec fn link_in_page(item_id: u32, page: Seq<char>) -> Option<Seq<char>> {
    if pattern_compiles(link_pattern_spec(item_id)) {
        captured_text(link_pattern_spec(item_id), page, 0)
    } else {
        None
    }
}

/// Turns what the search found into the provider's result: the link that
/// was found, or the failure that none was.
pub fn link_from_match(found: Option<String>) -> (r: Result<String, ProviderError>)
    ensures
        match found {
            Some(link) => r == Ok::<String, ProviderError>(link),
            None => r == Err::<String, ProviderError>(ProviderError::LinkNotFound),
        },
{
    match found {
        Some(link) => Ok(link),
        None => Err(ProviderError::LinkNotFound),
    }
}

/// Searches a page for the link to an item's archive.
pub fn find_link(item_id: u32, page: &str) -> (r: Result<String, ProviderError>)
    ensures
        match r {
            Ok(link) => link_in_page(item_id, page@) == Some(link@) && is_part_of(link@, page@),
            Err(e) => link_in_page(item_id, page@) is None && e == ProviderError::LinkNotFound,
        },
{
    let pattern = link_pattern(item_id);
    match capture(pattern.as_str(), page, 0) {
        Ok(found) => link_from_match(found),
        Err(_) => Err(ProviderError::LinkNotFound),
    }
}

/// What the provider's attempt comes to, given the page that the request
/// brought or the reason why it brought none.
pub fn outcome(item_id: u32, page: Result<String, ProviderError>) -> (r: ProviderOutcome)
    ensures
        match page {
            Ok(text) => match link_in_page(item_id, text@) {
                Some(link) => r matches ProviderOutcome::DirectLink(url) && url@ == link
                    && is_part_of(link, text@),
                None => r == ProviderOutcome::Failure(ProviderError::LinkNotFound),
            },
            Err(e) => r == ProviderOutcome::Failure(e),
        },
{
    match page {
        Ok(text) => match find_link(item_id, text.as_str()) {
            Ok(link) => ProviderOutcome::DirectLink(link),
            Err(e) => ProviderOutcome::Failure(e),
        },
        Err(e) => ProviderOutcome::Failure(e),
    }
}

} // verus!
