//! The metadata service: the request that asks for one item's details, and
//! the choice of the record to use from its answer.

use crate::remote::FormField;
use crate::text::{decimal_digits, decimal_string};
use vstd::prelude::*;

verus! {

/// Where the details of published files are asked for.
pub const DETAILS_ENDPOINT: &'static str =
    "https://api.steampowered.com/ISteamRemoteStorage/GetPublishedFileDetails/v1/";

/// The details of one published item.
#[derive(Clone, Debug, PartialEq, Eq)]
pub struct WorkshopItemInfo {
    pub file_url: String,
    pub title: String,
    pub file_size: usize,
}

/// The list of item details inside an answer.
#[derive(Clone, Debug, PartialEq, Eq)]
pub struct WorkshopItemInfoResponse {
    pub publishedfiledetails: Vec<WorkshopItemInfo>,
}

/// A whole answer of the metadata service.
#[derive(Clone, Debug, PartialEq, Eq)]
pub struct WorkshopItemInfoResponseList {
    pub response: WorkshopItemInfoResponse,
}

/// The metadata service gave no usable record for the item.
#[derive(Clone, Copy, Debug, PartialEq, Eq, Structural)]
pub enum MetadataUnavailable {
    /// No answer came, or it could not be read as a list of details.
    Malformed,
    /// The answer lists no item.
    NoResults,
}

/// The form that asks for the details of exactly one item.
pub fn details_form(item_id: u32) -> (form: Vec<FormField>)
    ensures
        form@.len() == 2,
        form@[0].holds("itemcount"@, "1"@),
        form@[1].holds("publishedfileids[0]"@, decimal_digits(item_id as nat)),
{
    let mut form: Vec<FormField> = Vec::new();
    form.push(FormField { name: String::from_str("itemcount"), value: String::from_str("1") });
    form.push(
        FormField {
            name: String::from_str("publishedfileids[0]"),
            value: decimal_string(item_id),
        },
    );
    form
}

/// The record to use from a decoded answer: its last entry.
pub open spec fn selected_item(decoded: Option<WorkshopItemInfoResponseList>) -> Result<
    WorkshopItemInfo,
    MetadataUnavailable,
> {
    match decoded {
        None => Err(MetadataUnavailable::Malformed),
        Some(list) => if list.response.publishedfiledetails@.len() == 0 {
            Err(MetadataUnavailable::NoResults)
        } else {
            Ok(list.response.publishedfiledetails@.last())
        },
    }
}

/// Picks the item's record out of the service's answer. `decoded` is `None`
/// where no answer came or it could not be decoded.
pub fn select_item_info(decoded: Option<WorkshopItemInfoResponseList>) -> (r: Result<
    WorkshopItemInfo,
    MetadataUnavailable,
>)
    ensures
        r == selected_item(decoded),
{
    match decoded {
        None => Err(MetadataUnavailable::Malformed),
        Some(list) => {
            let mut details = list.response.publishedfiledetails;
            match details.pop() {
                Some(info) => Ok(info),
                None => Err(MetadataUnavailable::NoResults),
            }
        },
    }
}

} // verus!
