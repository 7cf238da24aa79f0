//! The ticket provider: asked to prepare a download, it answers with a
//! ticket that is then exchanged for the archive.

use crate::remote::{ProviderError, ProviderOutcome};
use crate::text::{decimal_digits, decimal_string};
use vstd::prelude::*;

verus! {

/// The root of the ticket service.
pub const BASE_URL: &'static str = "https://api.steamworkshopdownloader.io/api/";

/// The path, below the root, that download requests are posted to.
pub const REQUEST_PATH: &'static str = "download/request";

/// The path and query, below the root, that a ticket is redeemed at.
pub const TRANSMIT_PATH: &'static str = "download/transmit?uuid=";

/// The request body up to the item identifier.
pub const BODY_HEAD: &'static str = "{\"publishedFileId\":";

/// The request body after the item identifier. The service is asked not to
/// unpack the archive on its side.
pub const BODY_TAIL: &'static str =
    ",\"collectionId\":null,\"extract\":false,\"hidden\":false,\"direct\":false,\"autodownload\":true}";

/// The answer to a download request.
#[derive(Clone, Debug, PartialEq, Eq)]
pub struct DownloadRequestResponse {
    pub uuid: String,
}

/// Where a download request is posted.
pub open spec fn request_url_spec() -> Seq<char> {
    BASE_URL@ + REQUEST_PATH@
}

/// The body of the download request for an item.
pub open spec fn request_body_spec(item_id: u32) -> Seq<char> {
    BODY_HEAD@ + decimal_digits(item_id as nat) + BODY_TAIL@
}

/// Where the archive behind a ticket is fetched from.
pub open spec fn transmit_url_spec(uuid: Seq<char>) -> Seq<char> {
    BASE_URL@ + TRANSMIT_PATH@ + uuid
}

/// Where a download request is posted.
pub fn request_url() -> (url: String)
    ensures
        url@ == request_url_spec(),
{
    let mut url = String::from_str(BASE_URL);
    url.append(REQUEST_PATH);
    url
}

/// The JSON body of the download request for an item.
pub fn request_body(item_id: u32) -> (body: String)
    ensures
        body@ == request_body_spec(item_id),
{
    let mut body = String::from_str(BODY_HEAD);
    let id = decimal_string(item_id);
    body.append(id.as_str());
    body.append(BODY_TAIL);
    body
}

/// The download link that a ticket is exchanged for.
pub fn transmit_url(uuid: &str) -> (url: String)
    ensures
        url@ == transmit_url_spec(uuid@),
{
    let mut url = String::from_str(BASE_URL);
    url.append(TRANSMIT_PATH);
    url.append(uuid);
    url
}

/// What the provider's attempt comes to, given the decoded answer or the
/// reason why there is none.
pub fn outcome(answer: Result<DownloadRequestResponse, ProviderError>) -> (r: ProviderOutcome)
    ensures
        match answer {
            Ok(ticket) => r == ProviderOutcome::TransferTicket(ticket.uuid),
            Err(e) => r == ProviderOutcome::Failure(e),
        },
{
    match answer {
        Ok(ticket) => ProviderOutcome::TransferTicket(ticket.uuid),
        Err(e) => ProviderOutcome::Failure(e),
    }
}

} // verus!
