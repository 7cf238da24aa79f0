use sgmm::remote::steam::{
    details_form, select_item_info, MetadataUnavailable, WorkshopItemInfo,
    WorkshopItemInfoResponse, WorkshopItemInfoResponseList, DETAILS_ENDPOINT,
};
use sgmm::remote::steamworkshop_download;
use sgmm::remote::steamworkshopdownloader_io::{
    self as ticket_service, DownloadRequestResponse,
};
use sgmm::remote::{
    download_link, ExhaustedProviders, FormField, ProviderChain, ProviderError, ProviderKind,
    ProviderOutcome,
};

fn field(name: &str, value: &str) -> FormField {
    FormField { name: name.to_string(), value: value.to_string() }
}

fn info(title: &str) -> WorkshopItemInfo {
    WorkshopItemInfo {
        file_url: format!("https://cdn.example/{}", title),
        title: title.to_string(),
        file_size: 42,
    }
}

#[test]
fn details_form_asks_for_one_item() {
    assert_eq!(
        details_form(1234567890),
        vec![field("itemcount", "1"), field("publishedfileids[0]", "1234567890")]
    );
    assert_eq!(
        DETAILS_ENDPOINT,
        "https://api.steampowered.com/ISteamRemoteStorage/GetPublishedFileDetails/v1/"
    );
}

#[test]
fn last_listed_item_is_selected() {
    let list = WorkshopItemInfoResponseList {
        response: WorkshopItemInfoResponse {
            publishedfiledetails: vec![info("first"), info("second")],
        },
    };
    assert_eq!(select_item_info(Some(list)), Ok(info("second")));
}

#[test]
fn empty_list_is_no_metadata() {
    let list = WorkshopItemInfoResponseList {
        response: WorkshopItemInfoResponse { publishedfiledetails: Vec::new() },
    };
    assert_eq!(select_item_info(Some(list)), Err(MetadataUnavailable::NoResults));
}

#[test]
fn undecoded_answer_is_no_metadata() {
    assert_eq!(select_item_info(None), Err(MetadataUnavailable::Malformed));
}

#[test]
fn scrape_form_names_app_and_item() {
    assert_eq!(
        steamworkshop_download::request_form(999),
        vec![field("app", "281990"), field("item", "999")]
    );
    assert_eq!(steamworkshop_download::READ_TIMEOUT_MS, 3000);
    assert_eq!(
        steamworkshop_download::ENDPOINT,
        "http://steamworkshop.download/online/steamonline.php"
    );
}

#[test]
fn link_pattern_holds_the_id() {
    assert_eq!(steamworkshop_download::link_pattern(999), "http.*?999.zip");
    assert_eq!(steamworkshop_download::link_pattern(0), "http.*?0.zip");
}

#[test]
fn link_is_found_in_page() {
    let page = "<a href='http://cdn.example/d/999.zip'>Download</a> http://other/1.zip";
    assert_eq!(
        steamworkshop_download::find_link(999, page),
        Ok("http://cdn.example/d/999.zip".to_string())
    );
}

#[test]
fn link_search_is_leftmost_and_short() {
    let page = "see http://a/999.zip and http://b/999.zip";
    assert_eq!(
        steamworkshop_download::find_link(999, page),
        Ok("http://a/999.zip".to_string())
    );
}

#[test]
fn page_without_link_is_a_provider_failure() {
    assert_eq!(
        steamworkshop_download::find_link(999, "no such file"),
        Err(ProviderError::LinkNotFound)
    );
    assert_eq!(steamworkshop_download::find_link(999, ""), Err(ProviderError::LinkNotFound));
    assert_eq!(
        steamworkshop_download::find_link(999, "http://cdn.example/d/998.zip"),
        Err(ProviderError::LinkNotFound)
    );
}

#[test]
fn link_from_match_keeps_the_match() {
    assert_eq!(
        steamworkshop_download::link_from_match(Some("http://x/1.zip".to_string())),
        Ok("http://x/1.zip".to_string())
    );
    assert_eq!(
        steamworkshop_download::link_from_match(None),
        Err(ProviderError::LinkNotFound)
    );
}

#[test]
fn scrape_outcome_is_a_direct_link_or_a_failure() {
    assert_eq!(
        steamworkshop_download::outcome(7, Ok("go to https://h/7.zip now".to_string())),
        ProviderOutcome::DirectLink("https://h/7.zip".to_string())
    );
    assert_eq!(
        steamworkshop_download::outcome(7, Ok("nothing here".to_string())),
        ProviderOutcome::Failure(ProviderError::LinkNotFound)
    );
    assert_eq!(
        steamworkshop_download::outcome(7, Err(ProviderError::Transport)),
        ProviderOutcome::Failure(ProviderError::Transport)
    );
}

#[test]
fn ticket_request_is_exact() {
    assert_eq!(
        ticket_service::request_url(),
        "https://api.steamworkshopdownloader.io/api/download/request"
    );
    assert_eq!(
        ticket_service::request_body(123),
        "{\"publishedFileId\":123,\"collectionId\":null,\"extract\":false,\"hidden\":false,\"direct\":false,\"autodownload\":true}"
    );
}

#[test]
fn ticket_is_put_into_the_transmit_url() {
    assert_eq!(
        ticket_service::transmit_url("abc-123"),
        "https://api.steamworkshopdownloader.io/api/download/transmit?uuid=abc-123"
    );
}

#[test]
fn ticket_outcome_is_a_ticket_or_a_failure() {
    assert_eq!(
        ticket_service::outcome(Ok(DownloadRequestResponse { uuid: "u-1".to_string() })),
        ProviderOutcome::TransferTicket("u-1".to_string())
    );
    assert_eq!(
        ticket_service::outcome(Err(ProviderError::MalformedResponse)),
        ProviderOutcome::Failure(ProviderError::MalformedResponse)
    );
}

#[test]
fn download_link_of_each_outcome() {
    assert_eq!(
        download_link(ProviderOutcome::DirectLink("http://x/1.zip".to_string())),
        Some("http://x/1.zip".to_string())
    );
    assert_eq!(
        download_link(ProviderOutcome::TransferTicket("t".to_string())),
        Some("https://api.steamworkshopdownloader.io/api/download/transmit?uuid=t".to_string())
    );
    assert_eq!(download_link(ProviderOutcome::Failure(ProviderError::Transport)), None);
}

#[test]
fn scrape_provider_is_tried_first() {
    let chain = ProviderChain::new();
    assert_eq!(chain.pending(), Some(ProviderKind::Scrape));
    assert_eq!(chain.resolution(), None);
}

#[test]
fn first_link_ends_the_search() {
    let chain =
        ProviderChain::new().record(ProviderOutcome::DirectLink("http://a/5.zip".to_string()));
    assert_eq!(chain.pending(), None);
    let later = chain.record(ProviderOutcome::TransferTicket("ignored".to_string()));
    assert_eq!(later.resolution(), Some(Ok("http://a/5.zip".to_string())));
}

#[test]
fn failed_first_provider_falls_back_to_the_second() {
    let chain = ProviderChain::new().record(ProviderOutcome::Failure(ProviderError::Transport));
    assert_eq!(chain.pending(), Some(ProviderKind::Ticket));
    let chain = chain.record(ProviderOutcome::TransferTicket("abc".to_string()));
    assert_eq!(
        chain.resolution(),
        Some(Ok("https://api.steamworkshopdownloader.io/api/download/transmit?uuid=abc".to_string()))
    );
}

#[test]
fn all_providers_failing_exhausts_the_chain() {
    let chain = ProviderChain::new()
        .record(ProviderOutcome::Failure(ProviderError::LinkNotFound))
        .record(ProviderOutcome::Failure(ProviderError::MalformedResponse));
    assert_eq!(chain, ProviderChain::Exhausted);
    assert_eq!(chain.pending(), None);
    let chain = chain.record(ProviderOutcome::DirectLink("late".to_string()));
    assert_eq!(chain.resolution(), Some(Err(ExhaustedProviders)));
}
