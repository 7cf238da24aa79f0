use sgmm::item_id::{parse_item_id, InputError};
use sgmm::text::{decimal_string, parse_u32};

#[test]
fn bare_number_is_the_id() {
    assert_eq!(parse_item_id("999"), Ok(999));
}

#[test]
fn workshop_url_gives_the_same_id() {
    assert_eq!(
        parse_item_id("https://steamcommunity.com/sharedfiles/filedetails/?id=999"),
        Ok(999)
    );
    assert_eq!(
        parse_item_id("https://steamcommunity.com/sharedfiles/filedetails/?id=999"),
        parse_item_id("999")
    );
}

#[test]
fn url_with_trailing_query_is_accepted() {
    assert_eq!(
        parse_item_id("https://steamcommunity.com/sharedfiles/filedetails/?id=1234567890&searchtext=x"),
        Ok(1234567890)
    );
}

#[test]
fn text_without_id_is_rejected() {
    assert_eq!(parse_item_id("not a mod"), Err(InputError::NoItemId));
    assert_eq!(parse_item_id(""), Err(InputError::NoItemId));
    assert_eq!(
        parse_item_id("https://steamcommunity.com/sharedfiles/filedetails/?id="),
        Err(InputError::NoItemId)
    );
}

#[test]
fn url_id_beyond_32_bits_is_rejected() {
    assert_eq!(
        parse_item_id("https://steamcommunity.com/sharedfiles/filedetails/?id=4294967296"),
        Err(InputError::InvalidItemId)
    );
}

#[test]
fn decimal_bounds() {
    assert_eq!(parse_u32("0"), Some(0));
    assert_eq!(parse_u32("4294967295"), Some(u32::MAX));
    assert_eq!(parse_u32("4294967296"), None);
    assert_eq!(parse_u32("+17"), Some(17));
    assert_eq!(parse_u32("007"), Some(7));
    assert_eq!(parse_u32("+"), None);
    assert_eq!(parse_u32("-1"), None);
    assert_eq!(parse_u32(" 1"), None);
    assert_eq!(parse_u32("1a"), None);
}

#[test]
fn decimal_text_reads_back() {
    for n in [0u32, 7, 10, 99, 100, 281990, 4294967295] {
        assert_eq!(decimal_string(n), n.to_string());
        assert_eq!(parse_u32(&decimal_string(n)), Some(n));
    }
}

#[test]
fn zero_is_no_item_id() {
    assert_eq!(parse_item_id("0"), Err(InputError::InvalidItemId));
    assert_eq!(parse_item_id("+0"), Err(InputError::InvalidItemId));
    assert_eq!(parse_item_id("000"), Err(InputError::InvalidItemId));
    assert_eq!(
        parse_item_id("https://steamcommunity.com/sharedfiles/filedetails/?id=0"),
        Err(InputError::InvalidItemId)
    );
    assert_eq!(
        parse_item_id("https://steamcommunity.com/sharedfiles/filedetails/?id=000"),
        Err(InputError::InvalidItemId)
    );
}

#[test]
fn smallest_and_largest_ids_are_accepted() {
    assert_eq!(parse_item_id("1"), Ok(1));
    assert_eq!(parse_item_id("001"), Ok(1));
    assert_eq!(parse_item_id("4294967295"), Ok(u32::MAX));
    assert_eq!(
        parse_item_id("https://steamcommunity.com/sharedfiles/filedetails/?id=1"),
        Ok(1)
    );
    assert_eq!(
        parse_item_id("https://steamcommunity.com/sharedfiles/filedetails/?id=4294967295"),
        Ok(u32::MAX)
    );
}

#[test]
fn every_accepted_id_is_positive() {
    for text in ["0", "1", "+0", "+5", "00", "x", "", "999"] {
        if let Ok(id) = parse_item_id(text) {
            assert!(id >= 1);
        }
    }
}
