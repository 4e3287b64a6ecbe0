use giphy_batch::error::Error;
use giphy_batch::item::Item;
use giphy_batch::item::Owner;
use giphy_batch::item::Rendition;
use giphy_batch::item::UrlField;
use giphy_batch::locate::locate;
use giphy_batch::paginate::seed_url;
use giphy_batch::plan::plan;
use giphy_batch::resume::asset_status;
use giphy_batch::status::status_is_success;
use giphy_batch::text::find_char;
use giphy_batch::text::rfind_char;
use giphy_batch::text::strip_char;
use giphy_batch::text::u64_to_dec;
use giphy_batch::text::u64_to_dec12;

fn sample_item(created_at: &str, url_field: UrlField) -> Item {
    Item {
        id: "gif1".to_string(),
        sequence_index: 42,
        renditions: vec![Rendition { name: "source".to_string(), url: url_field }],
        title: "a title".to_string(),
        owner: Owner {
            id: 9,
            name: "Bea Example".to_string(),
            username: "bea".to_string(),
        },
        created_at: created_at.to_string(),
    }
}

#[test]
fn decimal_rendering_is_exact() {
    assert_eq!(u64_to_dec(0), "0");
    assert_eq!(u64_to_dec(7), "7");
    assert_eq!(u64_to_dec(1234567890), "1234567890");
    assert_eq!(u64_to_dec(u64::MAX), "18446744073709551615");
}

#[test]
fn padded_rendering_is_exact() {
    assert_eq!(u64_to_dec12(0), "000000000000");
    assert_eq!(u64_to_dec12(42), "000000000042");
    assert_eq!(u64_to_dec12(999999999999), "999999999999");
    assert_eq!(u64_to_dec12(1234567890123), "1234567890123");
}

#[test]
fn character_search_is_exact() {
    assert_eq!(rfind_char("a.b.c", '.'), Some(3));
    assert_eq!(rfind_char("abc", '.'), None);
    assert_eq!(rfind_char("", '.'), None);
    assert_eq!(find_char("2021-03-04T05:06:07", 'T'), Some(10));
    assert_eq!(find_char("2021-03-04", 'T'), None);
}

#[test]
fn dash_removal_is_exact() {
    assert_eq!(strip_char("2021-03-04", '-'), "20210304");
    assert_eq!(strip_char("----", '-'), "");
    assert_eq!(strip_char("20210304", '-'), "20210304");
}

#[test]
fn status_classification_is_exact() {
    assert!(status_is_success(200));
    assert!(status_is_success(204));
    assert!(status_is_success(299));
    assert!(!status_is_success(199));
    assert!(!status_is_success(300));
    assert!(!status_is_success(404));
    assert!(!status_is_success(500));
}

#[test]
fn asset_status_classifies_the_answer() {
    let url = "http://h/a.mp4".to_string();
    assert!(asset_status(&url, 200).is_ok());
    match asset_status(&url, 503) {
        Err(Error::ResponseStatus { code, url }) => {
            assert_eq!(code, 503);
            assert_eq!(url, "http://h/a.mp4");
        },
        _ => panic!("a 503 fails the item"),
    }
}

#[test]
fn seed_url_is_exact() {
    assert_eq!(seed_url(0), "https://giphy.com/api/v4/channels/0/feed");
    assert_eq!(seed_url(987654), "https://giphy.com/api/v4/channels/987654/feed");
}

#[test]
fn locate_extracts_url_and_extension() {
    let item = sample_item("2021-03-04T05:06:07", UrlField::Url("http://h/a.mp4".to_string()));
    let (url, ext) = locate(&item).ok().unwrap();
    assert_eq!(url, "http://h/a.mp4");
    assert_eq!(ext, "mp4");
}

#[test]
fn locate_rejects_url_without_dot() {
    let item = sample_item("2021-03-04T05:06:07", UrlField::Url("http://h/nodot".to_string()));
    match locate(&item) {
        Err(Error::MissingSourceAsset { item_id }) => assert_eq!(item_id, "gif1"),
        _ => panic!("a dotless URL has no extension"),
    }
}

#[test]
fn locate_rejects_non_string_url_entry() {
    let item = sample_item("2021-03-04T05:06:07", UrlField::WrongType);
    assert!(matches!(locate(&item), Err(Error::MissingSourceAsset { .. })));
    let item = sample_item("2021-03-04T05:06:07", UrlField::Absent);
    assert!(matches!(locate(&item), Err(Error::MissingSourceAsset { .. })));
}

#[test]
fn plan_builds_the_destination_layout() {
    let item = sample_item("2021-03-04T05:06:07", UrlField::Url("http://h/a.mp4".to_string()));
    let p = plan(&item, "base", "mp4").ok().unwrap();
    assert_eq!(p.dir, "base/bea");
    assert_eq!(p.file, "20210304_bea_000000000042_gif1.mp4");
    assert_eq!(p.path, "base/bea/20210304_bea_000000000042_gif1.mp4");
}

#[test]
fn plan_rejects_timestamp_without_t() {
    let item = sample_item("2021-03-04 05:06:07", UrlField::Url("http://h/a.mp4".to_string()));
    match plan(&item, "base", "mp4") {
        Err(Error::InvalidTimestamp { item_id, raw }) => {
            assert_eq!(item_id, "gif1");
            assert_eq!(raw, "2021-03-04 05:06:07");
        },
        _ => panic!("a timestamp without T has no date part"),
    }
}

#[test]
fn error_messages_are_exact() {
    let e = Error::ResponseStatus { code: 404, url: "http://h/x".to_string() };
    assert_eq!(e.message(), "Received response error status 404 for url http://h/x");
    assert_eq!(Error::Decode.message(), "Failed to decode page response");
    let e = Error::MissingSourceAsset { item_id: "gif1".to_string() };
    assert_eq!(e.message(), "No source video found");
    let e = Error::InvalidTimestamp { item_id: "gif1".to_string(), raw: "zzz".to_string() };
    assert_eq!(e.message(), "Invalid date zzz");
    let e = Error::Transport { detail: "connection reset".to_string() };
    assert_eq!(e.message(), "connection reset");
    let e = Error::Io { detail: "permission denied".to_string() };
    assert_eq!(e.message(), "permission denied");
}
