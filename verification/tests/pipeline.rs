use giphy_batch::dispatch::Dispatcher;
use giphy_batch::error::Error;
use giphy_batch::item::Item;
use giphy_batch::item::Owner;
use giphy_batch::item::Page;
use giphy_batch::item::Rendition;
use giphy_batch::item::UrlField;
use giphy_batch::outcome::DownloadOutcome;
use giphy_batch::outcome::OutcomeKind;
use giphy_batch::outcome::report;
use giphy_batch::paginate::FetchRun;
use giphy_batch::paginate::PageFetch;
use giphy_batch::paginate::Paginator;
use giphy_batch::paginate::fetch_all_from;
use giphy_batch::paginate::seed_url;
use giphy_batch::plan::prepare;
use giphy_batch::resume::Transfer;
use giphy_batch::resume::transfer_decision;

fn owner() -> Owner {
    Owner { id: 7, name: "Ann Example".to_string(), username: "ann".to_string() }
}

fn item_with_url(id: &str, idx: u64, url: &str) -> Item {
    Item {
        id: id.to_string(),
        sequence_index: idx,
        renditions: vec![
            Rendition { name: "thumb".to_string(), url: UrlField::Absent },
            Rendition { name: "source".to_string(), url: UrlField::Url(url.to_string()) },
        ],
        title: "a title".to_string(),
        owner: owner(),
        created_at: "2021-03-04T05:06:07".to_string(),
    }
}

fn item_without_source(id: &str, idx: u64) -> Item {
    Item {
        id: id.to_string(),
        sequence_index: idx,
        renditions: vec![Rendition { name: "thumb".to_string(), url: UrlField::Absent }],
        title: "a title".to_string(),
        owner: owner(),
        created_at: "2021-03-04T05:06:07".to_string(),
    }
}

#[test]
fn one_page_three_items_all_resolve() {
    let items = vec![
        item_with_url("a1", 1, "http://h/a.mp4"),
        item_with_url("b2", 2, "http://h/b.gif"),
        item_with_url("c3", 3, "http://h/c.mp4"),
    ];
    let page = Page { next: None, items };
    let (run, requests) = fetch_all_from(
        "http://feed/seed".to_string(),
        vec![PageFetch::Response { status: 200, page: Some(page) }],
    );
    assert_eq!(requests, 1);
    let items = match run {
        FetchRun::Done(v) => v,
        _ => panic!("pagination failed"),
    };
    assert_eq!(items.len(), 3);
    let mut outcomes = Vec::new();
    for it in &items {
        let p = match prepare(it, "dir") {
            Ok(p) => p,
            Err(_) => panic!("item should resolve"),
        };
        assert!(p.dir.starts_with("dir/ann"));
        assert!(matches!(transfer_decision(false), Transfer::Download));
        outcomes.push(DownloadOutcome { item_id: it.id.clone(), kind: OutcomeKind::Success });
    }
    assert!(report(&outcomes).is_empty());
    let p = prepare(&items[0], "dir").ok().unwrap();
    assert_eq!(p.source_url, "http://h/a.mp4");
    assert_eq!(p.dir, "dir/ann");
    assert_eq!(p.path, "dir/ann/20210304_ann_000000000001_a1.mp4");
    let p = prepare(&items[1], "dir").ok().unwrap();
    assert_eq!(p.path, "dir/ann/20210304_ann_000000000002_b2.gif");
}

#[test]
fn two_pages_chain_returns_eight_items() {
    let first: Vec<Item> =
        (0..5).map(|i| item_with_url(&format!("i{}", i), i, "http://h/x.mp4")).collect();
    let second: Vec<Item> =
        (5..8).map(|i| item_with_url(&format!("i{}", i), i, "http://h/x.mp4")).collect();
    let responses = vec![
        PageFetch::Response {
            status: 200,
            page: Some(Page { next: Some("http://feed/page2".to_string()), items: first }),
        },
        PageFetch::Response { status: 200, page: Some(Page { next: None, items: second }) },
    ];
    let (run, requests) = fetch_all_from("http://feed/seed".to_string(), responses);
    assert_eq!(requests, 2);
    match run {
        FetchRun::Done(v) => {
            assert_eq!(v.len(), 8);
            assert_eq!(v[0].id, "i0");
            assert_eq!(v[7].id, "i7");
        },
        _ => panic!("pagination failed"),
    }
}

#[test]
fn missing_source_is_isolated_per_item() {
    let batch = vec![
        item_with_url("a", 1, "http://h/a.mp4"),
        item_without_source("b", 2),
        item_with_url("c", 3, "http://h/c.mp4"),
    ];
    let mut outcomes = Vec::new();
    for it in &batch {
        match prepare(it, "dir") {
            Ok(_) => outcomes.push(DownloadOutcome {
                item_id: it.id.clone(),
                kind: OutcomeKind::Success,
            }),
            Err(e) => outcomes.push(DownloadOutcome {
                item_id: it.id.clone(),
                kind: OutcomeKind::Failed(e),
            }),
        }
    }
    assert!(matches!(outcomes[0].kind, OutcomeKind::Success));
    match &outcomes[1].kind {
        OutcomeKind::Failed(Error::MissingSourceAsset { item_id }) => assert_eq!(item_id, "b"),
        _ => panic!("item b should fail with a missing source"),
    }
    assert!(matches!(outcomes[2].kind, OutcomeKind::Success));
    let lines = report(&outcomes);
    assert_eq!(
        lines,
        vec!["Failed to download id: b".to_string(), "  No source video found".to_string()]
    );
}

#[test]
fn present_file_is_skipped() {
    assert!(matches!(transfer_decision(true), Transfer::Skip));
    let outcomes =
        vec![DownloadOutcome { item_id: "a".to_string(), kind: OutcomeKind::Skipped }];
    assert!(report(&outcomes).is_empty());
}

#[test]
fn second_run_fetches_nothing() {
    let batch = vec![
        item_with_url("a", 1, "http://h/a.mp4"),
        item_without_source("b", 2),
        item_with_url("c", 3, "http://h/c.gif"),
    ];
    let mut present: Vec<String> = Vec::new();
    let mut fetches_per_run = Vec::new();
    for _ in 0..2 {
        let mut fetches = 0;
        for it in &batch {
            if let Ok(p) = prepare(it, "dir") {
                match transfer_decision(present.contains(&p.path)) {
                    Transfer::Skip => {},
                    Transfer::Download => {
                        fetches += 1;
                        present.push(p.path);
                    },
                }
            }
        }
        fetches_per_run.push(fetches);
    }
    assert_eq!(fetches_per_run, vec![2, 0]);
    assert_eq!(present.len(), 2);
}

#[test]
fn http_500_terminates_the_run() {
    let unreached = PageFetch::Response {
        status: 200,
        page: Some(Page { next: None, items: vec![item_with_url("z", 9, "http://h/z.mp4")] }),
    };
    let (run, requests) = fetch_all_from(
        seed_url(42),
        vec![PageFetch::Response { status: 500, page: None }, unreached],
    );
    assert_eq!(requests, 1);
    match run {
        FetchRun::Failed(Error::ResponseStatus { code, url }) => {
            assert_eq!(code, 500);
            assert_eq!(url, "https://giphy.com/api/v4/channels/42/feed");
        },
        _ => panic!("the run should fail on the status"),
    }
}

#[test]
fn decode_failure_terminates_the_run() {
    let (run, requests) = fetch_all_from(
        "http://feed/seed".to_string(),
        vec![PageFetch::Response { status: 200, page: None }],
    );
    assert_eq!(requests, 1);
    assert!(matches!(run, FetchRun::Failed(Error::Decode)));
}

#[test]
fn transport_failure_terminates_the_run() {
    let (run, requests) = fetch_all_from(
        "http://feed/seed".to_string(),
        vec![PageFetch::Transport { detail: "connection reset".to_string() }],
    );
    assert_eq!(requests, 1);
    match run {
        FetchRun::Failed(Error::Transport { detail }) => assert_eq!(detail, "connection reset"),
        _ => panic!("the run should fail on transport"),
    }
}

#[test]
fn exhausted_answers_end_without_outcome() {
    let (run, requests) = fetch_all_from("http://feed/seed".to_string(), Vec::new());
    assert_eq!(requests, 0);
    assert!(matches!(run, FetchRun::Exhausted));
}

#[test]
fn paginator_follows_the_cursor() {
    let mut pag = Paginator::new(seed_url(1));
    assert_eq!(pag.current_url().as_str(), "https://giphy.com/api/v4/channels/1/feed");
    assert!(pag.check_status(200).is_ok());
    match pag.check_status(404) {
        Err(Error::ResponseStatus { code, url }) => {
            assert_eq!(code, 404);
            assert_eq!(url, "https://giphy.com/api/v4/channels/1/feed");
        },
        _ => panic!("a 404 refuses the page"),
    }
    let done = pag.accept_page(Page {
        next: Some("http://feed/page2".to_string()),
        items: vec![item_with_url("a", 1, "http://h/a.mp4")],
    });
    assert!(!done);
    assert_eq!(pag.current_url().as_str(), "http://feed/page2");
    let done = pag.accept_page(Page { next: None, items: vec![] });
    assert!(done);
    let items = pag.into_items();
    assert_eq!(items.len(), 1);
    assert_eq!(items[0].id, "a");
}

#[test]
fn dispatcher_caps_in_flight_at_twenty() {
    let mut d = Dispatcher::new(25);
    let mut handed = Vec::new();
    while let Some(i) = d.try_launch() {
        handed.push(i);
    }
    assert_eq!(handed, (0..20).collect::<Vec<usize>>());
    d.complete();
    assert_eq!(d.try_launch(), Some(20));
    assert_eq!(d.try_launch(), None);
    for _ in 0..20 {
        d.complete();
    }
    assert_eq!(d.try_launch(), Some(21));
    assert_eq!(d.try_launch(), Some(22));
    assert_eq!(d.try_launch(), Some(23));
    assert_eq!(d.try_launch(), Some(24));
    assert_eq!(d.try_launch(), None);
    assert!(!d.done());
    for _ in 0..4 {
        d.complete();
    }
    assert!(d.done());
}
