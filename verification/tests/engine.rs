use std::cell::Cell;

use crunchyroll_rs::cursor::{Cursor, Phase};
use crunchyroll_rs::error::Error;
use crunchyroll_rs::facet::{BulkEnvelope, Envelope, Facet, FacetEntry, PageResult};
use crunchyroll_rs::locale::Locale;
use crunchyroll_rs::pagination::{Pagination, DEFAULT_PAGE_SIZE};
use crunchyroll_rs::request::{decimal_string, FetchStrategy, Request};

fn pair(key: &str, value: &str) -> (String, String) {
    (key.to_string(), value.to_string())
}

fn param(request: &Request, key: &str) -> usize {
    let found = request.query.iter().find(|(k, _)| k == key);
    match found {
        Some((_, value)) => value.parse().unwrap(),
        None => panic!("the request has no parameter {}", key),
    }
}

/// Answers as a source that holds `items` and reports `total`.
fn slice_of(items: &[u32], total: u32, request: &Request) -> Result<Envelope<u32>, Error> {
    let start = param(request, "start").min(items.len());
    let end = (start + param(request, "n")).min(items.len());
    Ok(Envelope::Bulk(BulkEnvelope { total, items: items[start..end].to_vec() }))
}

fn browse_engine(page_size: u32) -> Pagination<u32> {
    let mut engine = Pagination::new(FetchStrategy::Browse, Vec::new(), None);
    assert!(engine.page_size(page_size));
    engine
}

#[test]
fn a_new_engine_is_fresh() {
    let engine: Pagination<u32> = Pagination::new(FetchStrategy::Browse, Vec::new(), None);
    assert_eq!(
        engine.cursor(),
        Cursor { start: 0, page_size: 20, total: None, exhausted: false }
    );
    assert_eq!(DEFAULT_PAGE_SIZE, 20);
    assert_eq!(engine.current_total(), None);
    assert!(!engine.is_exhausted());
    assert_eq!(engine.phase(), Phase::Fresh);
    assert_eq!(engine.strategy(), FetchStrategy::Browse);
}

#[test]
fn five_items_in_pages_of_two_two_and_one() {
    let items = [10u32, 11, 12, 13, 14];
    let calls = Cell::new(0u32);
    let fetch = |request: &Request| {
        calls.set(calls.get() + 1);
        slice_of(&items, 5, request)
    };
    let mut engine = browse_engine(2);
    assert_eq!(engine.next_page(&fetch), Ok(vec![10, 11]));
    assert_eq!(engine.phase(), Phase::InProgress);
    assert_eq!(engine.cursor().start, 2);
    assert_eq!(engine.next_page(&fetch), Ok(vec![12, 13]));
    assert_eq!(engine.cursor().start, 4);
    assert!(!engine.is_exhausted());
    assert_eq!(engine.next_page(&fetch), Ok(vec![14]));
    assert_eq!(
        engine.cursor(),
        Cursor { start: 5, page_size: 2, total: Some(5), exhausted: true }
    );
    assert_eq!(engine.phase(), Phase::Exhausted);
    assert_eq!(calls.get(), 3);
    assert_eq!(engine.next_page(&fetch), Ok(Vec::new()));
    assert_eq!(calls.get(), 3);
    assert_eq!(
        engine.cursor(),
        Cursor { start: 5, page_size: 2, total: Some(5), exhausted: true }
    );
}

#[test]
fn an_exhausted_engine_asks_nothing_and_hands_out_nothing() {
    let mut engine = browse_engine(3);
    let empty = Envelope::Bulk(BulkEnvelope { total: 0, items: Vec::<u32>::new() });
    assert_eq!(engine.accept(empty), Ok(Vec::new()));
    assert!(engine.is_exhausted());
    assert_eq!(engine.next_request(), None);
    let never = |_: &Request| -> Result<Envelope<u32>, Error> { panic!("the transport was called") };
    for _ in 0..3 {
        assert_eq!(engine.next_page(&never), Ok(Vec::new()));
        assert_eq!(engine.collect_all(&never), Ok(Vec::new()));
    }
    let late = Envelope::Bulk(BulkEnvelope { total: 9, items: vec![1u32, 2] });
    assert_eq!(engine.accept(late), Ok(Vec::new()));
    assert_eq!(engine.accept_page(PageResult { items: vec![3, 4], total: 9 }), Vec::<u32>::new());
    assert_eq!(
        engine.cursor(),
        Cursor { start: 0, page_size: 3, total: Some(0), exhausted: true }
    );
}

#[test]
fn an_empty_page_exhausts_the_engine_below_the_total() {
    let mut engine = browse_engine(4);
    assert_eq!(engine.accept_page(PageResult { items: vec![1, 2, 3, 4], total: 100 }), vec![1, 2, 3, 4]);
    assert!(!engine.is_exhausted());
    assert_eq!(engine.accept_page(PageResult { items: Vec::new(), total: 100 }), Vec::<u32>::new());
    assert_eq!(
        engine.cursor(),
        Cursor { start: 4, page_size: 4, total: Some(100), exhausted: true }
    );
}

#[test]
fn reaching_the_total_exhausts_the_engine() {
    let mut engine = browse_engine(2);
    assert_eq!(engine.accept_page(PageResult { items: vec![1, 2], total: 3 }), vec![1, 2]);
    assert!(!engine.is_exhausted());
    assert_eq!(engine.accept_page(PageResult { items: vec![3], total: 3 }), vec![3]);
    assert!(engine.is_exhausted());
    assert_eq!(engine.cursor().start, 3);
}

#[test]
fn a_page_that_passes_the_total_is_handed_out_whole() {
    let mut engine = browse_engine(4);
    assert_eq!(engine.accept_page(PageResult { items: vec![1, 2, 3, 4], total: 2 }), vec![1, 2, 3, 4]);
    assert_eq!(
        engine.cursor(),
        Cursor { start: 4, page_size: 4, total: Some(2), exhausted: true }
    );
}

#[test]
fn the_total_is_the_one_reported_last() {
    let mut engine = browse_engine(1);
    assert_eq!(engine.current_total(), None);
    engine.accept_page(PageResult { items: vec![1], total: 10 });
    assert_eq!(engine.current_total(), Some(10));
    engine.accept_page(PageResult { items: vec![2], total: 7 });
    assert_eq!(engine.current_total(), Some(7));
    assert!(!engine.is_exhausted());
}

#[test]
fn a_failed_fetch_leaves_the_cursor_and_a_retry_resumes() {
    let items = [1u32, 2, 3, 4];
    let calls = Cell::new(0u32);
    let fetch = |request: &Request| {
        calls.set(calls.get() + 1);
        if calls.get() == 2 {
            Err(Error::transport("timed out"))
        } else {
            slice_of(&items, 4, request)
        }
    };
    let mut engine = browse_engine(3);
    assert_eq!(engine.next_page(&fetch), Ok(vec![1, 2, 3]));
    let before = engine.cursor();
    assert_eq!(engine.next_page(&fetch), Err(Error::Transport { message: "timed out".to_string() }));
    assert_eq!(engine.cursor(), before);
    assert_eq!(engine.next_request().map(|r| param(&r, "start")), Some(3));
    assert_eq!(engine.next_page(&fetch), Ok(vec![4]));
    assert!(engine.is_exhausted());
}

#[test]
fn a_decode_failure_of_the_transport_comes_back_unchanged() {
    let fetch = |_: &Request| -> Result<Envelope<u32>, Error> { Err(Error::decode("not json")) };
    let mut engine = browse_engine(3);
    assert_eq!(engine.next_page(&fetch), Err(Error::Decode { message: "not json".to_string() }));
    assert_eq!(engine.phase(), Phase::Fresh);
    assert_eq!(engine.collect_all(&fetch), Err(Error::Decode { message: "not json".to_string() }));
    assert_eq!(engine.cursor(), Cursor { start: 0, page_size: 3, total: None, exhausted: false });
}

#[test]
fn an_answer_in_the_wrong_shape_leaves_the_cursor() {
    let mut engine = browse_engine(3);
    let faceted = Envelope::Facets(vec![FacetEntry {
        discriminant: "series".to_string(),
        items: vec![1u32],
        total: 1,
    }]);
    assert_eq!(
        engine.accept(faceted),
        Err(Error::Decode { message: "response envelope has the wrong shape".to_string() })
    );
    assert_eq!(engine.cursor(), Cursor { start: 0, page_size: 3, total: None, exhausted: false });
}

#[test]
fn collecting_gives_every_item_in_order() {
    let items: Vec<u32> = (0..23).collect();
    let calls = Cell::new(0u32);
    let fetch = |request: &Request| {
        calls.set(calls.get() + 1);
        slice_of(&items, 23, request)
    };
    let mut engine = browse_engine(5);
    assert_eq!(engine.collect_all(&fetch), Ok(items.clone()));
    assert_eq!(calls.get(), 5);
    assert_eq!(engine.cursor(), Cursor { start: 23, page_size: 5, total: Some(23), exhausted: true });
    assert_eq!(engine.collect_all(&fetch), Ok(Vec::new()));
    assert_eq!(calls.get(), 5);
}

#[test]
fn collecting_from_a_source_that_holds_less_than_it_reports() {
    let items = [1u32, 2, 3];
    let calls = Cell::new(0u32);
    let fetch = |request: &Request| {
        calls.set(calls.get() + 1);
        slice_of(&items, 10, request)
    };
    let mut engine = browse_engine(2);
    assert_eq!(engine.collect_all(&fetch), Ok(vec![1, 2, 3]));
    assert_eq!(engine.cursor(), Cursor { start: 3, page_size: 2, total: Some(10), exhausted: true });
    assert_eq!(calls.get(), 3);
}

#[test]
fn collecting_from_a_source_that_holds_more_than_it_reports() {
    let items: Vec<u32> = (0..10).collect();
    let fetch = |request: &Request| slice_of(&items, 4, request);
    let mut engine = browse_engine(2);
    assert_eq!(engine.collect_all(&fetch), Ok(vec![0, 1, 2, 3]));
    assert_eq!(engine.cursor().start, 4);
    let fetch = |request: &Request| slice_of(&items, 5, request);
    let mut engine = browse_engine(2);
    assert_eq!(engine.collect_all(&fetch), Ok(vec![0, 1, 2, 3, 4, 5]));
    assert_eq!(engine.cursor(), Cursor { start: 6, page_size: 2, total: Some(5), exhausted: true });
}

#[test]
fn collecting_from_a_source_that_holds_and_reports_nothing() {
    let fetch = |request: &Request| slice_of(&[], 0, request);
    let mut engine = browse_engine(2);
    assert_eq!(engine.collect_all(&fetch), Ok(Vec::new()));
    assert_eq!(engine.cursor(), Cursor { start: 0, page_size: 2, total: Some(0), exhausted: true });
}

#[test]
fn collecting_stops_at_the_first_failure() {
    let items: Vec<u32> = (0..9).collect();
    let calls = Cell::new(0u32);
    let fetch = |request: &Request| {
        calls.set(calls.get() + 1);
        if param(request, "start") == 6 {
            Err(Error::transport("gone"))
        } else {
            slice_of(&items, 9, request)
        }
    };
    let mut engine = browse_engine(3);
    assert_eq!(engine.collect_all(&fetch), Err(Error::Transport { message: "gone".to_string() }));
    assert_eq!(calls.get(), 3);
    assert_eq!(engine.cursor(), Cursor { start: 6, page_size: 3, total: Some(9), exhausted: false });
}

#[test]
fn collecting_goes_on_from_where_the_engine_stands() {
    let items: Vec<u32> = (0..7).collect();
    let fetch = |request: &Request| slice_of(&items, 7, request);
    let mut engine = browse_engine(3);
    assert_eq!(engine.next_page(&fetch), Ok(vec![0, 1, 2]));
    assert_eq!(engine.collect_all(&fetch), Ok(vec![3, 4, 5, 6]));
}

#[test]
fn a_page_size_of_zero_is_refused() {
    let mut engine: Pagination<u32> = Pagination::new(FetchStrategy::Browse, Vec::new(), None);
    assert!(!engine.page_size(0));
    assert_eq!(engine.cursor().page_size, 20);
    assert!(engine.page_size(1));
    assert_eq!(engine.cursor().page_size, 1);
    assert!(engine.page_size(u32::MAX));
    assert_eq!(engine.cursor().page_size, u32::MAX);
    assert_eq!(engine.next_request().map(|r| param(&r, "n")), Some(4294967295));
}

#[test]
fn the_page_size_may_change_between_pages() {
    let items: Vec<u32> = (0..6).collect();
    let fetch = |request: &Request| slice_of(&items, 6, request);
    let mut engine = browse_engine(1);
    assert_eq!(engine.next_page(&fetch), Ok(vec![0]));
    assert!(engine.page_size(4));
    assert_eq!(engine.next_page(&fetch), Ok(vec![1, 2, 3, 4]));
    assert_eq!(engine.next_page(&fetch), Ok(vec![5]));
    assert!(engine.is_exhausted());
}

#[test]
fn a_browse_request_carries_the_filters_and_the_page() {
    let filters = vec![pair("categories", "action"), pair("sort", "newly_added")];
    let mut engine: Pagination<u32> =
        Pagination::new(FetchStrategy::Browse, filters, Some(Locale::EnUs));
    let request = engine.next_request().unwrap();
    assert_eq!(request.endpoint, "https://www.crunchyroll.com/content/v2/discover/browse");
    assert_eq!(
        request.query,
        vec![
            pair("categories", "action"),
            pair("sort", "newly_added"),
            pair("n", "20"),
            pair("start", "0"),
        ]
    );
    engine.accept_page(PageResult { items: (0..20).collect(), total: 45 });
    let request = engine.next_request().unwrap();
    assert_eq!(
        request.query,
        vec![
            pair("categories", "action"),
            pair("sort", "newly_added"),
            pair("n", "20"),
            pair("start", "20"),
        ]
    );
}

#[test]
fn a_search_request_names_its_facet_and_the_locale() {
    let filters = vec![pair("q", "one piece")];
    let engine: Pagination<u32> =
        Pagination::new(FetchStrategy::Search(Facet::Episode), filters.clone(), Some(Locale::PtBr));
    let request = engine.next_request().unwrap();
    assert_eq!(request.endpoint, "https://www.crunchyroll.com/content/v2/discover/search");
    assert_eq!(
        request.query,
        vec![
            pair("q", "one piece"),
            pair("type", "episode"),
            pair("limit", "20"),
            pair("start", "0"),
            pair("locale", "pt-BR"),
        ]
    );
    let plain: Pagination<u32> =
        Pagination::new(FetchStrategy::Search(Facet::TopResults), filters, None);
    assert_eq!(
        plain.next_request().unwrap().query,
        vec![
            pair("q", "one piece"),
            pair("type", "top_results"),
            pair("limit", "20"),
            pair("start", "0"),
        ]
    );
}

#[test]
fn building_a_request_by_hand() {
    let request = FetchStrategy::Browse.build_request(&vec![pair("a", "b")], None, 7, 1234567890123);
    assert_eq!(
        request,
        Request {
            endpoint: "https://www.crunchyroll.com/content/v2/discover/browse".to_string(),
            query: vec![pair("a", "b"), pair("n", "7"), pair("start", "1234567890123")],
        }
    );
}

#[test]
fn numbers_are_written_in_decimal() {
    assert_eq!(decimal_string(0), "0");
    assert_eq!(decimal_string(7), "7");
    assert_eq!(decimal_string(10), "10");
    assert_eq!(decimal_string(20), "20");
    assert_eq!(decimal_string(109), "109");
    assert_eq!(decimal_string(4294967295), "4294967295");
    assert_eq!(decimal_string(1234567890), "1234567890");
    assert_eq!(decimal_string(u128::MAX), u128::MAX.to_string());
}
