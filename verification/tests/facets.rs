use crunchyroll_rs::error::Error;
use crunchyroll_rs::facet::{extract_facet, BulkEnvelope, Envelope, Facet, FacetEntry, PageResult};
use crunchyroll_rs::request::FetchStrategy;

fn entry(discriminant: &str, items: Vec<u32>, total: u32) -> FacetEntry<u32> {
    FacetEntry { discriminant: discriminant.to_string(), items, total }
}

#[test]
fn an_absent_facet_is_the_empty_page() {
    let envelope = vec![entry("movie_listing", vec![1, 2], 9)];
    let page = extract_facet(envelope, "series");
    assert_eq!(page, PageResult { items: Vec::new(), total: 0 });
}

#[test]
fn an_empty_envelope_gives_the_empty_page() {
    let page = extract_facet(Vec::<FacetEntry<u32>>::new(), "episode");
    assert_eq!(page, PageResult { items: Vec::new(), total: 0 });
}

#[test]
fn a_present_facet_gives_its_items_and_total() {
    let envelope = vec![
        entry("top_results", vec![1], 1),
        entry("series", vec![10, 11, 12], 40),
        entry("episode", vec![20], 7),
    ];
    let page = extract_facet(envelope, "series");
    assert_eq!(page, PageResult { items: vec![10, 11, 12], total: 40 });
}

#[test]
fn the_first_of_two_entries_with_one_discriminant_wins() {
    let envelope = vec![
        entry("episode", vec![1, 2], 2),
        entry("series", vec![3], 30),
        entry("series", vec![4, 5], 50),
    ];
    let page = extract_facet(envelope, "series");
    assert_eq!(page, PageResult { items: vec![3], total: 30 });
}

#[test]
fn a_facet_with_no_items_keeps_its_total() {
    let envelope = vec![entry("series", Vec::new(), 12)];
    let page = extract_facet(envelope, "series");
    assert_eq!(page, PageResult { items: Vec::new(), total: 12 });
}

#[test]
fn a_discriminant_is_compared_as_a_whole() {
    let envelope = vec![entry("series2", vec![1], 1), entry("serie", vec![2], 1)];
    let page = extract_facet(envelope, "series");
    assert_eq!(page, PageResult { items: Vec::new(), total: 0 });
}

#[test]
fn facets_read_and_write() {
    let all = [
        (Facet::TopResults, "top_results"),
        (Facet::Series, "series"),
        (Facet::MovieListing, "movie_listing"),
        (Facet::Episode, "episode"),
    ];
    for (facet, text) in all {
        assert_eq!(facet.as_str(), text);
        assert_eq!(Facet::from_wire(text), Ok(facet));
    }
    assert_eq!(Facet::from_wire("music"), Err(Error::Decode { message: "music".to_string() }));
}

#[test]
fn browse_reads_a_flat_envelope() {
    let envelope = Envelope::Bulk(BulkEnvelope { total: 3, items: vec![7u32, 8] });
    let page = FetchStrategy::Browse.decode(envelope);
    assert_eq!(page, Ok(PageResult { items: vec![7, 8], total: 3 }));
}

#[test]
fn search_reads_its_own_facet() {
    let envelope = Envelope::Facets(vec![
        entry("series", vec![1, 2], 2),
        entry("episode", vec![3, 4, 5], 90),
    ]);
    let page = FetchStrategy::Search(Facet::Episode).decode(envelope);
    assert_eq!(page, Ok(PageResult { items: vec![3, 4, 5], total: 90 }));
}

#[test]
fn an_envelope_in_the_other_shape_is_a_decode_error() {
    let flat = Envelope::Bulk(BulkEnvelope { total: 3, items: vec![7u32, 8] });
    let r = FetchStrategy::Search(Facet::Series).decode(flat);
    assert_eq!(
        r,
        Err(Error::Decode { message: "response envelope has the wrong shape".to_string() })
    );
    let faceted = Envelope::Facets(vec![entry("series", vec![1], 1)]);
    let r = FetchStrategy::Browse.decode(faceted);
    assert_eq!(
        r,
        Err(Error::Decode { message: "response envelope has the wrong shape".to_string() })
    );
}
