use crunchyroll_rs::error::Error;
use crunchyroll_rs::locale::Locale;
use crunchyroll_rs::options::{BrowseOptions, BrowseSortType, Category, MediaType};

fn pair(key: &str, value: &str) -> (String, String) {
    (key.to_string(), value.to_string())
}

#[test]
fn default_options_compile_to_the_default_sort_alone() {
    let list = BrowseOptions::new().into_query();
    assert_eq!(list, vec![pair("sort", "newly_added")]);
    assert_eq!(BrowseOptions::default().into_query(), vec![pair("sort", "newly_added")]);
    assert_eq!(BrowseSortType::default(), BrowseSortType::NewlyAdded);
}

#[test]
fn an_explicit_sort_replaces_the_default() {
    let list = BrowseOptions::new().sort(BrowseSortType::Alphabetical).into_query();
    assert_eq!(list, vec![pair("sort", "alphabetical")]);
    let list = BrowseOptions::new().sort(BrowseSortType::NewlyAdded).into_query();
    assert_eq!(list, vec![pair("sort", "newly_added")]);
}

#[test]
fn no_category_gives_no_category_entry() {
    let list = BrowseOptions::new().categories(Vec::new()).into_query();
    assert!(list.iter().all(|(key, _)| key != "categories"));
    assert_eq!(list.len(), 1);
}

#[test]
fn two_categories_compile_in_list_order() {
    let options = BrowseOptions::new()
        .categories(vec![Category::new("action"), Category::new("drama")])
        .sort(BrowseSortType::Popularity);
    let list = options.into_query();
    assert_eq!(
        list,
        vec![
            pair("categories", "action"),
            pair("categories", "drama"),
            pair("sort", "popularity"),
        ]
    );
    let reversed = BrowseOptions::new()
        .categories(vec![Category::new("drama"), Category::new("action")])
        .into_query();
    assert_eq!(
        reversed,
        vec![
            pair("categories", "drama"),
            pair("categories", "action"),
            pair("sort", "newly_added"),
        ]
    );
}

#[test]
fn a_category_may_occur_twice() {
    let list = BrowseOptions::new()
        .categories(vec![Category::new("music"), Category::new("music")])
        .into_query();
    assert_eq!(
        list,
        vec![
            pair("categories", "music"),
            pair("categories", "music"),
            pair("sort", "newly_added"),
        ]
    );
}

#[test]
fn every_option_compiles_at_its_place() {
    let options = BrowseOptions::new()
        .preferred_audio_language(Locale::JaJp)
        .media_type(MediaType::MovieListing)
        .sort(BrowseSortType::Popularity)
        .simulcast_season("spring-2023".to_string())
        .is_subbed(false)
        .is_dubbed(true)
        .categories(vec![Category::new("comedy")]);
    assert_eq!(
        options.into_query(),
        vec![
            pair("categories", "comedy"),
            pair("is_dubbed", "true"),
            pair("is_subbed", "false"),
            pair("season_tag", "spring-2023"),
            pair("sort", "popularity"),
            pair("type", "movie_listing"),
            pair("preferred_audio_language", "ja-JP"),
        ]
    );
}

#[test]
fn a_flag_that_was_set_to_false_is_still_written() {
    let list = BrowseOptions::new().is_dubbed(false).into_query();
    assert_eq!(list, vec![pair("is_dubbed", "false"), pair("sort", "newly_added")]);
}

#[test]
fn unset_options_leave_no_entry() {
    let list = BrowseOptions::new().media_type(MediaType::Series).into_query();
    assert_eq!(list, vec![pair("sort", "newly_added"), pair("type", "series")]);
    for key in ["is_dubbed", "is_subbed", "season_tag", "preferred_audio_language", "categories"] {
        assert!(list.iter().all(|(k, _)| k != key));
    }
}

#[test]
fn compiling_the_same_options_twice_gives_the_same_list() {
    let options = BrowseOptions::new()
        .categories(vec![Category::new("fantasy"), Category::new("sci-fi")])
        .is_dubbed(true)
        .simulcast_season("fall-2022".to_string())
        .preferred_audio_language(Locale::DeDe);
    let first = options.clone().into_query();
    let second = options.clone().into_query();
    let third = options.into_query();
    assert_eq!(first, second);
    assert_eq!(second, third);
    assert_eq!(first.len(), 6);
}

#[test]
fn the_fields_of_an_option_set_may_be_written_directly() {
    let mut options = BrowseOptions::new();
    options.categories = vec![Category::new("sports")];
    options.is_subbed = Some(true);
    assert_eq!(
        options.into_query(),
        vec![
            pair("categories", "sports"),
            pair("is_subbed", "true"),
            pair("sort", "newly_added"),
        ]
    );
}

#[test]
fn sort_orders_read_and_write() {
    for sort in [BrowseSortType::Popularity, BrowseSortType::NewlyAdded, BrowseSortType::Alphabetical]
    {
        assert_eq!(BrowseSortType::from_wire(sort.as_str()), Ok(sort));
    }
    assert_eq!(BrowseSortType::Popularity.as_str(), "popularity");
    assert_eq!(BrowseSortType::NewlyAdded.as_str(), "newly_added");
    assert_eq!(BrowseSortType::Alphabetical.as_str(), "alphabetical");
}

#[test]
fn an_unknown_sort_order_is_a_decode_error() {
    let r = BrowseSortType::from_wire("newest");
    assert_eq!(r, Err(Error::Decode { message: "newest".to_string() }));
    assert!(BrowseSortType::from_wire("").is_err());
    assert!(BrowseSortType::from_wire("Popularity").is_err());
}

#[test]
fn media_types_read_and_write() {
    assert_eq!(MediaType::Series.as_str(), "series");
    assert_eq!(MediaType::MovieListing.as_str(), "movie_listing");
    assert_eq!(MediaType::from_wire("series"), Ok(MediaType::Series));
    assert_eq!(MediaType::from_wire("movie_listing"), Ok(MediaType::MovieListing));
    assert_eq!(
        MediaType::from_wire("episode"),
        Err(Error::Decode { message: "episode".to_string() })
    );
}

#[test]
fn locales_read_and_write() {
    let all = [
        (Locale::ArSa, "ar-SA"),
        (Locale::DeDe, "de-DE"),
        (Locale::EnUs, "en-US"),
        (Locale::Es419, "es-419"),
        (Locale::EsEs, "es-ES"),
        (Locale::FrFr, "fr-FR"),
        (Locale::HiIn, "hi-IN"),
        (Locale::ItIt, "it-IT"),
        (Locale::JaJp, "ja-JP"),
        (Locale::PtBr, "pt-BR"),
        (Locale::PtPt, "pt-PT"),
        (Locale::RuRu, "ru-RU"),
    ];
    for (locale, tag) in all {
        assert_eq!(locale.as_str(), tag);
        assert_eq!(Locale::from_wire(tag), Ok(locale));
    }
}

#[test]
fn an_unknown_locale_is_a_decode_error() {
    assert_eq!(Locale::from_wire("en-us"), Err(Error::Decode { message: "en-us".to_string() }));
    assert_eq!(Locale::from_wire("xx-XX"), Err(Error::Decode { message: "xx-XX".to_string() }));
}

#[test]
fn errors_tell_their_kind_and_text() {
    let transport = Error::transport("connection reset");
    assert!(transport.is_transport());
    assert!(!transport.is_decode());
    assert_eq!(transport.message(), "connection reset");
    assert_eq!(transport, Error::Transport { message: "connection reset".to_string() });
    let decode = Error::decode("missing field");
    assert!(decode.is_decode());
    assert!(!decode.is_transport());
    assert_eq!(decode.message(), "missing field");
    assert_ne!(decode, Error::transport("missing field"));
}
