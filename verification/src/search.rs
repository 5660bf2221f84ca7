//! The entry points: browsing the catalog under a filter set, searching it by
//! free text, and listing the simulcast seasons.

use vstd::prelude::*;
use crate::error::Error;
use crate::facet::{BulkEnvelope, Facet};
use crate::locale::Locale;
use crate::options::{push_entry, BrowseOptions, FilterView};
use crate::cursor::CursorView;
use crate::pagination::{Pagination, PaginationView, DEFAULT_PAGE_SIZE};
use crate::request::{FetchStrategy, Request, RequestView};

verus! {

/// Human readable implementation of [`SimulcastSeason`].
#[derive(Clone, Debug, PartialEq, Eq)]
pub struct SimulcastSeasonLocalization {
    pub title: String,
    pub description: String,
}

impl Default for SimulcastSeasonLocalization {
    fn default() -> (localization: SimulcastSeasonLocalization)
        ensures
            localization.title@.len() == 0,
            localization.description@.len() == 0,
    {
        SimulcastSeasonLocalization { title: String::new(), description: String::new() }
    }
}

/// A simulcast season.
#[derive(Clone, Debug, PartialEq, Eq)]
pub struct SimulcastSeason {
    pub id: String,
    pub localization: SimulcastSeasonLocalization,
}

impl Default for SimulcastSeason {
    fn default() -> (season: SimulcastSeason)
        ensures
            season.id@.len() == 0,
            season.localization.title@.len() == 0,
            season.localization.description@.len() == 0,
    {
        SimulcastSeason { id: String::new(), localization: SimulcastSeasonLocalization::default() }
    }
}

/// The results of one search: one engine per facet, each over the record
/// type of its facet. The four share the search text and nothing else:
/// each has a cursor of its own.
pub struct QueryResults<C, S, M, E> {
    pub top_results: Pagination<C>,
    pub series: Pagination<S>,
    pub movie_listing: Pagination<M>,
    pub episode: Pagination<E>,
}

pub open spec fn season_list_endpoint() -> Seq<char> {
    "https://www.crunchyroll.com/content/v1/season_list"@
}

/// The request that lists the simulcast seasons in `locale`.
pub open spec fn season_list_request(locale: Locale) -> RequestView {
    RequestView { endpoint: season_list_endpoint(), query: seq![("locale"@, locale.wire())] }
}

/// The filter list of a search: the text, under the key `q`.
pub open spec fn search_filters(text: Seq<char>) -> Seq<FilterView> {
    seq![("q"@, text)]
}

/// The text of one search. The engines of a search all ask with it.
#[derive(Clone, Debug, PartialEq, Eq)]
pub struct SearchQuery {
    pub text: String,
}

impl View for SearchQuery {
    type V = Seq<char>;

    open spec fn view(&self) -> Seq<char> {
        self.text@
    }
}

impl SearchQuery {
    pub fn new(text: &str) -> (query: SearchQuery)
        ensures
            query@ == text@,
    {
        SearchQuery { text: text.to_owned() }
    }

    /// The filter list that every request of the search begins with.
    pub fn filters(&self) -> (filters: Vec<(String, String)>)
        ensures
            filters.deep_view() == search_filters(self@),
    {
        let mut filters: Vec<(String, String)> = Vec::new();
        push_entry(&mut filters, "q", self.text.as_str());
        assert(filters.deep_view() =~= search_filters(self@));
        filters
    }
}

/// What the session knows that the requests depend on.
#[derive(Clone, Copy, Debug, PartialEq, Eq, Structural)]
pub struct Crunchyroll {
    /// The locale that search requests are augmented with, if any.
    pub locale: Option<Locale>,
}

impl Crunchyroll {
    pub fn new(locale: Option<Locale>) -> (session: Crunchyroll)
        ensures
            session.locale == locale,
    {
        Crunchyroll { locale }
    }

    /// The engine that a query of this session starts with.
    pub open spec fn fresh_engine(self, strategy: FetchStrategy, filters: Seq<FilterView>) -> PaginationView {
        PaginationView {
            strategy,
            filters,
            locale: self.locale,
            cursor: CursorView::fresh(DEFAULT_PAGE_SIZE as nat),
        }
    }

    /// Browses the catalog filtered by the specified options. The engine
    /// asks the browse endpoint with the compiled options.
    pub fn browse<T>(&self, options: BrowseOptions) -> (engine: Pagination<T>)
        ensures
            engine@ == self.fresh_engine(FetchStrategy::Browse, options@.compiled()),
    {
        Pagination::new(FetchStrategy::Browse, options.into_query(), self.locale)
    }

    /// The engine of one facet of a search.
    pub fn facet_engine<T>(&self, facet: Facet, query: &SearchQuery) -> (engine: Pagination<T>)
        ensures
            engine@ == self.fresh_engine(FetchStrategy::Search(facet), search_filters(query@)),
    {
        Pagination::new(FetchStrategy::Search(facet), query.filters(), self.locale)
    }

    /// Searches the catalog by a given text. Each of the four engines asks
    /// the search endpoint for its own facet with the same text.
    pub fn query<C, S, M, E>(&self, query: &str) -> (results: QueryResults<C, S, M, E>)
        ensures
            results.top_results@ == self.fresh_engine(
                FetchStrategy::Search(Facet::TopResults),
                search_filters(query@),
            ),
            results.series@ == self.fresh_engine(
                FetchStrategy::Search(Facet::Series),
                search_filters(query@),
            ),
            results.movie_listing@ == self.fresh_engine(
                FetchStrategy::Search(Facet::MovieListing),
                search_filters(query@),
            ),
            results.episode@ == self.fresh_engine(
                FetchStrategy::Search(Facet::Episode),
                search_filters(query@),
            ),
    {
        let shared = SearchQuery::new(query);
        QueryResults {
            top_results: self.facet_engine(Facet::TopResults, &shared),
            series: self.facet_engine(Facet::Series, &shared),
            movie_listing: self.facet_engine(Facet::MovieListing, &shared),
            episode: self.facet_engine(Facet::Episode, &shared),
        }
    }

    /// The request that lists all simulcast seasons. The locale decides the
    /// language of the human readable names.
    pub fn simulcast_seasons_request(&self, locale: Locale) -> (request: Request)
        ensures
            request@ == season_list_request(locale),
    {
        let mut query: Vec<(String, String)> = Vec::new();
        push_entry(&mut query, "locale", locale.as_str());
        assert(query.deep_view() =~= season_list_request(locale).query);
        Request { endpoint: season_list_endpoint_str().to_owned(), query }
    }

    /// Returns all simulcast seasons, fetched through `fetch` with one
    /// request. The seasons are those of the answer, in its order; a failure
    /// of the fetch comes back as it is.
    pub fn simulcast_seasons<F: Fn(&Request) -> Result<BulkEnvelope<SimulcastSeason>, Error>>(
        &self,
        locale: Locale,
        fetch: &F,
    ) -> (r: Result<Vec<SimulcastSeason>, Error>)
        requires
            forall|request: Request|
                request@ == season_list_request(locale) ==> #[trigger] call_requires(
                    *fetch,
                    (&request,),
                ),
        ensures
            exists|request: Request, outcome: Result<BulkEnvelope<SimulcastSeason>, Error>|
                request@ == season_list_request(locale) && #[trigger] call_ensures(
                    *fetch,
                    (&request,),
                    outcome,
                ) && r == seasons_of(outcome),
    {
        let request = self.simulcast_seasons_request(locale);
        let outcome = fetch(&request);
        let ghost seen = outcome;
        let r = match outcome {
            Ok(bulk) => Ok(bulk.items),
            Err(error) => Err(error),
        };
        assert(call_ensures(*fetch, (&request,), seen) && r == seasons_of(seen));
        r
    }
}

/// The seasons an answer holds: its items, whatever total it reports.
pub open spec fn seasons_of(outcome: Result<BulkEnvelope<SimulcastSeason>, Error>) -> Result<
    Vec<SimulcastSeason>,
    Error,
> {
    match outcome {
        Ok(bulk) => Ok(bulk.items),
        Err(error) => Err(error),
    }
}

pub fn season_list_endpoint_str() -> (url: &'static str)
    ensures
        url@ == season_list_endpoint(),
{
    "https://www.crunchyroll.com/content/v1/season_list"
}

} // verus!
