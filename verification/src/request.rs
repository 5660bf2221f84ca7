//! The requests the core asks its transport to send, and the strategy that
//! shapes them and reads the answers.

use vstd::prelude::*;
use vstd::string::*;
use crate::error::Error;
use crate::facet::{extract_facet, extracted, Envelope, Facet, PageResult, PageView};
use crate::locale::Locale;
use crate::options::{optional_entry, push_entry, FilterView};

verus! {

/// One decimal digit as text.
pub open spec fn digit_wire(digit: nat) -> Seq<char> {
    if digit == 0 {
        "0"@
    } else if digit == 1 {
        "1"@
    } else if digit == 2 {
        "2"@
    } else if digit == 3 {
        "3"@
    } else if digit == 4 {
        "4"@
    } else if digit == 5 {
        "5"@
    } else if digit == 6 {
        "6"@
    } else if digit == 7 {
        "7"@
    } else if digit == 8 {
        "8"@
    } else {
        "9"@
    }
}

/// A number in decimal, most significant digit first, without padding.
pub open spec fn decimal(n: nat) -> Seq<char>
    decreases n,
{
    if n < 10 {
        digit_wire(n)
    } else {
        decimal(n / 10) + digit_wire(n % 10)
    }
}

fn digit_str(digit: u128) -> (text: &'static str)
    requires
        digit < 10,
    ensures
        text@ == digit_wire(digit as nat),
{
    if digit == 0 {
        "0"
    } else if digit == 1 {
        "1"
    } else if digit == 2 {
        "2"
    } else if digit == 3 {
        "3"
    } else if digit == 4 {
        "4"
    } else if digit == 5 {
        "5"
    } else if digit == 6 {
        "6"
    } else if digit == 7 {
        "7"
    } else if digit == 8 {
        "8"
    } else {
        "9"
    }
}

fn push_decimal(text: &mut String, n: u128)
    ensures
        final(text)@ == old(text)@ + decimal(n as nat),
    decreases n,
{
    if n >= 10 {
        push_decimal(text, n / 10);
        text.append(digit_str(n % 10));
        assert(text@ =~= old(text)@ + decimal(n as nat));
    } else {
        text.append(digit_str(n));
    }
}

/// Writes a number in decimal.
pub fn decimal_string(n: u128) -> (text: String)
    ensures
        text@ == decimal(n as nat),
{
    let mut text = String::new();
    push_decimal(&mut text, n);
    assert(text@ =~= decimal(n as nat));
    text
}

/// A GET request: where to send it and the query parameters, in order.
#[derive(Clone, Debug, PartialEq, Eq)]
pub struct Request {
    pub endpoint: String,
    pub query: Vec<(String, String)>,
}

/// A request as plain values.
pub struct RequestView {
    pub endpoint: Seq<char>,
    pub query: Seq<FilterView>,
}

impl View for Request {
    type V = RequestView;

    open spec fn view(&self) -> RequestView {
        RequestView { endpoint: self.endpoint@, query: self.query.deep_view() }
    }
}

pub open spec fn browse_endpoint() -> Seq<char> {
    "https://www.crunchyroll.com/content/v2/discover/browse"@
}

pub open spec fn search_endpoint() -> Seq<char> {
    "https://www.crunchyroll.com/content/v2/discover/search"@
}

/// The text of the decode failure for an answer in the other shape.
pub open spec fn wrong_shape() -> Seq<char> {
    "response envelope has the wrong shape"@
}

/// How one engine talks to the catalog: which endpoint it asks, how it names
/// the page parameters, and how it reads the answer.
#[derive(Clone, Copy, Debug, PartialEq, Eq, Structural)]
pub enum FetchStrategy {
    /// The browse endpoint, answered by a flat envelope.
    Browse,
    /// The search endpoint, asked for one facet and answered by a
    /// multi-facet envelope from which that facet is taken.
    Search(Facet),
}

impl FetchStrategy {
    pub open spec fn endpoint(self) -> Seq<char> {
        match self {
            FetchStrategy::Browse => browse_endpoint(),
            FetchStrategy::Search(_) => search_endpoint(),
        }
    }

    /// The parameters that follow the filter list.
    pub open spec fn paging_entries(
        self,
        locale: Option<Locale>,
        page_size: nat,
        start: nat,
    ) -> Seq<FilterView> {
        match self {
            FetchStrategy::Browse => seq![
                ("n"@, decimal(page_size)),
                ("start"@, decimal(start)),
            ],
            FetchStrategy::Search(facet) => seq![
                ("type"@, facet.wire()),
                ("limit"@, decimal(page_size)),
                ("start"@, decimal(start)),
            ] + optional_entry(
                "locale"@,
                match locale {
                    Some(locale) => Some(locale.wire()),
                    None => None,
                },
            ),
        }
    }

    /// The request for the page that begins at `start`.
    pub open spec fn request(
        self,
        filters: Seq<FilterView>,
        locale: Option<Locale>,
        page_size: nat,
        start: nat,
    ) -> RequestView {
        RequestView {
            endpoint: self.endpoint(),
            query: filters + self.paging_entries(locale, page_size, start),
        }
    }

    /// The page an answer holds, if the answer has the shape this strategy
    /// asks for.
    pub open spec fn page<T>(self, envelope: Envelope<T>) -> Option<PageView<T>> {
        match (self, envelope) {
            (FetchStrategy::Browse, Envelope::Bulk(bulk)) => Some(
                PageView { items: bulk.items@, total: bulk.total as nat },
            ),
            (FetchStrategy::Search(facet), Envelope::Facets(entries)) => Some(
                extracted(entries@, facet.wire()),
            ),
            _ => None,
        }
    }

    /// Builds the request for the page that begins at `start`.
    pub fn build_request(
        &self,
        filters: &Vec<(String, String)>,
        locale: Option<Locale>,
        page_size: u32,
        start: u128,
    ) -> (request: Request)
        ensures
            request@ == self.request(
                filters.deep_view(),
                locale,
                page_size as nat,
                start as nat,
            ),
    {
        let mut query: Vec<(String, String)> = Vec::new();
        let count: usize = filters.len();
        let mut i: usize = 0;
        assert(query.deep_view() =~= filters.deep_view().take(0));
        while i < count
            invariant
                count == filters@.len(),
                i <= count,
                query.deep_view() == filters.deep_view().take(i as int),
            decreases count - i,
        {
            push_entry(&mut query, filters[i].0.as_str(), filters[i].1.as_str());
            assert(query.deep_view() =~= filters.deep_view().take(i + 1));
            i += 1;
        }
        assert(filters.deep_view().take(count as int) =~= filters.deep_view());
        let size = decimal_string(page_size as u128);
        let offset = decimal_string(start);
        match self {
            FetchStrategy::Browse => {
                push_entry(&mut query, "n", size.as_str());
                push_entry(&mut query, "start", offset.as_str());
                assert(query.deep_view() =~= filters.deep_view() + self.paging_entries(
                    locale,
                    page_size as nat,
                    start as nat,
                ));
                Request { endpoint: browse_endpoint_str().to_owned(), query }
            },
            FetchStrategy::Search(facet) => {
                push_entry(&mut query, "type", facet.as_str());
                push_entry(&mut query, "limit", size.as_str());
                push_entry(&mut query, "start", offset.as_str());
                if let Some(locale) = locale {
                    push_entry(&mut query, "locale", locale.as_str());
                }
                assert(query.deep_view() =~= filters.deep_view() + self.paging_entries(
                    locale,
                    page_size as nat,
                    start as nat,
                ));
                Request { endpoint: search_endpoint_str().to_owned(), query }
            },
        }
    }

    /// Reads the page out of an answer. An answer in the other shape is a
    /// decode failure.
    pub fn decode<T>(&self, envelope: Envelope<T>) -> (r: Result<PageResult<T>, Error>)
        ensures
            match self.page(envelope) {
                Some(page) => r is Ok && r->Ok_0@ == page,
                None => r is Err && r->Err_0.is_decode_of(wrong_shape()),
            },
    {
        match self {
            FetchStrategy::Browse => match envelope {
                Envelope::Bulk(bulk) => Ok(PageResult { items: bulk.items, total: bulk.total }),
                Envelope::Facets(_) => Err(Error::decode(wrong_shape_str())),
            },
            FetchStrategy::Search(facet) => match envelope {
                Envelope::Bulk(_) => Err(Error::decode(wrong_shape_str())),
                Envelope::Facets(entries) => Ok(extract_facet(entries, facet.as_str())),
            },
        }
    }
}

pub fn browse_endpoint_str() -> (url: &'static str)
    ensures
        url@ == browse_endpoint(),
{
    "https://www.crunchyroll.com/content/v2/discover/browse"
}

pub fn search_endpoint_str() -> (url: &'static str)
    ensures
        url@ == search_endpoint(),
{
    "https://www.crunchyroll.com/content/v2/discover/search"
}

fn wrong_shape_str() -> (text: &'static str)
    ensures
        text@ == wrong_shape(),
{
    "response envelope has the wrong shape"
}

} // verus!
