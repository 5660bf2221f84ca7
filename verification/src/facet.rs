//! Response envelopes and the extraction of one facet from a multi-facet one.

use vstd::prelude::*;
use crate::error::Error;

verus! {

/// One named slice of a search result.
#[derive(Clone, Copy, Debug, PartialEq, Eq, Structural)]
pub enum Facet {
    TopResults,
    Series,
    MovieListing,
    Episode,
}

impl Facet {
    /// The discriminant that tags this facet in a request and in a response.
    pub open spec fn wire(self) -> Seq<char> {
        match self {
            Facet::TopResults => "top_results"@,
            Facet::Series => "series"@,
            Facet::MovieListing => "movie_listing"@,
            Facet::Episode => "episode"@,
        }
    }

    pub open spec fn spec_from_wire(text: Seq<char>) -> Option<Facet> {
        if text == "top_results"@ {
            Some(Facet::TopResults)
        } else if text == "series"@ {
            Some(Facet::Series)
        } else if text == "movie_listing"@ {
            Some(Facet::MovieListing)
        } else if text == "episode"@ {
            Some(Facet::Episode)
        } else {
            None
        }
    }

    pub fn as_str(&self) -> (text: &'static str)
        ensures
            text@ == self.wire(),
    {
        match self {
            Facet::TopResults => "top_results",
            Facet::Series => "series",
            Facet::MovieListing => "movie_listing",
            Facet::Episode => "episode",
        }
    }

    /// Reads a discriminant. An unknown string is a decode failure that
    /// carries the string.
    pub fn from_wire(text: &str) -> (r: Result<Facet, Error>)
        ensures
            match Facet::spec_from_wire(text@) {
                Some(facet) => r == Ok::<Facet, Error>(facet),
                None => r is Err && r->Err_0.is_decode_of(text@),
            },
    {
        let owned = text.to_owned();
        if owned == "top_results".to_owned() {
            Ok(Facet::TopResults)
        } else if owned == "series".to_owned() {
            Ok(Facet::Series)
        } else if owned == "movie_listing".to_owned() {
            Ok(Facet::MovieListing)
        } else if owned == "episode".to_owned() {
            Ok(Facet::Episode)
        } else {
            Err(Error::decode(text))
        }
    }

    /// Reading what was written gives the facet back: no two facets share a
    /// discriminant.
    pub proof fn lemma_wire_round_trip(self)
        ensures
            Facet::spec_from_wire(self.wire()) == Some(self),
    {
        reveal_strlit("top_results");
        reveal_strlit("series");
        reveal_strlit("movie_listing");
        reveal_strlit("episode");
        assert("top_results"@.len() == 11);
        assert("series"@.len() == 6);
        assert("movie_listing"@.len() == 13);
        assert("episode"@.len() == 7);
    }

    /// A string that reads as a facet is that facet's discriminant.
    pub proof fn lemma_from_wire_sound(text: Seq<char>)
        ensures
            Facet::spec_from_wire(text) matches Some(facet) ==> facet.wire() == text,
    {
    }
}

/// A flat response: the records of one page and the total the source reports.
#[derive(Clone, Debug, PartialEq, Eq)]
pub struct BulkEnvelope<T> {
    pub total: u32,
    pub items: Vec<T>,
}

/// One entry of a multi-facet response.
#[derive(Clone, Debug, PartialEq, Eq)]
pub struct FacetEntry<T> {
    pub discriminant: String,
    pub items: Vec<T>,
    pub total: u32,
}

/// A decoded response, in one of the two shapes the catalog answers in.
#[derive(Clone, Debug, PartialEq, Eq)]
pub enum Envelope<T> {
    Bulk(BulkEnvelope<T>),
    Facets(Vec<FacetEntry<T>>),
}

/// What one fetch hands to the engine.
#[derive(Clone, Debug, PartialEq, Eq)]
pub struct PageResult<T> {
    pub items: Vec<T>,
    pub total: u32,
}

/// A page as plain values.
pub struct PageView<T> {
    pub items: Seq<T>,
    pub total: nat,
}

impl<T> View for PageResult<T> {
    type V = PageView<T>;

    open spec fn view(&self) -> PageView<T> {
        PageView { items: self.items@, total: self.total as nat }
    }
}

impl<T> PageView<T> {
    /// The page of a facet the source said nothing about.
    pub open spec fn empty() -> PageView<T> {
        PageView { items: Seq::empty(), total: 0 }
    }
}

/// Entry `i` carries the discriminant.
pub open spec fn matches_at<T>(entries: Seq<FacetEntry<T>>, discriminant: Seq<char>, i: int) -> bool {
    0 <= i < entries.len() && entries[i].discriminant@ == discriminant
}

/// Some entry carries the discriminant.
pub open spec fn has_facet<T>(entries: Seq<FacetEntry<T>>, discriminant: Seq<char>) -> bool {
    exists|i: int| matches_at(entries, discriminant, i)
}

/// Entry `i` is the first that carries the discriminant.
pub open spec fn is_first_match<T>(
    entries: Seq<FacetEntry<T>>,
    discriminant: Seq<char>,
    i: int,
) -> bool {
    matches_at(entries, discriminant, i) && forall|j: int|
        0 <= j < i ==> !matches_at(entries, discriminant, j)
}

/// The index of the first entry that carries the discriminant.
pub open spec fn first_match<T>(entries: Seq<FacetEntry<T>>, discriminant: Seq<char>) -> int {
    choose|i: int| is_first_match(entries, discriminant, i)
}

/// The page of one facet: the items and total of the first entry tagged with
/// the discriminant, and the empty page with total 0 where there is none.
pub open spec fn extracted<T>(entries: Seq<FacetEntry<T>>, discriminant: Seq<char>) -> PageView<T> {
    if has_facet(entries, discriminant) {
        let entry = entries[first_match(entries, discriminant)];
        PageView { items: entry.items@, total: entry.total as nat }
    } else {
        PageView::empty()
    }
}

/// At most one entry is the first match.
pub proof fn lemma_first_match_unique<T>(
    entries: Seq<FacetEntry<T>>,
    discriminant: Seq<char>,
    i: int,
)
    requires
        is_first_match(entries, discriminant, i),
    ensures
        has_facet(entries, discriminant),
        first_match(entries, discriminant) == i,
{
    let k = first_match(entries, discriminant);
    assert(is_first_match(entries, discriminant, k));
    if k < i {
        assert(!matches_at(entries, discriminant, k));
    } else if i < k {
        assert(!matches_at(entries, discriminant, i));
    }
}

/// Pulls one facet out of a multi-facet response. An absent facet is the
/// empty page: there is no failure to report.
pub fn extract_facet<T>(entries: Vec<FacetEntry<T>>, discriminant: &str) -> (page: PageResult<T>)
    ensures
        page@ == extracted(entries@, discriminant@),
{
    let mut rest = entries;
    let wanted = discriminant.to_owned();
    let count: usize = rest.len();
    let mut i: usize = 0;
    while i < count
        invariant
            rest@ == entries@,
            count == entries@.len(),
            i <= count,
            wanted@ == discriminant@,
            forall|j: int| 0 <= j < i ==> !matches_at(entries@, discriminant@, j),
        decreases count - i,
    {
        if rest[i].discriminant == wanted {
            proof {
                lemma_first_match_unique(entries@, discriminant@, i as int);
            }
            let entry = rest.remove(i);
            return PageResult { items: entry.items, total: entry.total };
        }
        i += 1;
    }
    PageResult { items: Vec::new(), total: 0 }
}

/// Extraction never fails: a discriminant that no entry carries gives the
/// empty page with total 0.
pub proof fn lemma_absent_facet_is_empty<T>(entries: Seq<FacetEntry<T>>, discriminant: Seq<char>)
    requires
        forall|i: int| 0 <= i < entries.len() ==> entries[i].discriminant@ != discriminant,
    ensures
        extracted(entries, discriminant) == PageView::<T>::empty(),
        extracted(entries, discriminant).items.len() == 0,
        extracted(entries, discriminant).total == 0,
{
}

/// Entries after the first match do not matter.
pub proof fn lemma_first_entry_wins<T>(entries: Seq<FacetEntry<T>>, discriminant: Seq<char>, i: int)
    requires
        is_first_match(entries, discriminant, i),
    ensures
        extracted(entries, discriminant).items == entries[i].items@,
        extracted(entries, discriminant).total == entries[i].total,
{
    lemma_first_match_unique(entries, discriminant, i);
}

} // verus!
