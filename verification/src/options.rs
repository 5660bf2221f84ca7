//! Browse options and their compilation into an ordered filter list.
//!
//! Every option but the sort order is left out of the list while it is unset.
//! The sort order is always written: unset, it is written as
//! [`DEFAULT_SORT`](default_sort).

use vstd::prelude::*;
use crate::error::Error;
use crate::locale::Locale;

verus! {

/// One compiled filter: a key and its value, as sequences of characters.
pub type FilterView = (Seq<char>, Seq<char>);

/// How browse results are ordered.
#[derive(Clone, Copy, Debug, PartialEq, Eq, Structural)]
pub enum BrowseSortType {
    Popularity,
    NewlyAdded,
    Alphabetical,
}

impl BrowseSortType {
    pub open spec fn wire(self) -> Seq<char> {
        match self {
            BrowseSortType::Popularity => "popularity"@,
            BrowseSortType::NewlyAdded => "newly_added"@,
            BrowseSortType::Alphabetical => "alphabetical"@,
        }
    }

    pub open spec fn spec_from_wire(text: Seq<char>) -> Option<BrowseSortType> {
        if text == "popularity"@ {
            Some(BrowseSortType::Popularity)
        } else if text == "newly_added"@ {
            Some(BrowseSortType::NewlyAdded)
        } else if text == "alphabetical"@ {
            Some(BrowseSortType::Alphabetical)
        } else {
            None
        }
    }

    pub fn as_str(&self) -> (text: &'static str)
        ensures
            text@ == self.wire(),
    {
        match self {
            BrowseSortType::Popularity => "popularity",
            BrowseSortType::NewlyAdded => "newly_added",
            BrowseSortType::Alphabetical => "alphabetical",
        }
    }

    /// Reads a sort order. An unknown string is a decode failure that carries
    /// the string.
    pub fn from_wire(text: &str) -> (r: Result<BrowseSortType, Error>)
        ensures
            match BrowseSortType::spec_from_wire(text@) {
                Some(sort) => r == Ok::<BrowseSortType, Error>(sort),
                None => r is Err && r->Err_0.is_decode_of(text@),
            },
    {
        let owned = text.to_owned();
        if owned == "popularity".to_owned() {
            Ok(BrowseSortType::Popularity)
        } else if owned == "newly_added".to_owned() {
            Ok(BrowseSortType::NewlyAdded)
        } else if owned == "alphabetical".to_owned() {
            Ok(BrowseSortType::Alphabetical)
        } else {
            Err(Error::decode(text))
        }
    }

    /// Reading what was written gives the sort order back.
    pub proof fn lemma_wire_round_trip(self)
        ensures
            BrowseSortType::spec_from_wire(self.wire()) == Some(self),
    {
        reveal_strlit("popularity");
        reveal_strlit("newly_added");
        reveal_strlit("alphabetical");
        assert("popularity"@.len() == 10);
        assert("newly_added"@.len() == 11);
        assert("alphabetical"@.len() == 12);
    }

    /// A string that reads as a sort order is that order's wire form.
    pub proof fn lemma_from_wire_sound(text: Seq<char>)
        ensures
            BrowseSortType::spec_from_wire(text) matches Some(sort) ==> sort.wire() == text,
    {
    }
}

/// The sort order that is compiled when the caller chose none.
pub open spec fn default_sort() -> BrowseSortType {
    BrowseSortType::NewlyAdded
}

impl Default for BrowseSortType {
    fn default() -> (sort: BrowseSortType)
        ensures
            sort == default_sort(),
    {
        BrowseSortType::NewlyAdded
    }
}

/// The kind of title a browse is narrowed to.
#[derive(Clone, Copy, Debug, PartialEq, Eq, Structural)]
pub enum MediaType {
    Series,
    MovieListing,
}

impl MediaType {
    pub open spec fn wire(self) -> Seq<char> {
        match self {
            MediaType::Series => "series"@,
            MediaType::MovieListing => "movie_listing"@,
        }
    }

    pub open spec fn spec_from_wire(text: Seq<char>) -> Option<MediaType> {
        if text == "series"@ {
            Some(MediaType::Series)
        } else if text == "movie_listing"@ {
            Some(MediaType::MovieListing)
        } else {
            None
        }
    }

    pub fn as_str(&self) -> (text: &'static str)
        ensures
            text@ == self.wire(),
    {
        match self {
            MediaType::Series => "series",
            MediaType::MovieListing => "movie_listing",
        }
    }

    /// Reads a media type. An unknown string is a decode failure that carries
    /// the string.
    pub fn from_wire(text: &str) -> (r: Result<MediaType, Error>)
        ensures
            match MediaType::spec_from_wire(text@) {
                Some(media) => r == Ok::<MediaType, Error>(media),
                None => r is Err && r->Err_0.is_decode_of(text@),
            },
    {
        let owned = text.to_owned();
        if owned == "series".to_owned() {
            Ok(MediaType::Series)
        } else if owned == "movie_listing".to_owned() {
            Ok(MediaType::MovieListing)
        } else {
            Err(Error::decode(text))
        }
    }

    /// Reading what was written gives the media type back.
    pub proof fn lemma_wire_round_trip(self)
        ensures
            MediaType::spec_from_wire(self.wire()) == Some(self),
    {
        reveal_strlit("series");
        reveal_strlit("movie_listing");
        assert("series"@.len() == 6);
        assert("movie_listing"@.len() == 13);
    }

    /// A string that reads as a media type is that type's wire form.
    pub proof fn lemma_from_wire_sound(text: Seq<char>)
        ensures
            MediaType::spec_from_wire(text) matches Some(media) ==> media.wire() == text,
    {
    }
}

/// A category identifier, passed to the catalog as it is.
#[derive(Clone, Debug, PartialEq, Eq)]
pub struct Category {
    pub id: String,
}

impl View for Category {
    type V = Seq<char>;

    open spec fn view(&self) -> Seq<char> {
        self.id@
    }
}

impl Category {
    pub fn new(id: &str) -> (category: Category)
        ensures
            category@ == id@,
    {
        Category { id: id.to_owned() }
    }
}

/// The identifiers of a list of categories, in order.
pub open spec fn category_ids(categories: Seq<Category>) -> Seq<Seq<char>> {
    categories.map_values(|category: Category| category@)
}

/// What a caller may narrow a browse by. A field that is `None` (for the
/// categories: empty) was not set.
///
/// | field | key | unset |
/// |---|---|---|
/// | `categories` | `categories`, once per category | no entry |
/// | `is_dubbed` | `is_dubbed` | no entry |
/// | `is_subbed` | `is_subbed` | no entry |
/// | `simulcast_season` | `season_tag` | no entry |
/// | `sort` | `sort` | written as `newly_added` |
/// | `media_type` | `type` | no entry |
/// | `preferred_audio_language` | `preferred_audio_language` | no entry |
#[derive(Clone, Debug, PartialEq, Eq)]
pub struct BrowseOptions {
    pub categories: Vec<Category>,
    pub is_dubbed: Option<bool>,
    pub is_subbed: Option<bool>,
    pub simulcast_season: Option<String>,
    pub sort: Option<BrowseSortType>,
    pub media_type: Option<MediaType>,
    pub preferred_audio_language: Option<Locale>,
}

/// The option set as plain values.
pub struct BrowseOptionsView {
    pub categories: Seq<Seq<char>>,
    pub is_dubbed: Option<bool>,
    pub is_subbed: Option<bool>,
    pub simulcast_season: Option<Seq<char>>,
    pub sort: Option<BrowseSortType>,
    pub media_type: Option<MediaType>,
    pub preferred_audio_language: Option<Locale>,
}

/// How a flag is written.
pub open spec fn flag_wire(flag: bool) -> Seq<char> {
    if flag {
        "true"@
    } else {
        "false"@
    }
}

/// The entries of an option that is written only when set.
pub open spec fn optional_entry(key: Seq<char>, value: Option<Seq<char>>) -> Seq<FilterView> {
    match value {
        Some(text) => seq![(key, text)],
        None => Seq::empty(),
    }
}

impl BrowseOptionsView {
    /// One entry per category, in list order.
    pub open spec fn category_entries(self) -> Seq<FilterView> {
        self.categories.map_values(|id: Seq<char>| ("categories"@, id))
    }

    /// The sort order that is written: the caller's, else the default.
    pub open spec fn effective_sort(self) -> BrowseSortType {
        match self.sort {
            Some(sort) => sort,
            None => default_sort(),
        }
    }

    /// Everything that follows the category entries.
    pub open spec fn scalar_entries(self) -> Seq<FilterView> {
        optional_entry(
            "is_dubbed"@,
            match self.is_dubbed {
                Some(flag) => Some(flag_wire(flag)),
                None => None,
            },
        ) + optional_entry(
            "is_subbed"@,
            match self.is_subbed {
                Some(flag) => Some(flag_wire(flag)),
                None => None,
            },
        ) + optional_entry("season_tag"@, self.simulcast_season) + seq![
            ("sort"@, self.effective_sort().wire()),
        ] + optional_entry(
            "type"@,
            match self.media_type {
                Some(media) => Some(media.wire()),
                None => None,
            },
        ) + optional_entry(
            "preferred_audio_language"@,
            match self.preferred_audio_language {
                Some(locale) => Some(locale.wire()),
                None => None,
            },
        )
    }

    /// The compiled filter list: categories, dubbed, subbed, season, sort,
    /// media type, audio language, in this order.
    pub open spec fn compiled(self) -> Seq<FilterView> {
        self.category_entries() + self.scalar_entries()
    }
}

/// The seven keys, character by character: no two are the same.
pub proof fn lemma_keys_concrete()
    ensures
        "categories"@ == seq!['c', 'a', 't', 'e', 'g', 'o', 'r', 'i', 'e', 's'],
        "is_dubbed"@ == seq!['i', 's', '_', 'd', 'u', 'b', 'b', 'e', 'd'],
        "is_subbed"@ == seq!['i', 's', '_', 's', 'u', 'b', 'b', 'e', 'd'],
        "season_tag"@ == seq!['s', 'e', 'a', 's', 'o', 'n', '_', 't', 'a', 'g'],
        "sort"@ == seq!['s', 'o', 'r', 't'],
        "type"@ == seq!['t', 'y', 'p', 'e'],
        "preferred_audio_language"@ == seq![
            'p', 'r', 'e', 'f', 'e', 'r', 'r', 'e', 'd', '_', 'a', 'u', 'd', 'i', 'o', '_', 'l',
            'a', 'n', 'g', 'u', 'a', 'g', 'e',
        ],
{
    reveal_strlit("categories");
    reveal_strlit("is_dubbed");
    reveal_strlit("is_subbed");
    reveal_strlit("season_tag");
    reveal_strlit("sort");
    reveal_strlit("type");
    reveal_strlit("preferred_audio_language");
    assert("categories"@ =~= seq!['c', 'a', 't', 'e', 'g', 'o', 'r', 'i', 'e', 's']);
    assert("is_dubbed"@ =~= seq!['i', 's', '_', 'd', 'u', 'b', 'b', 'e', 'd']);
    assert("is_subbed"@ =~= seq!['i', 's', '_', 's', 'u', 'b', 'b', 'e', 'd']);
    assert("season_tag"@ =~= seq!['s', 'e', 'a', 's', 'o', 'n', '_', 't', 'a', 'g']);
    assert("sort"@ =~= seq!['s', 'o', 'r', 't']);
    assert("type"@ =~= seq!['t', 'y', 'p', 'e']);
    assert("preferred_audio_language"@ =~= seq![
        'p', 'r', 'e', 'f', 'e', 'r', 'r', 'e', 'd', '_', 'a', 'u', 'd', 'i', 'o', '_', 'l',
        'a', 'n', 'g', 'u', 'a', 'g', 'e',
    ]);
}

impl BrowseOptionsView {
    /// The option set in which nothing was set.
    pub open spec fn unset() -> BrowseOptionsView {
        BrowseOptionsView {
            categories: Seq::empty(),
            is_dubbed: None,
            is_subbed: None,
            simulcast_season: None,
            sort: None,
            media_type: None,
            preferred_audio_language: None,
        }
    }

    /// Where the sort entry stands: behind the categories and behind those of
    /// dubbed, subbed and season that were set.
    pub open spec fn sort_index(self) -> int {
        self.categories.len() + (if self.is_dubbed is Some {
            1int
        } else {
            0int
        }) + (if self.is_subbed is Some {
            1int
        } else {
            0int
        }) + (if self.simulcast_season is Some {
            1int
        } else {
            0int
        })
    }

    /// The sort entry is always compiled, once: at its place stands the
    /// caller's sort order, or the default where the caller set none, and no
    /// other entry has the key `sort`.
    pub proof fn lemma_sort_always_compiled(self)
        ensures
            0 <= self.sort_index() < self.compiled().len(),
            self.compiled()[self.sort_index()] == ("sort"@, self.effective_sort().wire()),
            self.sort is None ==> self.compiled()[self.sort_index()] == ("sort"@, "newly_added"@),
            forall|i: int|
                0 <= i < self.compiled().len() && i != self.sort_index()
                    ==> #[trigger] self.compiled()[i].0 != "sort"@,
    {
        lemma_keys_concrete();
    }

    /// The categories compile to one entry each, in list order, at the head
    /// of the list, and no entry behind them has the key `categories`. With
    /// no category there is no such entry at all.
    pub proof fn lemma_categories_compile_in_order(self)
        ensures
            self.categories.len() <= self.compiled().len(),
            forall|i: int|
                0 <= i < self.categories.len() ==> #[trigger] self.compiled()[i] == (
                    "categories"@,
                    self.categories[i],
                ),
            forall|i: int|
                self.categories.len() <= i < self.compiled().len()
                    ==> #[trigger] self.compiled()[i].0 != "categories"@,
    {
        lemma_keys_concrete();
    }

    /// An option that is unset, other than the sort order, leaves no entry.
    pub proof fn lemma_unset_options_are_left_out(self)
        ensures
            self.is_dubbed is None ==> forall|i: int|
                0 <= i < self.compiled().len() ==> #[trigger] self.compiled()[i].0
                    != "is_dubbed"@,
            self.is_subbed is None ==> forall|i: int|
                0 <= i < self.compiled().len() ==> #[trigger] self.compiled()[i].0
                    != "is_subbed"@,
            self.simulcast_season is None ==> forall|i: int|
                0 <= i < self.compiled().len() ==> #[trigger] self.compiled()[i].0
                    != "season_tag"@,
            self.media_type is None ==> forall|i: int|
                0 <= i < self.compiled().len() ==> #[trigger] self.compiled()[i].0 != "type"@,
            self.preferred_audio_language is None ==> forall|i: int|
                0 <= i < self.compiled().len() ==> #[trigger] self.compiled()[i].0
                    != "preferred_audio_language"@,
            BrowseOptionsView::unset().compiled() == seq![("sort"@, "newly_added"@)],
    {
        lemma_keys_concrete();
        assert(BrowseOptionsView::unset().compiled() =~= seq![("sort"@, "newly_added"@)]);
    }
}

impl View for BrowseOptions {
    type V = BrowseOptionsView;

    open spec fn view(&self) -> BrowseOptionsView {
        BrowseOptionsView {
            categories: category_ids(self.categories@),
            is_dubbed: self.is_dubbed,
            is_subbed: self.is_subbed,
            simulcast_season: match self.simulcast_season {
                Some(tag) => Some(tag@),
                None => None,
            },
            sort: self.sort,
            media_type: self.media_type,
            preferred_audio_language: self.preferred_audio_language,
        }
    }
}

/// Appends one entry to a filter list.
pub(crate) fn push_entry(list: &mut Vec<(String, String)>, key: &str, value: &str)
    ensures
        final(list).deep_view() == old(list).deep_view().push((key@, value@)),
{
    list.push((key.to_owned(), value.to_owned()));
    assert(list.deep_view() =~= old(list).deep_view().push((key@, value@)));
}

fn flag_str(flag: bool) -> (text: &'static str)
    ensures
        text@ == flag_wire(flag),
{
    if flag {
        "true"
    } else {
        "false"
    }
}

/// Compiling is a function of the option values alone: two option sets with
/// the same values compile to the same list, entry for entry and character
/// for character, whatever lists the two were compiled into.
pub proof fn lemma_compile_deterministic(
    a: BrowseOptions,
    b: BrowseOptions,
    list_a: Vec<(String, String)>,
    list_b: Vec<(String, String)>,
)
    requires
        a@ == b@,
        list_a.deep_view() == a@.compiled(),
        list_b.deep_view() == b@.compiled(),
    ensures
        list_a.deep_view() == list_b.deep_view(),
        list_a@.len() == list_b@.len(),
        forall|i: int|
            0 <= i < list_a@.len() ==> (#[trigger] list_a@[i]).0@ == list_b@[i].0@ && list_a@[i].1@
                == list_b@[i].1@,
{
    assert(list_a.deep_view().len() == list_a@.len());
    assert(list_b.deep_view().len() == list_b@.len());
    assert forall|i: int| 0 <= i < list_a@.len() implies (#[trigger] list_a@[i]).0@
        == list_b@[i].0@ && list_a@[i].1@ == list_b@[i].1@ by {
        assert(list_a.deep_view()[i] == (list_a@[i].0@, list_a@[i].1@));
        assert(list_b.deep_view()[i] == (list_b@[i].0@, list_b@[i].1@));
    }
}

impl Default for BrowseOptions {
    /// The option set in which nothing was set.
    fn default() -> (options: BrowseOptions)
        ensures
            options@ == BrowseOptionsView::unset(),
    {
        BrowseOptions::new()
    }
}

impl BrowseOptions {
    /// The option set in which nothing was set.
    pub fn new() -> (options: BrowseOptions)
        ensures
            options@ == BrowseOptionsView::unset(),
    {
        assert(category_ids(Seq::<Category>::empty()) =~= Seq::<Seq<char>>::empty());
        BrowseOptions {
            categories: Vec::new(),
            is_dubbed: None,
            is_subbed: None,
            simulcast_season: None,
            sort: None,
            media_type: None,
            preferred_audio_language: None,
        }
    }

    /// Specifies the categories of the entries.
    pub fn categories(self, value: Vec<Category>) -> (options: BrowseOptions)
        ensures
            options@ == (BrowseOptionsView { categories: category_ids(value@), ..self@ }),
    {
        let mut options = self;
        options.categories = value;
        options
    }

    /// Specifies whether the entries should be dubbed.
    pub fn is_dubbed(self, value: bool) -> (options: BrowseOptions)
        ensures
            options@ == (BrowseOptionsView { is_dubbed: Some(value), ..self@ }),
    {
        let mut options = self;
        options.is_dubbed = Some(value);
        options
    }

    /// Specifies whether the entries should be subbed.
    pub fn is_subbed(self, value: bool) -> (options: BrowseOptions)
        ensures
            options@ == (BrowseOptionsView { is_subbed: Some(value), ..self@ }),
    {
        let mut options = self;
        options.is_subbed = Some(value);
        options
    }

    /// Specifies a particular simulcast season in which the entries should
    /// have been aired.
    pub fn simulcast_season(self, value: String) -> (options: BrowseOptions)
        ensures
            options@ == (BrowseOptionsView { simulcast_season: Some(value@), ..self@ }),
    {
        let mut options = self;
        options.simulcast_season = Some(value);
        options
    }

    /// Specifies how the entries should be sorted.
    pub fn sort(self, value: BrowseSortType) -> (options: BrowseOptions)
        ensures
            options@ == (BrowseOptionsView { sort: Some(value), ..self@ }),
    {
        let mut options = self;
        options.sort = Some(value);
        options
    }

    /// Specifies the media type of the entries.
    pub fn media_type(self, value: MediaType) -> (options: BrowseOptions)
        ensures
            options@ == (BrowseOptionsView { media_type: Some(value), ..self@ }),
    {
        let mut options = self;
        options.media_type = Some(value);
        options
    }

    /// Preferred audio language.
    pub fn preferred_audio_language(self, value: Locale) -> (options: BrowseOptions)
        ensures
            options@ == (BrowseOptionsView { preferred_audio_language: Some(value), ..self@ }),
    {
        let mut options = self;
        options.preferred_audio_language = Some(value);
        options
    }

    /// Compiles the option set into its filter list.
    pub fn into_query(self) -> (list: Vec<(String, String)>)
        ensures
            list.deep_view() == self@.compiled(),
    {
        let mut list: Vec<(String, String)> = Vec::new();
        let count: usize = self.categories.len();
        let mut i: usize = 0;
        assert(list.deep_view() =~= self@.category_entries().take(0));
        while i < count
            invariant
                count == self.categories@.len(),
                i <= count,
                list.deep_view() == self@.category_entries().take(i as int),
            decreases count - i,
        {
            push_entry(&mut list, "categories", self.categories[i].id.as_str());
            assert(list.deep_view() =~= self@.category_entries().take(i + 1));
            i += 1;
        }
        assert(self@.category_entries().take(count as int) =~= self@.category_entries());
        let ghost after_categories = list.deep_view();
        if let Some(flag) = self.is_dubbed {
            push_entry(&mut list, "is_dubbed", flag_str(flag));
        }
        if let Some(flag) = self.is_subbed {
            push_entry(&mut list, "is_subbed", flag_str(flag));
        }
        if let Some(tag) = &self.simulcast_season {
            push_entry(&mut list, "season_tag", tag.as_str());
        }
        let sort: BrowseSortType = match self.sort {
            Some(sort) => sort,
            None => BrowseSortType::default(),
        };
        push_entry(&mut list, "sort", sort.as_str());
        if let Some(media) = self.media_type {
            push_entry(&mut list, "type", media.as_str());
        }
        if let Some(locale) = self.preferred_audio_language {
            push_entry(&mut list, "preferred_audio_language", locale.as_str());
        }
        assert(list.deep_view() =~= after_categories + self@.scalar_entries());
        list
    }
}

} // verus!
