//! The master song list: its entries and the nominal types of their fields.

use crate::date::CalendarDate;
use crate::title::PageTitle;
use vstd::prelude::*;
use vstd::std_specs::convert::FromSpecImpl;

pub mod extractor;
pub mod master_table;

verus! {

/// The code of a genre. Songs are chosen by it.
#[derive(Clone, Debug, PartialEq, Eq, PartialOrd, Ord, Hash)]
pub struct GenreCode(pub String);

impl View for GenreCode {
    type V = Seq<char>;

    open spec fn view(&self) -> Seq<char> {
        self.0@
    }
}

impl DeepView for GenreCode {
    type V = Seq<char>;

    open spec fn deep_view(&self) -> Seq<char> {
        self.0@
    }
}

impl GenreCode {
    /// Wraps `text` as it is.
    pub fn new(text: String) -> (r: Self)
        ensures
            r@ == text@,
    {
        GenreCode(text)
    }

    /// The text inside.
    pub fn as_str(&self) -> (r: &str)
        ensures
            r@ == self@,
    {
        self.0.as_str()
    }

    /// A copy of the text inside.
    pub fn to_string(&self) -> (r: String)
        ensures
            r@ == self@,
    {
        self.0.clone()
    }

    /// Whether the two hold the same text.
    pub fn same(&self, other: &Self) -> (r: bool)
        ensures
            r == (self@ == other@),
    {
        self.0 == other.0
    }

    /// Whether `filter` names this genre.
    pub fn is_in(&self, filter: &Vec<GenreCode>) -> (r: bool)
        ensures
            r == genre_chosen(filter.deep_view(), self@),
    {
        let mut i: usize = 0;
        while i < filter.len()
            invariant
                i <= filter.len(),
                forall|j: int| 0 <= j < i ==> (#[trigger] filter[j])@ != self@,
            decreases filter.len() - i,
        {
            if filter[i].same(self) {
                assert(filter.deep_view()[i as int] == self@);
                return true;
            }
            i = i + 1;
        }
        false
    }
}

impl From<String> for GenreCode {
    fn from(text: String) -> (r: Self) {
        GenreCode(text)
    }
}

impl FromSpecImpl<String> for GenreCode {
    open spec fn obeys_from_spec() -> bool {
        true
    }

    open spec fn from_spec(text: String) -> Self {
        GenreCode(text)
    }
}

/// The title of a song as the list shows it.
#[derive(Clone, Debug)]
pub struct SongTitle(pub String);

impl View for SongTitle {
    type V = Seq<char>;

    open spec fn view(&self) -> Seq<char> {
        self.0@
    }
}

impl DeepView for SongTitle {
    type V = Seq<char>;

    open spec fn deep_view(&self) -> Seq<char> {
        self.0@
    }
}

impl SongTitle {
    /// Wraps `text` as it is.
    pub fn new(text: String) -> (r: Self)
        ensures
            r@ == text@,
    {
        SongTitle(text)
    }

    /// The text inside.
    pub fn as_str(&self) -> (r: &str)
        ensures
            r@ == self@,
    {
        self.0.as_str()
    }

    /// A copy of the text inside.
    pub fn to_string(&self) -> (r: String)
        ensures
            r@ == self@,
    {
        self.0.clone()
    }

    /// A copy that holds the same text.
    pub fn duplicate(&self) -> (r: Self)
        ensures
            r@ == self@,
    {
        SongTitle(self.0.clone())
    }
}

impl From<String> for SongTitle {
    fn from(text: String) -> (r: Self) {
        SongTitle(text)
    }
}

impl FromSpecImpl<String> for SongTitle {
    open spec fn obeys_from_spec() -> bool {
        true
    }

    open spec fn from_spec(text: String) -> Self {
        SongTitle(text)
    }
}

/// The artist of a song.
#[derive(Debug)]
pub struct Artist(pub String);

impl View for Artist {
    type V = Seq<char>;

    open spec fn view(&self) -> Seq<char> {
        self.0@
    }
}

impl DeepView for Artist {
    type V = Seq<char>;

    open spec fn deep_view(&self) -> Seq<char> {
        self.0@
    }
}

impl Artist {
    /// Wraps `text` as it is.
    pub fn new(text: String) -> (r: Self)
        ensures
            r@ == text@,
    {
        Artist(text)
    }

    /// The text inside.
    pub fn as_str(&self) -> (r: &str)
        ensures
            r@ == self@,
    {
        self.0.as_str()
    }

    /// A copy of the text inside.
    pub fn to_string(&self) -> (r: String)
        ensures
            r@ == self@,
    {
        self.0.clone()
    }
}

impl From<String> for Artist {
    fn from(text: String) -> (r: Self) {
        Artist(text)
    }
}

impl FromSpecImpl<String> for Artist {
    open spec fn obeys_from_spec() -> bool {
        true
    }

    open spec fn from_spec(text: String) -> Self {
        Artist(text)
    }
}

/// The record or other material on which a song first appeared.
#[derive(Debug)]
pub struct FirstAppearanceMaterial(pub String);

impl View for FirstAppearanceMaterial {
    type V = Seq<char>;

    open spec fn view(&self) -> Seq<char> {
        self.0@
    }
}

impl DeepView for FirstAppearanceMaterial {
    type V = Seq<char>;

    open spec fn deep_view(&self) -> Seq<char> {
        self.0@
    }
}

impl FirstAppearanceMaterial {
    /// Wraps `text` as it is.
    pub fn new(text: String) -> (r: Self)
        ensures
            r@ == text@,
    {
        FirstAppearanceMaterial(text)
    }

    /// The text inside.
    pub fn as_str(&self) -> (r: &str)
        ensures
            r@ == self@,
    {
        self.0.as_str()
    }

    /// A copy of the text inside.
    pub fn to_string(&self) -> (r: String)
        ensures
            r@ == self@,
    {
        self.0.clone()
    }
}

impl From<String> for FirstAppearanceMaterial {
    fn from(text: String) -> (r: Self) {
        FirstAppearanceMaterial(text)
    }
}

impl FromSpecImpl<String> for FirstAppearanceMaterial {
    open spec fn obeys_from_spec() -> bool {
        true
    }

    open spec fn from_spec(text: String) -> Self {
        FirstAppearanceMaterial(text)
    }
}

/// The day on which a song first appeared; `None` where the list does not
/// know it.
#[derive(Clone, Copy, Debug, PartialEq, Eq, Structural)]
pub struct FirstAppearanceDate(pub Option<CalendarDate>);

impl View for FirstAppearanceDate {
    type V = Option<CalendarDate>;

    open spec fn view(&self) -> Option<CalendarDate> {
        self.0
    }
}

impl FirstAppearanceDate {
    /// Wraps `date` as it is.
    pub fn new(date: Option<CalendarDate>) -> (r: Self)
        ensures
            r@ == date,
    {
        FirstAppearanceDate(date)
    }

    /// The date inside, if it is known.
    pub fn get(&self) -> (r: Option<CalendarDate>)
        ensures
            r == self@,
    {
        self.0
    }
}

impl From<Option<CalendarDate>> for FirstAppearanceDate {
    fn from(date: Option<CalendarDate>) -> (r: Self) {
        FirstAppearanceDate(date)
    }
}

impl FromSpecImpl<Option<CalendarDate>> for FirstAppearanceDate {
    open spec fn obeys_from_spec() -> bool {
        true
    }

    open spec fn from_spec(date: Option<CalendarDate>) -> Self {
        FirstAppearanceDate(date)
    }
}

/// Whether one of the genres of `filter` is `genre`.
pub open spec fn genre_chosen(filter: Seq<Seq<char>>, genre: Seq<char>) -> bool {
    exists|i: int| 0 <= i < filter.len() && filter[i] == genre
}

/// One entry of the song list.
#[derive(Debug)]
pub struct Song {
    pub genre: GenreCode,
    pub title: SongTitle,
    pub artist: Artist,
    pub link: PageTitle,
    pub date: FirstAppearanceDate,
    pub material: FirstAppearanceMaterial,
}

/// A `Song` with its texts as sequences of characters.
pub ghost struct SongModel {
    pub genre: Seq<char>,
    pub title: Seq<char>,
    pub artist: Seq<char>,
    pub link: Seq<char>,
    pub date: Option<CalendarDate>,
    pub material: Seq<char>,
}

impl View for Song {
    type V = SongModel;

    open spec fn view(&self) -> SongModel {
        SongModel {
            genre: self.genre@,
            title: self.title@,
            artist: self.artist@,
            link: self.link@,
            date: self.date@,
            material: self.material@,
        }
    }
}

impl DeepView for Song {
    type V = SongModel;

    open spec fn deep_view(&self) -> SongModel {
        self.view()
    }
}

/// The song list, in the order of the page.
#[derive(Debug)]
pub struct List {
    pub songs: Vec<Song>,
}

impl View for List {
    type V = Seq<SongModel>;

    open spec fn view(&self) -> Seq<SongModel> {
        self.songs.deep_view()
    }
}

/// The positions in `songs` of the entries whose genre `filter` names, in
/// ascending order.
pub open spec fn chosen_positions(songs: Seq<SongModel>, filter: Seq<Seq<char>>) -> Seq<int>
    decreases songs.len(),
{
    if songs.len() == 0 {
        Seq::empty()
    } else {
        let before = chosen_positions(songs.drop_last(), filter);
        if genre_chosen(filter, songs.last().genre) {
            before.push(songs.len() - 1)
        } else {
            before
        }
    }
}

impl List {
    /// The positions of the songs whose genre `filter` names, in the order
    /// of the list. Every other song is left out.
    pub fn chosen(&self, filter: &Vec<GenreCode>) -> (r: Vec<usize>)
        ensures
            r@.map_values(|p: usize| p as int) == chosen_positions(self@, filter.deep_view()),
            forall|k: int| 0 <= k < r@.len() ==> #[trigger] r@[k] < self.songs.len(),
    {
        let mut out: Vec<usize> = Vec::new();
        let mut i: usize = 0;
        assert(self@.take(0) =~= Seq::<SongModel>::empty());
        assert(out@.map_values(|p: usize| p as int) =~= Seq::<int>::empty());
        while i < self.songs.len()
            invariant
                i <= self.songs.len(),
                out@.map_values(|p: usize| p as int) == chosen_positions(
                    self@.take(i as int),
                    filter.deep_view(),
                ),
                forall|k: int| 0 <= k < out@.len() ==> #[trigger] out@[k] < i,
            decreases self.songs.len() - i,
        {
            let ghost before = out@;
            let ghost next = self@.take(i + 1);
            assert(next.drop_last() =~= self@.take(i as int));
            assert(next.last() == self.songs[i as int]@);
            if self.songs[i].genre.is_in(filter) {
                out.push(i);
                assert(out@.map_values(|p: usize| p as int) =~= before.map_values(
                    |p: usize| p as int,
                ).push(i as int));
            }
            i = i + 1;
        }
        assert(self@.take(i as int) =~= self@);
        out
    }
}

} // verus!
