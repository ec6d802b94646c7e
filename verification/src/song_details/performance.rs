//! One live performance of a song, and the nominal types of its fields.

use crate::date::CalendarDate;
use vstd::prelude::*;
use vstd::std_specs::convert::FromSpecImpl;

verus! {

/// The day of a performance. It is always known.
#[derive(Clone, Copy, Debug, PartialEq, Eq, Structural)]
pub struct Date(pub CalendarDate);

impl View for Date {
    type V = CalendarDate;

    open spec fn view(&self) -> CalendarDate {
        self.0
    }
}

impl Date {
    /// Wraps `date` as it is.
    pub fn new(date: CalendarDate) -> (r: Self)
        ensures
            r@ == date,
    {
        Date(date)
    }

    /// The calendar date inside.
    pub fn get(&self) -> (r: CalendarDate)
        ensures
            r == self@,
    {
        self.0
    }
}

impl From<CalendarDate> for Date {
    fn from(date: CalendarDate) -> (r: Self) {
        Date(date)
    }
}

impl FromSpecImpl<CalendarDate> for Date {
    open spec fn obeys_from_spec() -> bool {
        true
    }

    open spec fn from_spec(date: CalendarDate) -> Self {
        Date(date)
    }
}

/// The kind of a performance, as the page words it.
#[derive(Debug)]
pub struct Kind(pub String);

impl View for Kind {
    type V = Seq<char>;

    open spec fn view(&self) -> Seq<char> {
        self.0@
    }
}

impl DeepView for Kind {
    type V = Seq<char>;

    open spec fn deep_view(&self) -> Seq<char> {
        self.0@
    }
}

impl Kind {
    /// Wraps `text` as it is.
    pub fn new(text: String) -> (r: Self)
        ensures
            r@ == text@,
    {
        Kind(text)
    }

    /// The text inside.
    pub fn as_str(&self) -> (r: &str)
        ensures
            r@ == self@,
    {
        self.0.as_str()
    }

    /// A copy of the text inside.
    pub fn to_string(&self) -> (r: String)
        ensures
            r@ == self@,
    {
        self.0.clone()
    }

    /// Whether the two hold the same text.
    pub fn same(&self, other: &Self) -> (r: bool)
        ensures
            r == (self@ == other@),
    {
        self.0 == other.0
    }
}

impl From<String> for Kind {
    fn from(text: String) -> (r: Self) {
        Kind(text)
    }
}

impl FromSpecImpl<String> for Kind {
    open spec fn obeys_from_spec() -> bool {
        true
    }

    open spec fn from_spec(text: String) -> Self {
        Kind(text)
    }
}

/// The name of the concert.
#[derive(Debug)]
pub struct ConcertName(pub String);

impl View for ConcertName {
    type V = Seq<char>;

    open spec fn view(&self) -> Seq<char> {
        self.0@
    }
}

impl DeepView for ConcertName {
    type V = Seq<char>;

    open spec fn deep_view(&self) -> Seq<char> {
        self.0@
    }
}

impl ConcertName {
    /// Wraps `text` as it is.
    pub fn new(text: String) -> (r: Self)
        ensures
            r@ == text@,
    {
        ConcertName(text)
    }

    /// The text inside.
    pub fn as_str(&self) -> (r: &str)
        ensures
            r@ == self@,
    {
        self.0.as_str()
    }

    /// A copy of the text inside.
    pub fn to_string(&self) -> (r: String)
        ensures
            r@ == self@,
    {
        self.0.clone()
    }
}

impl From<String> for ConcertName {
    fn from(text: String) -> (r: Self) {
        ConcertName(text)
    }
}

impl FromSpecImpl<String> for ConcertName {
    open spec fn obeys_from_spec() -> bool {
        true
    }

    open spec fn from_spec(text: String) -> Self {
        ConcertName(text)
    }
}

/// The place of the concert.
#[derive(Debug)]
pub struct Venue(pub String);

impl View for Venue {
    type V = Seq<char>;

    open spec fn view(&self) -> Seq<char> {
        self.0@
    }
}

impl DeepView for Venue {
    type V = Seq<char>;

    open spec fn deep_view(&self) -> Seq<char> {
        self.0@
    }
}

impl Venue {
    /// Wraps `text` as it is.
    pub fn new(text: String) -> (r: Self)
        ensures
            r@ == text@,
    {
        Venue(text)
    }

    /// The text inside.
    pub fn as_str(&self) -> (r: &str)
        ensures
            r@ == self@,
    {
        self.0.as_str()
    }

    /// A copy of the text inside.
    pub fn to_string(&self) -> (r: String)
        ensures
            r@ == self@,
    {
        self.0.clone()
    }
}

impl From<String> for Venue {
    fn from(text: String) -> (r: Self) {
        Venue(text)
    }
}

impl FromSpecImpl<String> for Venue {
    open spec fn obeys_from_spec() -> bool {
        true
    }

    open spec fn from_spec(text: String) -> Self {
        Venue(text)
    }
}

/// One performer. No structure of name and role is defined.
#[derive(Debug)]
pub struct Performer(pub String);

impl View for Performer {
    type V = Seq<char>;

    open spec fn view(&self) -> Seq<char> {
        self.0@
    }
}

impl DeepView for Performer {
    type V = Seq<char>;

    open spec fn deep_view(&self) -> Seq<char> {
        self.0@
    }
}

impl Performer {
    /// Wraps `text` as it is.
    pub fn new(text: String) -> (r: Self)
        ensures
            r@ == text@,
    {
        Performer(text)
    }

    /// The text inside.
    pub fn as_str(&self) -> (r: &str)
        ensures
            r@ == self@,
    {
        self.0.as_str()
    }

    /// A copy of the text inside.
    pub fn to_string(&self) -> (r: String)
        ensures
            r@ == self@,
    {
        self.0.clone()
    }
}

impl From<String> for Performer {
    fn from(text: String) -> (r: Self) {
        Performer(text)
    }
}

impl FromSpecImpl<String> for Performer {
    open spec fn obeys_from_spec() -> bool {
        true
    }

    open spec fn from_spec(text: String) -> Self {
        Performer(text)
    }
}

/// One performance: what a pair of rows of the detail table says.
#[derive(Debug)]
pub struct Performance {
    pub date: Date,
    pub kind: Kind,
    pub concert_name: ConcertName,
    pub venue: Venue,
    pub performers: Vec<Performer>,
}

/// A `Performance` with its texts as sequences of characters.
pub ghost struct PerformanceModel {
    pub date: CalendarDate,
    pub kind: Seq<char>,
    pub concert_name: Seq<char>,
    pub venue: Seq<char>,
    pub performers: Seq<Seq<char>>,
}

impl View for Performance {
    type V = PerformanceModel;

    open spec fn view(&self) -> PerformanceModel {
        PerformanceModel {
            date: self.date@,
            kind: self.kind@,
            concert_name: self.concert_name@,
            venue: self.venue@,
            performers: self.performers.deep_view(),
        }
    }
}

impl DeepView for Performance {
    type V = PerformanceModel;

    open spec fn deep_view(&self) -> PerformanceModel {
        self.view()
    }
}

} // verus!
