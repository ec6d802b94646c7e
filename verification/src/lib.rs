//! Typed records of songs and of their live performances, read from the
//! loosely structured HTML of a wiki: the extraction of the song list and of
//! the performance histories, a permissive date parser, the naming of the
//! files in which pages are kept, and the pacing and retrying of page
//! fetches.

pub mod date;
pub mod dom;
pub mod error;
pub mod fetch_laws;
pub mod fetcher;
pub mod percent;
pub mod song_details;
pub mod song_list;
pub mod text;
pub mod title;
pub mod title_laws;

pub use crate::date::parse_date_permissive;
pub use crate::fetcher::WikiFetcher;
pub use crate::title::PageTitle;
