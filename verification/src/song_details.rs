//! The songs with their performance histories.

use crate::song_details::performance::Performance;
use crate::song_details::performance::PerformanceModel;
use crate::song_list::SongTitle;
use vstd::prelude::*;

pub mod extractor;
pub mod live_table;
pub mod performance;

verus! {

/// A song and its performances, in the order of its page.
#[derive(Debug)]
pub struct Song {
    pub title: SongTitle,
    pub performances: Vec<Performance>,
}

/// A `Song` with its texts as sequences of characters.
pub ghost struct SongModel {
    pub title: Seq<char>,
    pub performances: Seq<PerformanceModel>,
}

impl View for Song {
    type V = SongModel;

    open spec fn view(&self) -> SongModel {
        SongModel { title: self.title@, performances: self.performances.deep_view() }
    }
}

} // verus!
