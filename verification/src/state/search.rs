//! The search store: what the daemon found for the last query.
use vstd::prelude::*;

use super::library::{AlbumBrief, ArtistBrief, SongBrief};

verus! {

/// How many results of each kind a search asks the daemon for.
pub const SEARCH_LIMIT: u32 = 100;

/// What the daemon found for a query.
#[derive(Debug, Clone, PartialEq, Eq)]
pub struct SearchResult {
    pub songs: Vec<SongBrief>,
    pub albums: Vec<AlbumBrief>,
    pub artists: Vec<ArtistBrief>,
}

impl Default for SearchResult {
    /// Nothing found.
    fn default() -> (r: Self)
        ensures
            r.songs@.len() == 0,
            r.albums@.len() == 0,
            r.artists@.len() == 0,
    {
        SearchResult { songs: Vec::new(), albums: Vec::new(), artists: Vec::new() }
    }
}

impl SearchResult {
    /// The number of results of all kinds.
    pub open spec fn spec_len(&self) -> nat {
        self.songs@.len() + self.albums@.len() + self.artists@.len()
    }

    /// The number of results of all kinds (capped at `usize::MAX`, which
    /// lists in memory never reach).
    pub fn len(&self) -> (r: usize)
        ensures
            r == if self.spec_len() > usize::MAX {
                usize::MAX as nat
            } else {
                self.spec_len()
            },
    {
        let a = self.songs.len();
        let b = self.albums.len();
        let c = self.artists.len();
        if a > usize::MAX - b {
            return usize::MAX;
        }
        let ab = a + b;
        if ab > usize::MAX - c {
            return usize::MAX;
        }
        ab + c
    }

    /// Whether nothing was found.
    pub fn is_empty(&self) -> (r: bool)
        ensures
            r == (self.spec_len() == 0),
    {
        self.songs.len() == 0 && self.albums.len() == 0 && self.artists.len() == 0
    }
}

/// The search store.
#[derive(Debug, Clone, Copy)]
pub struct SearchState;

impl SearchState {
    /// The request a query from the interface becomes: the query, and how
    /// many results of each kind to find.
    pub fn search_request(query: String) -> (r: (String, u32))
        ensures
            r.0 == query,
            r.1 == SEARCH_LIMIT,
    {
        (query, SEARCH_LIMIT)
    }
}

} // verus!
