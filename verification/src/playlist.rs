//! A playlist: an ordered list of library items the player steps through.

use vstd::prelude::*;

use crate::library::LibraryItem;
use crate::library::items_equal;
use crate::library::spec_item_eq;

verus! {

/// An ordered list of tracks.
#[derive(Debug)]
pub struct Playlist {
    pub tracks: Vec<LibraryItem>,
}

impl Playlist {
    /// The first position holding an item equal to `item` (same path and
    /// tags), if any.
    pub open spec fn spec_pos(tracks: Seq<LibraryItem>, item: LibraryItem) -> Option<int>
        decreases tracks.len(),
    {
        if tracks.len() == 0 {
            None
        } else if spec_item_eq(tracks[0], item) {
            Some(0)
        } else {
            match Self::spec_pos(tracks.drop_first(), item) {
                Some(i) => Some(i + 1),
                None => None,
            }
        }
    }

    /// An empty playlist.
    pub fn new() -> (r: Self)
        ensures
            r.tracks@ == Seq::<LibraryItem>::empty(),
    {
        Playlist { tracks: Vec::new() }
    }

    /// Append one track.
    pub fn add(&mut self, track: LibraryItem)
        ensures
            final(self).tracks@ == old(self).tracks@.push(track),
    {
        self.tracks.push(track);
    }

    /// The position of the first track equal to `item`, if any.
    pub fn get_pos(&self, item: &LibraryItem) -> (r: Option<usize>)
        ensures
            r == (match Self::spec_pos(self.tracks@, *item) {
                Some(i) => Some(i as usize),
                None => None::<usize>,
            }),
            r matches Some(i) ==> i < self.tracks@.len(),
    {
        let mut i: usize = 0;
        while i < self.tracks.len()
            invariant
                i <= self.tracks@.len(),
                forall|j: int| 0 <= j < i ==> !spec_item_eq(self.tracks@[j], *item),
            decreases self.tracks@.len() - i,
        {
            if items_equal(&self.tracks[i], item) {
                proof {
                    lemma_pos_found(self.tracks@, *item, i as int);
                }
                return Some(i);
            }
            i = i + 1;
        }
        proof {
            lemma_pos_none(self.tracks@, *item);
        }
        None
    }
}

/// A position of `item`, when it exists, is a valid index of a track equal
/// to `item`.
pub proof fn lemma_pos_bounds(tracks: Seq<LibraryItem>, item: LibraryItem)
    ensures
        Playlist::spec_pos(tracks, item) matches Some(i) ==> 0 <= i < tracks.len()
            && spec_item_eq(tracks[i], item),
    decreases tracks.len(),
{
    if tracks.len() > 0 && !spec_item_eq(tracks[0], item) {
        lemma_pos_bounds(tracks.drop_first(), item);
    }
}

/// If every track before `i` differs from `item` and track `i` equals it,
/// then `i` is the first position of `item`.
proof fn lemma_pos_found(tracks: Seq<LibraryItem>, item: LibraryItem, i: int)
    requires
        0 <= i < tracks.len(),
        spec_item_eq(tracks[i], item),
        forall|j: int| 0 <= j < i ==> !spec_item_eq(tracks[j], item),
    ensures
        Playlist::spec_pos(tracks, item) == Some(i),
    decreases i,
{
    if i > 0 {
        lemma_pos_found(tracks.drop_first(), item, i - 1);
    }
}

/// If no track equals `item`, it has no position.
proof fn lemma_pos_none(tracks: Seq<LibraryItem>, item: LibraryItem)
    requires
        forall|j: int| 0 <= j < tracks.len() ==> !spec_item_eq(tracks[j], item),
    ensures
        Playlist::spec_pos(tracks, item) is None,
    decreases tracks.len(),
{
    if tracks.len() > 0 {
        lemma_pos_none(tracks.drop_first(), item);
    }
}

} // verus!
