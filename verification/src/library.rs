//! The music library: a root directory and the tagged tracks found under
//! it. Source paths are carried as plain `String` values.

use vstd::prelude::*;

use itertools::Itertools;

verus! {

/// One track of the library: its source path and the tag fields read from
/// the file, each optional.
#[derive(Debug)]
pub struct LibraryItem {
    pub path: String,
    pub title: Option<String>,
    pub artist: Option<String>,
    pub album: Option<String>,
    pub year: Option<i32>,
    pub genre: Option<String>,
    pub track_number: Option<u32>,
}

/// The view of an optional string: its character sequence, when present.
pub open spec fn opt_str_view(o: Option<String>) -> Option<Seq<char>> {
    match o {
        Some(s) => Some(s@),
        None => None,
    }
}

/// Whether two items carry the same path and tags, comparing strings by
/// their contents.
pub open spec fn spec_item_eq(a: LibraryItem, b: LibraryItem) -> bool {
    &&& a.path@ == b.path@
    &&& opt_str_view(a.title) == opt_str_view(b.title)
    &&& opt_str_view(a.artist) == opt_str_view(b.artist)
    &&& opt_str_view(a.album) == opt_str_view(b.album)
    &&& a.year == b.year
    &&& opt_str_view(a.genre) == opt_str_view(b.genre)
    &&& a.track_number == b.track_number
}

/// Clone an optional string, keeping the exact value.
fn clone_opt_string(o: &Option<String>) -> (r: Option<String>)
    ensures
        r == *o,
{
    match o {
        Some(s) => Some(s.clone()),
        None => None,
    }
}

/// Whether two optional strings agree, comparing by contents.
fn opt_string_equal(a: &Option<String>, b: &Option<String>) -> (r: bool)
    ensures
        r == (opt_str_view(*a) == opt_str_view(*b)),
{
    match (a, b) {
        (Some(x), Some(y)) => *x == *y,
        (None, None) => true,
        _ => false,
    }
}

impl Clone for LibraryItem {
    /// An exact copy: every contract over the original holds of the clone.
    fn clone(&self) -> (res: Self)
        ensures
            res == *self,
    {
        LibraryItem {
            path: self.path.clone(),
            title: clone_opt_string(&self.title),
            artist: clone_opt_string(&self.artist),
            album: clone_opt_string(&self.album),
            year: self.year,
            genre: clone_opt_string(&self.genre),
            track_number: self.track_number,
        }
    }
}

impl LibraryItem {
    /// A fresh item for a source path, with no tags yet.
    pub fn new(path: String) -> (r: Self)
        ensures
            r == (LibraryItem {
                path,
                title: None,
                artist: None,
                album: None,
                year: None,
                genre: None,
                track_number: None,
            }),
    {
        LibraryItem {
            path,
            title: None,
            artist: None,
            album: None,
            year: None,
            genre: None,
            track_number: None,
        }
    }

    /// The item's source path.
    pub fn path(&self) -> (r: String)
        ensures
            r == self.path,
    {
        self.path.clone()
    }

    /// Set the title when one was read; keep the old one otherwise.
    /// Returns a copy of the updated item.
    pub fn set_title(&mut self, title: Option<&str>) -> (r: Self)
        ensures
            (match title {
                Some(t) => final(self).title matches Some(s) && s@ == t@,
                None => final(self).title == old(self).title,
            }),
            *final(self) == (LibraryItem { title: final(self).title, ..*old(self) }),
            r == *final(self),
    {
        match title {
            Some(t) => {
                self.title = Some(t.to_owned());
            },
            None => {},
        }
        self.clone()
    }

    /// The title, when one is known.
    pub fn title(&self) -> (r: Option<String>)
        ensures
            r == self.title,
    {
        clone_opt_string(&self.title)
    }

    /// Set the artist when one was read; keep the old one otherwise.
    /// Returns a copy of the updated item.
    pub fn set_artist(&mut self, artist: Option<&str>) -> (r: Self)
        ensures
            (match artist {
                Some(a) => final(self).artist matches Some(s) && s@ == a@,
                None => final(self).artist == old(self).artist,
            }),
            *final(self) == (LibraryItem { artist: final(self).artist, ..*old(self) }),
            r == *final(self),
    {
        match artist {
            Some(a) => {
                self.artist = Some(a.to_owned());
            },
            None => {},
        }
        self.clone()
    }

    /// The artist, when one is known.
    pub fn artist(&self) -> (r: Option<String>)
        ensures
            r == self.artist,
    {
        clone_opt_string(&self.artist)
    }

    /// Set the album when one was read; keep the old one otherwise.
    /// Returns a copy of the updated item.
    pub fn set_album(&mut self, album: Option<&str>) -> (r: Self)
        ensures
            (match album {
                Some(a) => final(self).album matches Some(s) && s@ == a@,
                None => final(self).album == old(self).album,
            }),
            *final(self) == (LibraryItem { album: final(self).album, ..*old(self) }),
            r == *final(self),
    {
        match album {
            Some(a) => {
                self.album = Some(a.to_owned());
            },
            None => {},
        }
        self.clone()
    }

    /// The album, when one is known.
    pub fn album(&self) -> (r: Option<String>)
        ensures
            r == self.album,
    {
        clone_opt_string(&self.album)
    }

    /// Set the release year. Returns a copy of the updated item.
    pub fn set_year(&mut self, year: Option<i32>) -> (r: Self)
        ensures
            *final(self) == (LibraryItem { year, ..*old(self) }),
            r == *final(self),
    {
        self.year = year;
        self.clone()
    }

    /// The release year, when one is known.
    pub fn year(&self) -> (r: Option<i32>)
        ensures
            r == self.year,
    {
        self.year
    }

    /// Set the genre when one was read; keep the old one otherwise.
    /// Returns a copy of the updated item.
    pub fn set_genre(&mut self, genre: Option<&str>) -> (r: Self)
        ensures
            (match genre {
                Some(g) => final(self).genre matches Some(s) && s@ == g@,
                None => final(self).genre == old(self).genre,
            }),
            *final(self) == (LibraryItem { genre: final(self).genre, ..*old(self) }),
            r == *final(self),
    {
        match genre {
            Some(g) => {
                self.genre = Some(g.to_owned());
            },
            None => {},
        }
        self.clone()
    }

    /// The genre, when one is known.
    pub fn genre(&self) -> (r: Option<String>)
        ensures
            r == self.genre,
    {
        clone_opt_string(&self.genre)
    }

    /// Set the track number. Returns a copy of the updated item.
    pub fn set_track_number(&mut self, track_number: Option<u32>) -> (r: Self)
        ensures
            *final(self) == (LibraryItem { track_number, ..*old(self) }),
            r == *final(self),
    {
        self.track_number = track_number;
        self.clone()
    }

    /// The track number, when one is known.
    pub fn track_number(&self) -> (r: Option<u32>)
        ensures
            r == self.track_number,
    {
        self.track_number
    }
}

/// Whether two items carry the same path and tags, comparing strings by
/// their contents. Mirrors [`spec_item_eq`].
pub fn items_equal(a: &LibraryItem, b: &LibraryItem) -> (r: bool)
    ensures
        r == spec_item_eq(*a, *b),
{
    let path_eq = a.path == b.path;
    let year_eq = match (a.year, b.year) {
        (Some(x), Some(y)) => x == y,
        (None, None) => true,
        _ => false,
    };
    let track_eq = match (a.track_number, b.track_number) {
        (Some(x), Some(y)) => x == y,
        (None, None) => true,
        _ => false,
    };
    path_eq && year_eq && track_eq && opt_string_equal(&a.title, &b.title) && opt_string_equal(
        &a.artist,
        &b.artist,
    ) && opt_string_equal(&a.album, &b.album) && opt_string_equal(&a.genre, &b.genre)
}

/// The library: its root directory and the items imported so far.
#[derive(Debug)]
pub struct Library {
    pub root_path: String,
    pub items: Vec<LibraryItem>,
}

impl Library {
    /// An empty library rooted at the given directory.
    pub fn new(root_path: String) -> (r: Self)
        ensures
            r.root_path == root_path,
            r.items@ == Seq::<LibraryItem>::empty(),
    {
        Library { root_path, items: Vec::new() }
    }

    /// The root directory.
    pub fn root_path(&self) -> (r: String)
        ensures
            r == self.root_path,
    {
        self.root_path.clone()
    }

    /// A copy of every imported item, in import order.
    pub fn items(&self) -> (r: Vec<LibraryItem>)
        ensures
            r@ == self.items@,
    {
        let mut out: Vec<LibraryItem> = Vec::new();
        let mut i: usize = 0;
        while i < self.items.len()
            invariant
                i <= self.items@.len(),
                out@.len() == i as int,
                forall|j: int| 0 <= j < i ==> out@[j] == self.items@[j],
            decreases self.items@.len() - i,
        {
            out.push(self.items[i].clone());
            i = i + 1;
        }
        proof {
            assert(out@ =~= self.items@);
        }
        out
    }

    /// Append one item to the library.
    pub fn add_item(&mut self, library_item: LibraryItem)
        ensures
            final(self).items@ == old(self).items@.push(library_item),
            final(self).root_path == old(self).root_path,
    {
        self.items.push(library_item);
    }
}

/// A display container: one album's name and the items filed under it.
#[derive(Debug)]
pub struct LibraryItemContainer {
    pub name: String,
    pub items: Vec<LibraryItem>,
}

/// The album name an item is filed under: its album tag, or a placeholder
/// when the tag is missing.
pub open spec fn spec_album_key(item: LibraryItem) -> Seq<char> {
    match item.album {
        Some(a) => a@,
        None => "unknown album"@,
    }
}

/// The album name an item is filed under. Mirrors [`spec_album_key`].
pub fn album_key(item: &LibraryItem) -> (k: String)
    ensures
        k@ == spec_album_key(*item),
{
    match &item.album {
        Some(a) => a.clone(),
        None => "unknown album".to_owned(),
    }
}

/// The concatenated contents of the containers, in order.
pub open spec fn spec_containers_flat(containers: Seq<LibraryItemContainer>) -> Seq<LibraryItem>
    decreases containers.len(),
{
    if containers.len() == 0 {
        Seq::empty()
    } else {
        containers[0].items@ + spec_containers_flat(containers.drop_first())
    }
}

/// Whether items with equal album keys stand consecutively in `s`.
pub open spec fn spec_clustered(s: Seq<LibraryItem>) -> bool {
    forall|i: int, j: int, k: int|
        0 <= i <= j <= k < s.len() && spec_album_key(s[i]) == spec_album_key(s[k])
            ==> spec_album_key(s[j]) == spec_album_key(s[i])
}

/// Well-formed display containers: each is non-empty, each item stands
/// under its album's name, and neighbouring containers carry different
/// names.
pub open spec fn spec_grouped(containers: Seq<LibraryItemContainer>) -> bool {
    &&& forall|i: int| 0 <= i < containers.len() ==> (#[trigger] containers[i]).items@.len() > 0
    &&& forall|i: int, j: int|
        0 <= i < containers.len() && 0 <= j < containers[i].items@.len() ==> spec_album_key(
            #[trigger] containers[i].items@[j],
        ) == containers[i].name@
    &&& forall|i: int|
        0 <= i && i + 1 < containers.len() ==> (#[trigger] containers[i].name@) != containers[i
            + 1].name@
}

/// Relies on `slice::sort_by_key`: it reorders the slice by the keys'
/// `Ord`, keeping exactly the same elements. Stated here: the result is a
/// permutation of the input in which items with equal album keys stand
/// consecutively.
#[verifier::external_body]
fn sort_by_album_key(items: &mut Vec<LibraryItem>)
    ensures
        final(items)@.to_multiset() == old(items)@.to_multiset(),
        final(items)@.len() == old(items)@.len(),
        spec_clustered(final(items)@),
{
    items.sort_by_key(|it| album_key(it));
}

/// Relies on itertools' `chunk_by`: consecutive elements that map to the
/// same key (by `String` equality, which compares contents) are assigned to
/// the same group, and groups come out in input order.
#[verifier::external_body]
fn chunk_by_album_key(items: Vec<LibraryItem>) -> (containers: Vec<LibraryItemContainer>)
    ensures
        spec_containers_flat(containers@) == items@,
        spec_grouped(containers@),
{
    let mut containers: Vec<LibraryItemContainer> = Vec::new();
    let grouped = items.into_iter().chunk_by(|it| album_key(it));
    for (name, chunk) in &grouped {
        containers.push(LibraryItemContainer { name, items: chunk.collect() });
    }
    containers
}

/// File the items into display containers, one album each: every item ends
/// up in exactly one container, under its album's name, each album name
/// appears on exactly one container, and no item is lost, duplicated or
/// altered.
pub fn build_album_containers(items: Vec<LibraryItem>) -> (containers: Vec<LibraryItemContainer>)
    ensures
        spec_containers_flat(containers@).to_multiset() == items@.to_multiset(),
        spec_grouped(containers@),
        forall|i: int, j: int|
            0 <= i < j < containers@.len() ==> (#[trigger] containers@[i].name@) != (
            #[trigger] containers@[j].name@),
{
    let mut sorted = items;
    sort_by_album_key(&mut sorted);
    let containers = chunk_by_album_key(sorted);
    proof {
        lemma_grouped_names_distinct(containers@);
    }
    containers
}

/// Any item of any container has a position in the concatenated contents;
/// for a container after the first, that position lies past the first
/// container's items.
proof fn lemma_flat_locates_item(containers: Seq<LibraryItemContainer>, j: int, l: int)
    requires
        0 <= j < containers.len(),
        0 <= l < containers[j].items@.len(),
    ensures
        exists|p: int|
            0 <= p < spec_containers_flat(containers).len() && spec_containers_flat(containers)[p]
                == containers[j].items@[l] && (j > 0 ==> p >= containers[0].items@.len()),
    decreases j,
{
    let flat = spec_containers_flat(containers);
    let len0: int = containers[0].items@.len() as int;
    let rest = containers.drop_first();
    assert(flat == containers[0].items@ + spec_containers_flat(rest));
    if j == 0 {
        assert(flat[l] == containers[0].items@[l]);
    } else {
        lemma_flat_locates_item(rest, j - 1, l);
        let p0 = choose|p0: int|
            0 <= p0 < spec_containers_flat(rest).len() && spec_containers_flat(rest)[p0] == rest[j
                - 1].items@[l] && (j - 1 > 0 ==> p0 >= rest[0].items@.len());
        assert(flat[len0 + p0] == spec_containers_flat(rest)[p0]);
        assert(rest[j - 1] == containers[j]);
    }
}

/// Well-formed containers whose concatenated contents are clustered carry
/// pairwise different names: splitting one album over two containers would
/// leave equal keys separated by a different one.
proof fn lemma_grouped_names_distinct(containers: Seq<LibraryItemContainer>)
    requires
        spec_grouped(containers),
        spec_clustered(spec_containers_flat(containers)),
    ensures
        forall|i: int, j: int|
            0 <= i < j < containers.len() ==> (#[trigger] containers[i].name@) != (
            #[trigger] containers[j].name@),
    decreases containers.len(),
{
    if containers.len() > 1 {
        let flat = spec_containers_flat(containers);
        let rest = containers.drop_first();
        let rest_flat = spec_containers_flat(rest);
        let len0: int = containers[0].items@.len() as int;
        assert(flat == containers[0].items@ + rest_flat);
        assert(spec_grouped(rest)) by {
            assert(forall|i: int|
                0 <= i < rest.len() ==> (#[trigger] rest[i]) == containers[i + 1]);
        }
        assert(spec_clustered(rest_flat)) by {
            assert forall|i: int, j: int, k: int|
                0 <= i <= j <= k < rest_flat.len() && spec_album_key(rest_flat[i])
                    == spec_album_key(rest_flat[k]) implies spec_album_key(rest_flat[j])
                == spec_album_key(rest_flat[i]) by {
                assert(rest_flat[i] == flat[len0 + i]);
                assert(rest_flat[j] == flat[len0 + j]);
                assert(rest_flat[k] == flat[len0 + k]);
            }
        }
        lemma_grouped_names_distinct(rest);
        assert forall|j: int|
            1 <= j < containers.len() implies (#[trigger] containers[j].name@)
            != containers[0].name@ by {
            if containers[j].name@ == containers[0].name@ {
                lemma_flat_locates_item(containers, j, 0);
                let p = choose|p: int|
                    0 <= p < flat.len() && flat[p] == containers[j].items@[0] && (j > 0 ==> p
                        >= containers[0].items@.len());
                assert(flat[0] == containers[0].items@[0]);
                assert(spec_album_key(flat[0]) == containers[0].name@);
                assert(spec_album_key(flat[p]) == containers[j].name@);
                assert(rest_flat == containers[1].items@ + spec_containers_flat(rest.drop_first()));
                assert(flat[len0] == rest_flat[0]);
                assert(rest_flat[0] == containers[1].items@[0]);
                assert(spec_album_key(flat[len0]) == containers[1].name@);
                assert(spec_album_key(flat[len0]) == spec_album_key(flat[0]));
                assert(containers[1].name@ != containers[0].name@);
                assert(false);
            }
        }
        assert forall|i: int, j: int|
            0 <= i < j < containers.len() implies (#[trigger] containers[i].name@) != (
        #[trigger] containers[j].name@) by {
            if i > 0 {
                assert(rest[i - 1] == containers[i]);
                assert(rest[j - 1] == containers[j]);
            }
        }
    }
}

} // verus!