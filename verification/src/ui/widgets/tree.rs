//! The items of the views' trees: groups ("Songs (3):") holding one leaf
//! per thing, each leaf identified by the thing's record id.
use vstd::prelude::*;

use super::input_box::push_char;
use crate::state::library::{
    AlbumBrief, ArtistBrief, CollectionBrief, DynamicPlaylist, PlaylistBrief, RecordId, SongBrief,
};

verus! {

/// A piece of a line of text, and its style.
#[derive(Debug, Clone, PartialEq, Eq)]
pub struct Span {
    pub text: String,
    pub bold: bool,
    pub italic: bool,
}

/// An item of a tree: its identifier, its line of text, and its children.
#[derive(Debug)]
pub struct CheckTreeItem {
    pub identifier: String,
    pub line: Vec<Span>,
    pub children: Vec<CheckTreeItem>,
}

/// Two children of an item have the same identifier.
#[derive(Debug, Clone, Copy, PartialEq, Eq, Structural)]
pub struct DuplicateIdentifier;

/// The identifiers of the items.
pub open spec fn spec_identifiers(items: Seq<CheckTreeItem>) -> Seq<Seq<char>> {
    items.map_values(|i: CheckTreeItem| i.identifier@)
}

/// Whether no two of the items have the same identifier.
pub open spec fn spec_distinct(items: Seq<CheckTreeItem>) -> bool {
    forall|i: int, j: int|
        0 <= i < j < items.len() ==> #[trigger] items[i].identifier@ != #[trigger] items[j].identifier@
}

/// The digit for `d` (below ten).
pub open spec fn spec_digit(d: nat) -> char {
    if d == 0 {
        '0'
    } else if d == 1 {
        '1'
    } else if d == 2 {
        '2'
    } else if d == 3 {
        '3'
    } else if d == 4 {
        '4'
    } else if d == 5 {
        '5'
    } else if d == 6 {
        '6'
    } else if d == 7 {
        '7'
    } else if d == 8 {
        '8'
    } else {
        '9'
    }
}

/// `n` written in decimal.
pub open spec fn spec_decimal(n: nat) -> Seq<char>
    decreases n,
{
    if n < 10 {
        seq![spec_digit(n)]
    } else {
        spec_decimal(n / 10).push(spec_digit(n % 10))
    }
}

fn digit(d: usize) -> (r: char)
    requires
        d < 10,
    ensures
        r == spec_digit(d as nat),
{
    if d == 0 {
        '0'
    } else if d == 1 {
        '1'
    } else if d == 2 {
        '2'
    } else if d == 3 {
        '3'
    } else if d == 4 {
        '4'
    } else if d == 5 {
        '5'
    } else if d == 6 {
        '6'
    } else if d == 7 {
        '7'
    } else if d == 8 {
        '8'
    } else {
        '9'
    }
}

/// `n` written in decimal.
pub fn decimal(n: usize) -> (r: String)
    ensures
        r@ == spec_decimal(n as nat),
    decreases n,
{
    if n < 10 {
        let mut s = String::new();
        push_char(&mut s, digit(n));
        assert(s@ =~= seq![spec_digit(n as nat)]);
        s
    } else {
        let mut s = decimal(n / 10);
        push_char(&mut s, digit(n % 10));
        s
    }
}

/// The texts joined, with `sep` between each two.
pub open spec fn spec_join(texts: Seq<String>, sep: Seq<char>) -> Seq<char>
    decreases texts.len(),
{
    if texts.len() == 0 {
        Seq::empty()
    } else if texts.len() == 1 {
        texts[0]@
    } else {
        spec_join(texts.drop_last(), sep) + sep + texts.last()@
    }
}

/// The texts joined, with `sep` between each two.
pub fn join(texts: &Vec<String>, sep: &str) -> (r: String)
    ensures
        r@ == spec_join(texts@, sep@),
{
    let mut out = String::new();
    let mut i: usize = 0;
    while i < texts.len()
        invariant
            i <= texts@.len(),
            out@ == spec_join(texts@.subrange(0, i as int), sep@),
        decreases texts@.len() - i,
    {
        let ghost before = texts@.subrange(0, i as int);
        if i > 0 {
            out.append(sep);
        }
        out.append(texts[i].as_str());
        proof {
            let now = texts@.subrange(0, i + 1);
            assert(now.drop_last() =~= before);
            assert(now.last() == texts@[i as int]);
            if i == 0 {
                assert(out@ =~= spec_join(now, sep@));
            }
        }
        i = i + 1;
    }
    assert(texts@.subrange(0, texts@.len() as int) =~= texts@);
    out
}

/// A leaf: an item without children.
pub fn new_leaf(identifier: String, line: Vec<Span>) -> (r: CheckTreeItem)
    ensures
        r.identifier == identifier,
        r.line == line,
        r.children@.len() == 0,
{
    CheckTreeItem { identifier, line, children: Vec::new() }
}

/// The placeholder leaf of an empty group.
pub fn create_dummy_leaf() -> (r: CheckTreeItem)
    ensures
        r.identifier@ == "dummy"@,
        r.line@.len() == 0,
        r.children@.len() == 0,
{
    new_leaf("dummy".to_owned(), Vec::new())
}

/// Whether no two of the items have the same identifier.
pub fn distinct_identifiers(items: &Vec<CheckTreeItem>) -> (r: bool)
    ensures
        r == spec_distinct(items@),
{
    let mut j: usize = 0;
    while j < items.len()
        invariant
            j <= items@.len(),
            forall|a: int, b: int|
                0 <= a < b < j ==> #[trigger] items@[a].identifier@ != #[trigger] items@[b].identifier@,
        decreases items@.len() - j,
    {
        let mut i: usize = 0;
        while i < j
            invariant
                i <= j < items@.len(),
                forall|a: int, b: int|
                    0 <= a < b < j ==> #[trigger] items@[a].identifier@ != #[trigger] items@[b].identifier@,
                forall|a: int| 0 <= a < i ==> #[trigger] items@[a].identifier@ != items@[j as int].identifier@,
            decreases j - i,
        {
            if items[i].identifier == items[j].identifier {
                assert(!spec_distinct(items@)) by {
                    assert(items@[i as int].identifier@ == items@[j as int].identifier@);
                }
                return false;
            }
            i = i + 1;
        }
        j = j + 1;
    }
    true
}

/// A group item: fails when two children have the same identifier; a
/// group with no children gets the placeholder leaf, so that it can be
/// opened.
pub fn new_with_items(identifier: String, header: String, children: Vec<CheckTreeItem>) -> (r: Result<CheckTreeItem, DuplicateIdentifier>)
    ensures
        !spec_distinct(children@) ==> r is Err,
        spec_distinct(children@) ==> (r matches Ok(item) && item.identifier == identifier
            && item.line@.len() == 1 && item.line@[0].text == header && !item.line@[0].bold
            && !item.line@[0].italic && if children@.len() == 0 {
            item.children@.len() == 1 && item.children@[0].identifier@ == "dummy"@
                && item.children@[0].children@.len() == 0
        } else {
            item.children@ == children@
        }),
{
    if !distinct_identifiers(&children) {
        return Err(DuplicateIdentifier);
    }
    let mut children = children;
    if children.len() == 0 {
        children.push(create_dummy_leaf());
    }
    let mut line: Vec<Span> = Vec::new();
    line.push(Span { text: header, bold: false, italic: false });
    Ok(CheckTreeItem { identifier, line, children })
}

/// A bold span.
fn bold(text: String) -> (r: Span)
    ensures
        r == (Span { text, bold: true, italic: false }),
{
    Span { text, bold: true, italic: false }
}

/// A plain space.
fn space() -> (r: Span)
    ensures
        r.text@ == " "@,
        !r.bold,
        !r.italic,
{
    Span { text: " ".to_owned(), bold: false, italic: false }
}

/// The header of a group of `count` things named `kind`: "kind (count):".
pub open spec fn spec_header(kind: Seq<char>, count: nat) -> Seq<char> {
    kind + " ("@ + spec_decimal(count) + "):"@
}

fn header(kind: &str, count: usize) -> (r: String)
    ensures
        r@ == spec_header(kind@, count as nat),
{
    let mut s = kind.to_owned();
    s.append(" (");
    let n = decimal(count);
    s.append(n.as_str());
    s.append("):");
    s
}

/// A song's leaf: the title in bold, then the artists in italics.
pub fn create_song_tree_leaf(song: &SongBrief) -> (r: CheckTreeItem)
    ensures
        r.identifier@ == song.id.spec_text(),
        r.line@.len() == 3,
        r.line@[0] == (Span { text: song.title, bold: true, italic: false }),
        r.line@[1].text@ == " "@,
        r.line@[2].text@ == spec_join(song.artists@, ", "@) && r.line@[2].italic && !r.line@[2].bold,
        r.children@.len() == 0,
{
    let mut line: Vec<Span> = Vec::new();
    line.push(bold(song.title.clone()));
    line.push(space());
    line.push(Span { text: join(&song.artists, ", "), bold: false, italic: true });
    new_leaf(song.id.to_string(), line)
}

/// An album's leaf: the prefix (if any), the title in bold, then the
/// artists in italics.
pub fn create_album_tree_leaf(album: &AlbumBrief, prefix: Option<Span>) -> (r: CheckTreeItem)
    ensures
        r.identifier@ == album.id.spec_text(),
        r.line@.len() == 4,
        r.line@[0] == match prefix {
            Some(p) => p,
            None => r.line@[0],
        },
        prefix is None ==> r.line@[0].text@.len() == 0,
        r.line@[1] == (Span { text: album.title, bold: true, italic: false }),
        r.line@[2].text@ == " "@,
        r.line@[3].text@ == spec_join(album.artists@, ", "@) && r.line@[3].italic && !r.line@[3].bold,
        r.children@.len() == 0,
{
    let mut line: Vec<Span> = Vec::new();
    match prefix {
        Some(p) => line.push(p),
        None => line.push(Span { text: String::new(), bold: false, italic: false }),
    }
    line.push(bold(album.title.clone()));
    line.push(space());
    line.push(Span { text: join(&album.artists, ", "), bold: false, italic: true });
    new_leaf(album.id.to_string(), line)
}

/// A leaf of a named thing: the name in bold.
fn named_leaf(id: &RecordId, name: &String) -> (r: CheckTreeItem)
    ensures
        r.identifier@ == id.spec_text(),
        r.line@ == seq![Span { text: *name, bold: true, italic: false }],
        r.children@.len() == 0,
{
    let mut line: Vec<Span> = Vec::new();
    line.push(bold(name.clone()));
    assert(line@ =~= seq![Span { text: *name, bold: true, italic: false }]);
    new_leaf(id.to_string(), line)
}

/// An artist's leaf: the name in bold.
pub fn create_artist_tree_leaf(artist: &ArtistBrief) -> (r: CheckTreeItem)
    ensures
        r.identifier@ == artist.id.spec_text(),
        r.line@ == seq![Span { text: artist.name, bold: true, italic: false }],
        r.children@.len() == 0,
{
    named_leaf(&artist.id, &artist.name)
}

/// A collection's leaf: the name in bold.
pub fn create_collection_tree_leaf(collection: &CollectionBrief) -> (r: CheckTreeItem)
    ensures
        r.identifier@ == collection.id.spec_text(),
        r.line@ == seq![Span { text: collection.name, bold: true, italic: false }],
        r.children@.len() == 0,
{
    named_leaf(&collection.id, &collection.name)
}

/// A playlist's leaf: the name in bold.
pub fn create_playlist_tree_leaf(playlist: &PlaylistBrief) -> (r: CheckTreeItem)
    ensures
        r.identifier@ == playlist.id.spec_text(),
        r.line@ == seq![Span { text: playlist.name, bold: true, italic: false }],
        r.children@.len() == 0,
{
    named_leaf(&playlist.id, &playlist.name)
}

/// A dynamic playlist's leaf: the name in bold.
pub fn create_dynamic_playlist_tree_leaf(dynamic_playlist: &DynamicPlaylist) -> (r: CheckTreeItem)
    ensures
        r.identifier@ == dynamic_playlist.id.spec_text(),
        r.line@ == seq![Span { text: dynamic_playlist.name, bold: true, italic: false }],
        r.children@.len() == 0,
{
    named_leaf(&dynamic_playlist.id, &dynamic_playlist.name)
}

/// The identifiers a group of leaves for these record ids holds.
pub open spec fn spec_leaf_identifiers(ids: Seq<RecordId>) -> Seq<Seq<char>> {
    ids.map_values(|id: RecordId| id.spec_text())
}

/// Whether no two of the record ids are written the same.
pub open spec fn spec_ids_distinct(ids: Seq<RecordId>) -> bool {
    let idents = spec_leaf_identifiers(ids);
    forall|i: int, j: int| 0 <= i < j < idents.len() ==> #[trigger] idents[i] != #[trigger] idents[j]
}

/// What a group made by the `create_*_tree_item` functions is: fails when
/// two things have the same id; else it is named `kind`, headed
/// "kind (n):", and holds a leaf per thing in order (or the placeholder
/// leaf when there is none).
pub open spec fn spec_group(kind: Seq<char>, ids: Seq<RecordId>, r: Result<CheckTreeItem, DuplicateIdentifier>) -> bool {
    let idents = spec_leaf_identifiers(ids);
    let distinct = spec_ids_distinct(ids);
    &&& !distinct ==> r is Err
    &&& distinct ==> (r matches Ok(item) && item.identifier@ == kind && item.line@.len() == 1
        && item.line@[0].text@ == spec_header(kind, ids.len()) && if ids.len() == 0 {
        item.children@.len() == 1 && item.children@[0].identifier@ == "dummy"@
    } else {
        spec_identifiers(item.children@) == idents
    })
}

/// Both say the items' identifiers are distinct.
proof fn lemma_distinct_iff(items: Seq<CheckTreeItem>, idents: Seq<Seq<char>>)
    requires
        spec_identifiers(items) == idents,
    ensures
        spec_distinct(items) == (forall|i: int, j: int|
            0 <= i < j < idents.len() ==> #[trigger] idents[i] != #[trigger] idents[j]),
{
    assert(idents.len() == items.len());
    if spec_distinct(items) {
        assert forall|i: int, j: int| 0 <= i < j < idents.len() implies #[trigger] idents[i] != #[trigger] idents[j] by {
            assert(idents[i] == items[i].identifier@);
            assert(idents[j] == items[j].identifier@);
        }
    }
    if forall|i: int, j: int| 0 <= i < j < idents.len() ==> #[trigger] idents[i] != #[trigger] idents[j] {
        assert forall|i: int, j: int| 0 <= i < j < items.len() implies #[trigger] items[i].identifier@
            != #[trigger] items[j].identifier@ by {
            assert(idents[i] == items[i].identifier@);
            assert(idents[j] == items[j].identifier@);
        }
    }
}

fn finish_group(kind: &str, Ghost(ids): Ghost<Seq<RecordId>>, children: Vec<CheckTreeItem>) -> (r: Result<CheckTreeItem, DuplicateIdentifier>)
    requires
        spec_identifiers(children@) == spec_leaf_identifiers(ids),
    ensures
        spec_group(kind@, ids, r),
{
    proof {
        lemma_distinct_iff(children@, spec_leaf_identifiers(ids));
    }
    let count = children.len();
    let head = header(kind, count);
    let r = new_with_items(kind.to_owned(), head, children);
    proof {
        if r is Ok && ids.len() > 0 {
            assert(spec_identifiers(r->Ok_0.children@) =~= spec_identifiers(children@));
        }
    }
    r
}

/// The ids of the songs.
pub open spec fn spec_song_ids(songs: Seq<SongBrief>) -> Seq<RecordId> {
    songs.map_values(|s: SongBrief| s.id)
}

/// The ids of the albums.
pub open spec fn spec_album_ids(albums: Seq<AlbumBrief>) -> Seq<RecordId> {
    albums.map_values(|a: AlbumBrief| a.id)
}

/// The ids of the artists.
pub open spec fn spec_artist_ids(artists: Seq<ArtistBrief>) -> Seq<RecordId> {
    artists.map_values(|a: ArtistBrief| a.id)
}

/// The ids of the collections.
pub open spec fn spec_collection_ids(collections: Seq<CollectionBrief>) -> Seq<RecordId> {
    collections.map_values(|c: CollectionBrief| c.id)
}

/// The ids of the playlists.
pub open spec fn spec_playlist_ids(playlists: Seq<PlaylistBrief>) -> Seq<RecordId> {
    playlists.map_values(|p: PlaylistBrief| p.id)
}

/// The ids of the dynamic playlists.
pub open spec fn spec_dynamic_playlist_ids(dynamics: Seq<DynamicPlaylist>) -> Seq<RecordId> {
    dynamics.map_values(|d: DynamicPlaylist| d.id)
}

/// The group of the songs (see [`spec_group`]).
pub fn create_song_tree_item(songs: &Vec<SongBrief>) -> (r: Result<CheckTreeItem, DuplicateIdentifier>)
    ensures
        spec_group("Songs"@, spec_song_ids(songs@), r),
{
    let mut children: Vec<CheckTreeItem> = Vec::new();
    let mut i: usize = 0;
    while i < songs.len()
        invariant
            i <= songs@.len(),
            spec_identifiers(children@) == spec_leaf_identifiers(spec_song_ids(songs@.subrange(0, i as int))),
        decreases songs@.len() - i,
    {
        let leaf = create_song_tree_leaf(&songs[i]);
        let ghost before = children@;
        children.push(leaf);
        proof {
            assert(spec_identifiers(children@) =~= spec_identifiers(before).push(leaf.identifier@));
            assert(spec_leaf_identifiers(spec_song_ids(songs@.subrange(0, i + 1))) =~= spec_leaf_identifiers(
                spec_song_ids(songs@.subrange(0, i as int)),
            ).push(songs@[i as int].id.spec_text()));
        }
        i = i + 1;
    }
    assert(songs@.subrange(0, songs@.len() as int) =~= songs@);
    finish_group("Songs", Ghost(spec_song_ids(songs@)), children)
}

/// The group of the albums (see [`spec_group`]).
pub fn create_album_tree_item(albums: &Vec<AlbumBrief>) -> (r: Result<CheckTreeItem, DuplicateIdentifier>)
    ensures
        spec_group("Albums"@, spec_album_ids(albums@), r),
{
    let mut children: Vec<CheckTreeItem> = Vec::new();
    let mut i: usize = 0;
    while i < albums.len()
        invariant
            i <= albums@.len(),
            spec_identifiers(children@) == spec_leaf_identifiers(spec_album_ids(albums@.subrange(0, i as int))),
        decreases albums@.len() - i,
    {
        let leaf = create_album_tree_leaf(&albums[i], None);
        let ghost before = children@;
        children.push(leaf);
        proof {
            assert(spec_identifiers(children@) =~= spec_identifiers(before).push(leaf.identifier@));
            assert(spec_leaf_identifiers(spec_album_ids(albums@.subrange(0, i + 1))) =~= spec_leaf_identifiers(
                spec_album_ids(albums@.subrange(0, i as int)),
            ).push(albums@[i as int].id.spec_text()));
        }
        i = i + 1;
    }
    assert(albums@.subrange(0, albums@.len() as int) =~= albums@);
    finish_group("Albums", Ghost(spec_album_ids(albums@)), children)
}

/// The group of the artists (see [`spec_group`]).
pub fn create_artist_tree_item(artists: &Vec<ArtistBrief>) -> (r: Result<CheckTreeItem, DuplicateIdentifier>)
    ensures
        spec_group("Artists"@, spec_artist_ids(artists@), r),
{
    let mut children: Vec<CheckTreeItem> = Vec::new();
    let mut i: usize = 0;
    while i < artists.len()
        invariant
            i <= artists@.len(),
            spec_identifiers(children@) == spec_leaf_identifiers(spec_artist_ids(artists@.subrange(0, i as int))),
        decreases artists@.len() - i,
    {
        let leaf = create_artist_tree_leaf(&artists[i]);
        let ghost before = children@;
        children.push(leaf);
        proof {
            assert(spec_identifiers(children@) =~= spec_identifiers(before).push(leaf.identifier@));
            assert(spec_leaf_identifiers(spec_artist_ids(artists@.subrange(0, i + 1))) =~= spec_leaf_identifiers(
                spec_artist_ids(artists@.subrange(0, i as int)),
            ).push(artists@[i as int].id.spec_text()));
        }
        i = i + 1;
    }
    assert(artists@.subrange(0, artists@.len() as int) =~= artists@);
    finish_group("Artists", Ghost(spec_artist_ids(artists@)), children)
}

/// The group of the collections (see [`spec_group`]).
pub fn create_collection_tree_item(collections: &Vec<CollectionBrief>) -> (r: Result<CheckTreeItem, DuplicateIdentifier>)
    ensures
        spec_group("Collections"@, spec_collection_ids(collections@), r),
{
    let mut children: Vec<CheckTreeItem> = Vec::new();
    let mut i: usize = 0;
    while i < collections.len()
        invariant
            i <= collections@.len(),
            spec_identifiers(children@) == spec_leaf_identifiers(
                spec_collection_ids(collections@.subrange(0, i as int)),
            ),
        decreases collections@.len() - i,
    {
        let leaf = create_collection_tree_leaf(&collections[i]);
        let ghost before = children@;
        children.push(leaf);
        proof {
            assert(spec_identifiers(children@) =~= spec_identifiers(before).push(leaf.identifier@));
            assert(spec_leaf_identifiers(spec_collection_ids(collections@.subrange(0, i + 1)))
                =~= spec_leaf_identifiers(spec_collection_ids(collections@.subrange(0, i as int))).push(
                collections@[i as int].id.spec_text(),
            ));
        }
        i = i + 1;
    }
    assert(collections@.subrange(0, collections@.len() as int) =~= collections@);
    finish_group("Collections", Ghost(spec_collection_ids(collections@)), children)
}

/// The group of the playlists (see [`spec_group`]).
pub fn create_playlist_tree_item(playlists: &Vec<PlaylistBrief>) -> (r: Result<CheckTreeItem, DuplicateIdentifier>)
    ensures
        spec_group("Playlists"@, spec_playlist_ids(playlists@), r),
{
    let mut children: Vec<CheckTreeItem> = Vec::new();
    let mut i: usize = 0;
    while i < playlists.len()
        invariant
            i <= playlists@.len(),
            spec_identifiers(children@) == spec_leaf_identifiers(
                spec_playlist_ids(playlists@.subrange(0, i as int)),
            ),
        decreases playlists@.len() - i,
    {
        let leaf = create_playlist_tree_leaf(&playlists[i]);
        let ghost before = children@;
        children.push(leaf);
        proof {
            assert(spec_identifiers(children@) =~= spec_identifiers(before).push(leaf.identifier@));
            assert(spec_leaf_identifiers(spec_playlist_ids(playlists@.subrange(0, i + 1)))
                =~= spec_leaf_identifiers(spec_playlist_ids(playlists@.subrange(0, i as int))).push(
                playlists@[i as int].id.spec_text(),
            ));
        }
        i = i + 1;
    }
    assert(playlists@.subrange(0, playlists@.len() as int) =~= playlists@);
    finish_group("Playlists", Ghost(spec_playlist_ids(playlists@)), children)
}

/// The group of the dynamic playlists (see [`spec_group`]).
pub fn create_dynamic_playlist_tree_item(dynamics: &Vec<DynamicPlaylist>) -> (r: Result<CheckTreeItem, DuplicateIdentifier>)
    ensures
        spec_group("Dynamic Playlists"@, spec_dynamic_playlist_ids(dynamics@), r),
{
    let mut children: Vec<CheckTreeItem> = Vec::new();
    let mut i: usize = 0;
    while i < dynamics.len()
        invariant
            i <= dynamics@.len(),
            spec_identifiers(children@) == spec_leaf_identifiers(
                spec_dynamic_playlist_ids(dynamics@.subrange(0, i as int)),
            ),
        decreases dynamics@.len() - i,
    {
        let leaf = create_dynamic_playlist_tree_leaf(&dynamics[i]);
        let ghost before = children@;
        children.push(leaf);
        proof {
            assert(spec_identifiers(children@) =~= spec_identifiers(before).push(leaf.identifier@));
            assert(spec_leaf_identifiers(spec_dynamic_playlist_ids(dynamics@.subrange(0, i + 1)))
                =~= spec_leaf_identifiers(spec_dynamic_playlist_ids(dynamics@.subrange(0, i as int))).push(
                dynamics@[i as int].id.spec_text(),
            ));
        }
        i = i + 1;
    }
    assert(dynamics@.subrange(0, dynamics@.len() as int) =~= dynamics@);
    finish_group("Dynamic Playlists", Ghost(spec_dynamic_playlist_ids(dynamics@)), children)
}

} // verus!
