//! The library tree: the catalog grouped three levels deep, artist to album
//! to song, for browsing.
//!
//! The tree is rebuilt wholesale from the flat song list in one pass, with
//! no intermediate copies: each song is inserted under its own artist and
//! album keys, new keys appearing in first-seen order, so rebuilding from
//! the same catalog always yields the identical tree. Songs with empty tag
//! values collapse into the bucket keyed by the empty text, by design.

use vstd::prelude::*;

use vstd::multiset::Multiset;
use vstd::seq_lib::lemma_multiset_commutative;

use crate::song::{Song, SongView};

verus! {

broadcast use vstd::seq_lib::group_to_multiset_ensures;

/// One album's node in the tree: its name and its songs, in catalog order.
#[derive(Debug, PartialEq, Eq)]
pub struct AlbumGroup {
    pub album: String,
    pub songs: Vec<Song>,
}

/// The mathematical value of an [`AlbumGroup`].
#[verifier::ext_equal]
pub struct AlbumGroupView {
    pub album: Seq<char>,
    pub songs: Seq<SongView>,
}

impl View for AlbumGroup {
    type V = AlbumGroupView;

    open spec fn view(&self) -> AlbumGroupView {
        AlbumGroupView { album: self.album@, songs: self.songs.deep_view() }
    }
}

impl DeepView for AlbumGroup {
    type V = AlbumGroupView;

    open spec fn deep_view(&self) -> AlbumGroupView {
        self.view()
    }
}

/// One artist's node in the tree: their name and their albums, in
/// first-seen order.
#[derive(Debug, PartialEq, Eq)]
pub struct ArtistGroup {
    pub artist: String,
    pub albums: Vec<AlbumGroup>,
}

/// The mathematical value of an [`ArtistGroup`].
#[verifier::ext_equal]
pub struct ArtistGroupView {
    pub artist: Seq<char>,
    pub albums: Seq<AlbumGroupView>,
}

impl View for ArtistGroup {
    type V = ArtistGroupView;

    open spec fn view(&self) -> ArtistGroupView {
        ArtistGroupView { artist: self.artist@, albums: self.albums.deep_view() }
    }
}

impl DeepView for ArtistGroup {
    type V = ArtistGroupView;

    open spec fn deep_view(&self) -> ArtistGroupView {
        self.view()
    }
}

/// The index of the first album named `name`, or `-1` when there is none.
pub open spec fn first_album_index(albums: Seq<AlbumGroupView>, name: Seq<char>) -> int
    decreases albums.len(),
{
    if albums.len() == 0 {
        -1
    } else if albums.first().album == name {
        0
    } else {
        let r = first_album_index(albums.drop_first(), name);
        if r < 0 {
            -1
        } else {
            r + 1
        }
    }
}

/// The index of the first artist named `name`, or `-1` when there is none.
pub open spec fn first_artist_index(groups: Seq<ArtistGroupView>, name: Seq<char>) -> int
    decreases groups.len(),
{
    if groups.len() == 0 {
        -1
    } else if groups.first().artist == name {
        0
    } else {
        let r = first_artist_index(groups.drop_first(), name);
        if r < 0 {
            -1
        } else {
            r + 1
        }
    }
}

/// An album node with one more song at the end.
pub open spec fn album_insert(a: AlbumGroupView, s: SongView) -> AlbumGroupView {
    AlbumGroupView { album: a.album, songs: a.songs.push(s) }
}

/// The album node a single song starts.
pub open spec fn singleton_album(s: SongView) -> AlbumGroupView {
    AlbumGroupView { album: s.album, songs: seq![s] }
}

/// The artist node a single song starts.
pub open spec fn singleton_artist(s: SongView) -> ArtistGroupView {
    ArtistGroupView { artist: s.artist, albums: seq![singleton_album(s)] }
}

/// An artist node with one more song, placed in its first album of the
/// song's album name, or in a fresh album at the end.
pub open spec fn artist_insert(g: ArtistGroupView, s: SongView) -> ArtistGroupView {
    let j = first_album_index(g.albums, s.album);
    if j < 0 {
        ArtistGroupView { artist: g.artist, albums: g.albums.push(singleton_album(s)) }
    } else {
        ArtistGroupView { artist: g.artist, albums: g.albums.update(j, album_insert(g.albums[j], s)) }
    }
}

/// The tree with one more song, placed under the first artist node of the
/// song's artist name, or under a fresh artist node at the end.
pub open spec fn tree_insert(groups: Seq<ArtistGroupView>, s: SongView) -> Seq<ArtistGroupView> {
    let i = first_artist_index(groups, s.artist);
    if i < 0 {
        groups.push(singleton_artist(s))
    } else {
        groups.update(i, artist_insert(groups[i], s))
    }
}

/// The tree grown from `tracks`, one insertion per track, in catalog order.
pub open spec fn spec_build(tracks: Seq<SongView>) -> Seq<ArtistGroupView>
    decreases tracks.len(),
{
    if tracks.len() == 0 {
        Seq::empty()
    } else {
        tree_insert(spec_build(tracks.drop_last()), tracks.last())
    }
}

/// The index of the first album named `name`, or `None` when there is none.
fn find_album(albums: &Vec<AlbumGroup>, name: &String) -> (r: Option<usize>)
    ensures
        r matches Some(j) ==> j < albums@.len() && first_album_index(albums.deep_view(), name@)
            == j as int,
        r is None ==> first_album_index(albums.deep_view(), name@) == -1,
{
    let n = albums.len();
    for j in 0..n
        invariant
            n == albums@.len(),
            forall|k: int| 0 <= k < j ==> albums.deep_view()[k].album != name@,
    {
        if albums[j].album == *name {
            proof {
                lemma_first_album_index_found(albums.deep_view(), name@, j as int);
            }
            return Some(j);
        }
    }
    proof {
        lemma_first_album_index_missing(albums.deep_view(), name@);
    }
    None
}

/// The index of the first artist named `name`, or `None` when there is none.
fn find_artist(groups: &Vec<ArtistGroup>, name: &String) -> (r: Option<usize>)
    ensures
        r matches Some(i) ==> i < groups@.len() && first_artist_index(groups.deep_view(), name@)
            == i as int,
        r is None ==> first_artist_index(groups.deep_view(), name@) == -1,
{
    let n = groups.len();
    for i in 0..n
        invariant
            n == groups@.len(),
            forall|k: int| 0 <= k < i ==> groups.deep_view()[k].artist != name@,
    {
        if groups[i].artist == *name {
            proof {
                lemma_first_artist_index_found(groups.deep_view(), name@, i as int);
            }
            return Some(i);
        }
    }
    proof {
        lemma_first_artist_index_missing(groups.deep_view(), name@);
    }
    None
}

proof fn lemma_first_album_index_found(albums: Seq<AlbumGroupView>, name: Seq<char>, j: int)
    requires
        0 <= j < albums.len(),
        albums[j].album == name,
        forall|k: int| 0 <= k < j ==> albums[k].album != name,
    ensures
        first_album_index(albums, name) == j,
    decreases j,
{
    if j > 0 {
        lemma_first_album_index_found(albums.drop_first(), name, j - 1);
    }
}

proof fn lemma_first_album_index_missing(albums: Seq<AlbumGroupView>, name: Seq<char>)
    requires
        forall|k: int| 0 <= k < albums.len() ==> albums[k].album != name,
    ensures
        first_album_index(albums, name) == -1,
    decreases albums.len(),
{
    if albums.len() > 0 {
        lemma_first_album_index_missing(albums.drop_first(), name);
    }
}

proof fn lemma_first_artist_index_found(groups: Seq<ArtistGroupView>, name: Seq<char>, i: int)
    requires
        0 <= i < groups.len(),
        groups[i].artist == name,
        forall|k: int| 0 <= k < i ==> groups[k].artist != name,
    ensures
        first_artist_index(groups, name) == i,
    decreases i,
{
    if i > 0 {
        lemma_first_artist_index_found(groups.drop_first(), name, i - 1);
    }
}

proof fn lemma_first_artist_index_missing(groups: Seq<ArtistGroupView>, name: Seq<char>)
    requires
        forall|k: int| 0 <= k < groups.len() ==> groups[k].artist != name,
    ensures
        first_artist_index(groups, name) == -1,
    decreases groups.len(),
{
    if groups.len() > 0 {
        lemma_first_artist_index_missing(groups.drop_first(), name);
    }
}

/// Places one song in the artist node that owns it.
fn artist_insert_exec(grp: &mut ArtistGroup, song: &Song)
    ensures
        final(grp)@ == artist_insert(old(grp)@, song@),
{
    match find_album(&grp.albums, &song.album) {
        Some(j) => {
            let mut alb = grp.albums.remove(j);
            alb.songs.push(song.clone());
            proof {
                assert(alb@ =~= album_insert(old(grp)@.albums[j as int], song@));
            }
            grp.albums.insert(j, alb);
            proof {
                assert(grp.albums.deep_view() =~= old(grp)@.albums.update(
                    j as int,
                    album_insert(old(grp)@.albums[j as int], song@),
                ));
                assert(grp@ =~= artist_insert(old(grp)@, song@));
            }
        },
        None => {
            let mut songs: Vec<Song> = Vec::new();
            songs.push(song.clone());
            let alb = AlbumGroup { album: song.album.clone(), songs };
            proof {
                assert(alb@ =~= singleton_album(song@));
            }
            grp.albums.push(alb);
            proof {
                assert(grp.albums.deep_view() =~= old(grp)@.albums.push(singleton_album(song@)));
                assert(grp@ =~= artist_insert(old(grp)@, song@));
            }
        },
    }
}

/// Places one song in the tree, under its own artist and album keys.
fn tree_insert_exec(groups: &mut Vec<ArtistGroup>, song: &Song)
    ensures
        final(groups).deep_view() == tree_insert(old(groups).deep_view(), song@),
{
    match find_artist(groups, &song.artist) {
        Some(i) => {
            let mut grp = groups.remove(i);
            artist_insert_exec(&mut grp, song);
            let ghost inserted = grp@;
            groups.insert(i, grp);
            proof {
                assert(groups.deep_view() =~= old(groups).deep_view().update(i as int, inserted));
                assert(groups.deep_view() =~= tree_insert(old(groups).deep_view(), song@));
            }
        },
        None => {
            let mut songs: Vec<Song> = Vec::new();
            songs.push(song.clone());
            let mut albums: Vec<AlbumGroup> = Vec::new();
            albums.push(AlbumGroup { album: song.album.clone(), songs });
            let grp = ArtistGroup { artist: song.artist.clone(), albums };
            proof {
                assert(grp@ =~~= singleton_artist(song@));
            }
            groups.push(grp);
            proof {
                assert(groups.deep_view() =~= old(groups).deep_view().push(singleton_artist(
                    song@,
                )));
                assert(groups.deep_view() =~= tree_insert(old(groups).deep_view(), song@));
            }
        },
    }
}

/// Groups a flat song list into the artist/album/song tree, one pass, keys
/// in first-seen order. Deterministic: the same catalog always yields the
/// identical tree.
pub fn build(tracks: &Vec<Song>) -> (r: Vec<ArtistGroup>)
    ensures
        r.deep_view() == spec_build(tracks.deep_view()),
{
    let mut groups: Vec<ArtistGroup> = Vec::new();
    proof {
        assert(groups.deep_view() =~= spec_build(tracks.deep_view().take(0)));
    }
    let n = tracks.len();
    for idx in 0..n
        invariant
            n == tracks@.len(),
            groups.deep_view() == spec_build(tracks.deep_view().take(idx as int)),
    {
        tree_insert_exec(&mut groups, &tracks[idx]);
        proof {
            let tv = tracks.deep_view();
            assert(tv.take(idx + 1).drop_last() =~= tv.take(idx as int));
            assert(tv.take(idx + 1).last() == tv[idx as int]);
        }
    }
    proof {
        assert(tracks.deep_view().take(tracks@.len() as int) =~= tracks.deep_view());
    }
    groups
}

/// All songs stored in a run of album nodes, in tree order.
pub open spec fn albums_songs(albums: Seq<AlbumGroupView>) -> Seq<SongView>
    decreases albums.len(),
{
    if albums.len() == 0 {
        Seq::empty()
    } else {
        albums.first().songs + albums_songs(albums.drop_first())
    }
}

/// All songs stored in a tree, in tree order.
pub open spec fn tree_songs(groups: Seq<ArtistGroupView>) -> Seq<SongView>
    decreases groups.len(),
{
    if groups.len() == 0 {
        Seq::empty()
    } else {
        albums_songs(groups.first().albums) + tree_songs(groups.drop_first())
    }
}

/// Every song of the album node carries the artist and album names it is
/// filed under.
pub open spec fn album_wf(artist: Seq<char>, a: AlbumGroupView) -> bool {
    forall|k: int|
        0 <= k < a.songs.len() ==> (#[trigger] a.songs[k]).artist == artist && a.songs[k].album
            == a.album
}

/// Every song of the artist node sits in the album it names, and no album
/// name repeats.
pub open spec fn artist_wf(g: ArtistGroupView) -> bool {
    &&& forall|j: int| 0 <= j < g.albums.len() ==> album_wf(g.artist, #[trigger] g.albums[j])
    &&& forall|j1: int, j2: int|
        0 <= j1 < j2 < g.albums.len() ==> (#[trigger] g.albums[j1]).album != (
        #[trigger] g.albums[j2]).album
}

/// Every song of the tree sits under its own artist and album keys, and no
/// artist name repeats.
pub open spec fn tree_wf(groups: Seq<ArtistGroupView>) -> bool {
    &&& forall|i: int| 0 <= i < groups.len() ==> artist_wf(#[trigger] groups[i])
    &&& forall|i1: int, i2: int|
        0 <= i1 < i2 < groups.len() ==> (#[trigger] groups[i1]).artist != (
        #[trigger] groups[i2]).artist
}

proof fn lemma_first_album_index_props(albums: Seq<AlbumGroupView>, name: Seq<char>)
    ensures
        first_album_index(albums, name) >= 0 ==> first_album_index(albums, name) < albums.len()
            && albums[first_album_index(albums, name)].album == name,
        first_album_index(albums, name) < 0 ==> forall|k: int|
            0 <= k < albums.len() ==> (#[trigger] albums[k]).album != name,
    decreases albums.len(),
{
    if albums.len() > 0 {
        lemma_first_album_index_props(albums.drop_first(), name);
        if albums.first().album != name {
            let r = first_album_index(albums.drop_first(), name);
            if r >= 0 {
                assert(albums[r + 1] == albums.drop_first()[r]);
            } else {
                assert forall|k: int| 0 <= k < albums.len() implies (#[trigger] albums[k]).album
                    != name by {
                    if k > 0 {
                        assert(albums[k] == albums.drop_first()[k - 1]);
                    }
                }
            }
        }
    }
}

proof fn lemma_first_artist_index_props(groups: Seq<ArtistGroupView>, name: Seq<char>)
    ensures
        first_artist_index(groups, name) >= 0 ==> first_artist_index(groups, name) < groups.len()
            && groups[first_artist_index(groups, name)].artist == name,
        first_artist_index(groups, name) < 0 ==> forall|k: int|
            0 <= k < groups.len() ==> (#[trigger] groups[k]).artist != name,
    decreases groups.len(),
{
    if groups.len() > 0 {
        lemma_first_artist_index_props(groups.drop_first(), name);
        if groups.first().artist != name {
            let r = first_artist_index(groups.drop_first(), name);
            if r >= 0 {
                assert(groups[r + 1] == groups.drop_first()[r]);
            } else {
                assert forall|k: int| 0 <= k < groups.len() implies (#[trigger] groups[k]).artist
                    != name by {
                    if k > 0 {
                        assert(groups[k] == groups.drop_first()[k - 1]);
                    }
                }
            }
        }
    }
}

proof fn lemma_artist_insert_wf(g: ArtistGroupView, s: SongView)
    requires
        artist_wf(g),
        s.artist == g.artist,
    ensures
        artist_wf(artist_insert(g, s)),
        artist_insert(g, s).artist == g.artist,
{
    lemma_first_album_index_props(g.albums, s.album);
}

proof fn lemma_tree_insert_wf(groups: Seq<ArtistGroupView>, s: SongView)
    requires
        tree_wf(groups),
    ensures
        tree_wf(tree_insert(groups, s)),
{
    lemma_first_artist_index_props(groups, s.artist);
    let i = first_artist_index(groups, s.artist);
    if i >= 0 {
        lemma_artist_insert_wf(groups[i], s);
    }
}

proof fn lemma_albums_songs_push(albums: Seq<AlbumGroupView>, a: AlbumGroupView)
    ensures
        albums_songs(albums.push(a)) =~= albums_songs(albums) + a.songs,
    decreases albums.len(),
{
    reveal_with_fuel(albums_songs, 2);
    assert(albums.push(a)[albums.len() as int] == a);
    if albums.len() == 0 {
        assert(albums.push(a).first() == a);
        assert(albums.push(a).drop_first() =~= Seq::<AlbumGroupView>::empty());
        assert(albums_songs(albums.push(a)) =~= albums_songs(albums) + a.songs);
    } else {
        assert(albums.push(a).first() == albums.first());
        assert(albums.push(a).drop_first() =~= albums.drop_first().push(a));
        lemma_albums_songs_push(albums.drop_first(), a);
        assert(albums_songs(albums.push(a)) =~= albums_songs(albums) + a.songs);
    }
}

proof fn lemma_tree_songs_push(groups: Seq<ArtistGroupView>, g: ArtistGroupView)
    ensures
        tree_songs(groups.push(g)) =~= tree_songs(groups) + albums_songs(g.albums),
    decreases groups.len(),
{
    reveal_with_fuel(tree_songs, 2);
    assert(groups.push(g)[groups.len() as int] == g);
    if groups.len() == 0 {
        assert(groups.push(g).first() == g);
        assert(groups.push(g).drop_first() =~= Seq::<ArtistGroupView>::empty());
        assert(tree_songs(groups.push(g)) =~= tree_songs(groups) + albums_songs(g.albums));
    } else {
        assert(groups.push(g).first() == groups.first());
        assert(groups.push(g).drop_first() =~= groups.drop_first().push(g));
        lemma_tree_songs_push(groups.drop_first(), g);
        assert(tree_songs(groups.push(g)) =~= tree_songs(groups) + albums_songs(g.albums));
    }
}

proof fn lemma_albums_songs_update_insert(albums: Seq<AlbumGroupView>, j: int, s: SongView)
    requires
        0 <= j < albums.len(),
    ensures
        albums_songs(albums.update(j, album_insert(albums[j], s))).to_multiset() == albums_songs(
            albums,
        ).to_multiset().insert(s),
    decreases j,
{
    let u = albums.update(j, album_insert(albums[j], s));
    if j == 0 {
        assert(u.drop_first() =~= albums.drop_first());
        let head = albums.first().songs;
        let tail = albums_songs(albums.drop_first());
        lemma_multiset_commutative(head.push(s), tail);
        lemma_multiset_commutative(head, tail);
        assert(head.push(s).to_multiset() =~= head.to_multiset().insert(s));
        assert(head.to_multiset().insert(s).add(tail.to_multiset()) =~= head.to_multiset().add(
            tail.to_multiset(),
        ).insert(s));
    } else {
        assert(u.first() == albums.first());
        assert(u.drop_first() =~= albums.drop_first().update(j - 1, album_insert(albums[j], s)));
        assert(albums.drop_first()[j - 1] == albums[j]);
        lemma_albums_songs_update_insert(albums.drop_first(), j - 1, s);
        let head = albums.first().songs;
        let tail = albums_songs(albums.drop_first());
        lemma_multiset_commutative(head, albums_songs(u.drop_first()));
        lemma_multiset_commutative(head, tail);
        assert(head.to_multiset().add(tail.to_multiset().insert(s)) =~= head.to_multiset().add(
            tail.to_multiset(),
        ).insert(s));
    }
}

proof fn lemma_artist_insert_songs(g: ArtistGroupView, s: SongView)
    ensures
        albums_songs(artist_insert(g, s).albums).to_multiset() == albums_songs(
            g.albums,
        ).to_multiset().insert(s),
{
    let j = first_album_index(g.albums, s.album);
    if j < 0 {
        lemma_albums_songs_push(g.albums, singleton_album(s));
        lemma_multiset_commutative(albums_songs(g.albums), singleton_album(s).songs);
        assert(singleton_album(s).songs =~= Seq::<SongView>::empty().push(s));
        assert(Seq::<SongView>::empty().push(s).to_multiset() =~= Seq::<
            SongView,
        >::empty().to_multiset().insert(s));
        assert(Seq::<SongView>::empty().to_multiset() =~= Multiset::<SongView>::empty());
        assert(albums_songs(g.albums).to_multiset().add(
            Multiset::<SongView>::empty().insert(s),
        ) =~= albums_songs(g.albums).to_multiset().insert(s));
    } else {
        lemma_first_album_index_props(g.albums, s.album);
        lemma_albums_songs_update_insert(g.albums, j, s);
    }
}

proof fn lemma_tree_songs_update_insert(
    groups: Seq<ArtistGroupView>,
    i: int,
    g2: ArtistGroupView,
    s: SongView,
)
    requires
        0 <= i < groups.len(),
        albums_songs(g2.albums).to_multiset() == albums_songs(
            groups[i].albums,
        ).to_multiset().insert(s),
    ensures
        tree_songs(groups.update(i, g2)).to_multiset() == tree_songs(
            groups,
        ).to_multiset().insert(s),
    decreases i,
{
    let u = groups.update(i, g2);
    if i == 0 {
        assert(u.drop_first() =~= groups.drop_first());
        let tail = tree_songs(groups.drop_first());
        lemma_multiset_commutative(albums_songs(g2.albums), tail);
        lemma_multiset_commutative(albums_songs(groups.first().albums), tail);
        assert(albums_songs(groups.first().albums).to_multiset().insert(s).add(tail.to_multiset())
            =~= albums_songs(groups.first().albums).to_multiset().add(tail.to_multiset()).insert(
            s,
        ));
    } else {
        assert(u.first() == groups.first());
        assert(u.drop_first() =~= groups.drop_first().update(i - 1, g2));
        assert(groups.drop_first()[i - 1] == groups[i]);
        lemma_tree_songs_update_insert(groups.drop_first(), i - 1, g2, s);
        let head = albums_songs(groups.first().albums);
        let tail = tree_songs(groups.drop_first());
        lemma_multiset_commutative(head, tree_songs(u.drop_first()));
        lemma_multiset_commutative(head, tail);
        assert(head.to_multiset().add(tail.to_multiset().insert(s)) =~= head.to_multiset().add(
            tail.to_multiset(),
        ).insert(s));
    }
}

proof fn lemma_tree_insert_songs(groups: Seq<ArtistGroupView>, s: SongView)
    ensures
        tree_songs(tree_insert(groups, s)).to_multiset() == tree_songs(
            groups,
        ).to_multiset().insert(s),
{
    let i = first_artist_index(groups, s.artist);
    if i < 0 {
        lemma_tree_songs_push(groups, singleton_artist(s));
        lemma_multiset_commutative(tree_songs(groups), albums_songs(singleton_artist(s).albums));
        reveal_with_fuel(albums_songs, 2);
        let alb = singleton_artist(s).albums;
        assert(alb.first() == singleton_album(s));
        assert(alb.drop_first() =~= Seq::<AlbumGroupView>::empty());
        assert(albums_songs(singleton_artist(s).albums) =~= singleton_album(s).songs + Seq::<
            SongView,
        >::empty());
        assert(singleton_album(s).songs + Seq::<SongView>::empty() =~= Seq::<
            SongView,
        >::empty().push(s));
        assert(Seq::<SongView>::empty().push(s).to_multiset() =~= Seq::<
            SongView,
        >::empty().to_multiset().insert(s));
        assert(Seq::<SongView>::empty().to_multiset() =~= Multiset::<SongView>::empty());
        assert(tree_songs(groups).to_multiset().add(Multiset::<SongView>::empty().insert(s)) =~=
            tree_songs(groups).to_multiset().insert(s));
    } else {
        lemma_first_artist_index_props(groups, s.artist);
        lemma_artist_insert_songs(groups[i], s);
        lemma_tree_songs_update_insert(groups, i, artist_insert(groups[i], s), s);
    }
}

/// Law: building the tree from a catalog places every track exactly once,
/// under its own artist and album keys. The tree holds exactly the catalog's
/// tracks (as a multiset), every song sits under the artist and album names
/// its own tags carry, and no artist or album key repeats. Since
/// [`spec_build`] is a pure function of the track list, rebuilding from the
/// same catalog also always yields the identical tree.
pub proof fn lemma_build_places_each_track_once(tracks: Seq<SongView>)
    ensures
        tree_wf(spec_build(tracks)),
        tree_songs(spec_build(tracks)).to_multiset() == tracks.to_multiset(),
    decreases tracks.len(),
{
    if tracks.len() == 0 {
        assert(tracks.to_multiset() =~= Multiset::<SongView>::empty());
    } else {
        let prefix = tracks.drop_last();
        lemma_build_places_each_track_once(prefix);
        lemma_tree_insert_wf(spec_build(prefix), tracks.last());
        lemma_tree_insert_songs(spec_build(prefix), tracks.last());
        assert(tracks =~= prefix.push(tracks.last()));
        assert(prefix.push(tracks.last()).to_multiset() =~= prefix.to_multiset().insert(
            tracks.last(),
        ));
    }
}

/// The browsable music library: the flat song list and the tree grouped
/// from it.
pub struct Library {
    pub songs: Vec<Song>,
    pub tree_entries: Vec<ArtistGroup>,
}

impl Library {
    /// An empty library.
    pub fn new() -> (l: Library)
        ensures
            l.songs.deep_view() == Seq::<SongView>::empty(),
            l.tree_entries.deep_view() == Seq::<ArtistGroupView>::empty(),
    {
        let l = Library { songs: Vec::new(), tree_entries: Vec::new() };
        proof {
            assert(l.songs.deep_view() =~= Seq::<SongView>::empty());
            assert(l.tree_entries.deep_view() =~= Seq::<ArtistGroupView>::empty());
        }
        l
    }

    /// Rebuilds the tree wholesale from the current song list.
    pub fn update_tree_entries(&mut self)
        ensures
            final(self).songs == old(self).songs,
            final(self).tree_entries.deep_view() == spec_build(old(self).songs.deep_view()),
    {
        let tree = build(&self.songs);
        self.tree_entries = tree;
    }
}

} // verus!
