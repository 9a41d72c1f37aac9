//! The music library: tracks grouped into albums, and the cursor that
//! picks the current album and track.

use crate::text::{
    decimal, decimal_string, lemma_text_le_total, lemma_text_le_transitive, lower_of, lowercase,
    text_le, text_le_exec,
};
use vstd::prelude::*;
use vstd::string::StringExecFns;

verus! {

/// Tag data of one audio file.
#[derive(Clone, Debug)]
pub struct TrackMetadata {
    pub title: String,
    pub artist: String,
    pub album: String,
    pub track_number: Option<u32>,
    /// Length in milliseconds.
    pub duration: Option<u64>,
    pub file_path: String,
}

/// Key that orders tracks within an album: the track number, 0 when absent.
pub open spec fn track_key(t: TrackMetadata) -> u32 {
    match t.track_number {
        Some(n) => n,
        None => 0,
    }
}

/// Tracks in non-decreasing key order.
pub open spec fn tracks_ordered(s: Seq<TrackMetadata>) -> bool {
    forall|i: int, j: int| 0 <= i < j < s.len() ==> track_key(s[i]) <= track_key(s[j])
}

/// `after` is `before` with `t` inserted after every track whose key is at
/// most `t`'s and before every track whose key is greater.
pub open spec fn inserted_in_order(
    before: Seq<TrackMetadata>,
    t: TrackMetadata,
    after: Seq<TrackMetadata>,
) -> bool {
    exists|p: int|
        0 <= p <= before.len() && after == before.insert(p, t) && (forall|i: int|
            0 <= i < p ==> track_key(#[trigger] before[i]) <= track_key(t)) && (forall|i: int|
            p <= i < before.len() ==> track_key(#[trigger] before[i]) > track_key(t))
}

pub open spec fn spec_display_title(t: TrackMetadata) -> Seq<char> {
    match t.track_number {
        Some(n) => decimal(n as nat) + seq!['.', ' '] + t.title@,
        None => t.title@,
    }
}

impl TrackMetadata {
    /// The title, preceded by "<number>. " when the track number is known.
    pub fn display_title(&self) -> (r: String)
        ensures
            r@ == spec_display_title(*self),
    {
        match self.track_number {
            Some(n) => {
                let mut s = decimal_string(n);
                s.append(". ");
                proof {
                    reveal_strlit(". ");
                }
                s.append(self.title.as_str());
                s
            },
            None => self.title.clone(),
        }
    }

    pub fn display_artist(&self) -> (r: String)
        ensures
            r@ == self.artist@,
    {
        self.artist.clone()
    }

    pub fn display_album(&self) -> (r: String)
        ensures
            r@ == self.album@,
    {
        self.album.clone()
    }

    pub fn key(&self) -> (r: u32)
        ensures
            r == track_key(*self),
    {
        match self.track_number {
            Some(n) => n,
            None => 0,
        }
    }

    /// A field-by-field copy.
    pub fn duplicate(&self) -> (r: Self)
        ensures
            r == *self,
    {
        TrackMetadata {
            title: self.title.clone(),
            artist: self.artist.clone(),
            album: self.album.clone(),
            track_number: self.track_number,
            duration: self.duration,
            file_path: self.file_path.clone(),
        }
    }
}

/// An album: its name, its artist and its tracks in track order.
#[derive(Clone, Debug)]
pub struct Album {
    pub name: String,
    pub artist: String,
    pub tracks: Vec<TrackMetadata>,
}

pub open spec fn unknown_artist() -> Seq<char> {
    "Unknown Artist"@
}

/// "<artist> - <name>", or the name alone when the artist is unknown.
pub open spec fn spec_display_name(artist: Seq<char>, name: Seq<char>) -> Seq<char> {
    if artist != unknown_artist() {
        artist + seq![' ', '-', ' '] + name
    } else {
        name
    }
}

impl Album {
    /// An album with no tracks.
    pub fn new(name: String, artist: String) -> (r: Self)
        ensures
            r.name == name,
            r.artist == artist,
            r.tracks@ == Seq::<TrackMetadata>::empty(),
    {
        Album { name, artist, tracks: Vec::new() }
    }

    /// Adds a track, keeping the tracks in track order; among equal track
    /// numbers the earlier-added stays first.
    pub fn add_track(&mut self, track: TrackMetadata)
        requires
            tracks_ordered(old(self).tracks@),
        ensures
            tracks_ordered(final(self).tracks@),
            inserted_in_order(old(self).tracks@, track, final(self).tracks@),
            final(self).name == old(self).name,
            final(self).artist == old(self).artist,
    {
        let ghost before = self.tracks@;
        let k = track.key();
        let mut p: usize = 0;
        while p < self.tracks.len() && self.tracks[p].key() <= k
            invariant
                self.tracks@ == before,
                p <= before.len(),
                forall|i: int| 0 <= i < p ==> track_key(#[trigger] before[i]) <= k,
            decreases before.len() - p,
        {
            p = p + 1;
        }
        proof {
            assert forall|i: int| p <= i < before.len() implies track_key(#[trigger] before[i])
                > k by {
                assert(track_key(before[p as int]) > k);
                if i > p {
                    assert(track_key(before[p as int]) <= track_key(before[i]));
                }
            }
        }
        self.tracks.insert(p, track);
        proof {
            let after = self.tracks@;
            assert(after == before.insert(p as int, track));
            assert forall|i: int, j: int| 0 <= i < j < after.len() implies track_key(after[i])
                <= track_key(after[j]) by {
                if i < p && j < p {
                } else if i < p && j == p {
                } else if i < p {
                    assert(after[j] == before[j - 1]);
                } else if i == p {
                    assert(after[j] == before[j - 1]);
                } else {
                    assert(after[i] == before[i - 1]);
                    assert(after[j] == before[j - 1]);
                }
            }
        }
    }

    /// "<artist> - <name>", or the name alone when the artist is
    /// "Unknown Artist".
    pub fn display_name(&self) -> (r: String)
        ensures
            r@ == spec_display_name(self.artist@, self.name@),
    {
        let unknown = String::from_str("Unknown Artist");
        proof {
            reveal_strlit("Unknown Artist");
        }
        if self.artist != unknown {
            let mut s = self.artist.clone();
            s.append(" - ");
            proof {
                reveal_strlit(" - ");
            }
            s.append(self.name.as_str());
            s
        } else {
            self.name.clone()
        }
    }
}


/// Whether track `t` belongs to album `a`: same artist, same album name.
pub open spec fn belongs_to(t: TrackMetadata, a: Album) -> bool {
    a.artist@ == t.artist@ && a.name@ == t.album@
}

pub open spec fn album_display(a: Album) -> Seq<char> {
    spec_display_name(a.artist@, a.name@)
}

/// Every album keeps its tracks in track order.
pub open spec fn albums_wf(albums: Seq<Album>) -> bool {
    forall|i: int| 0 <= i < albums.len() ==> tracks_ordered(#[trigger] albums[i].tracks@)
}

/// Albums in order of their display names.
pub open spec fn albums_sorted(albums: Seq<Album>) -> bool {
    forall|i: int, j: int|
        0 <= i < j < albums.len() ==> text_le(album_display(albums[i]), album_display(albums[j]))
}

/// The collection of albums and the cursor over it.
#[derive(Clone, Debug)]
pub struct MusicLibrary {
    pub albums: Vec<Album>,
    pub all_tracks: Vec<TrackMetadata>,
    pub current_album_index: usize,
    pub current_track_index: usize,
    pub music_directory: Option<String>,
}

/// Number of tracks of the album under the cursor, 0 when there is none.
pub open spec fn spec_track_count(l: MusicLibrary) -> nat {
    if l.current_album_index < l.albums@.len() {
        l.albums@[l.current_album_index as int].tracks@.len()
    } else {
        0
    }
}

/// The cursor's album and track are unchanged.
pub open spec fn same_cursor(a: MusicLibrary, b: MusicLibrary) -> bool {
    a.current_album_index == b.current_album_index && a.current_track_index
        == b.current_track_index
}

/// Everything but the cursor is unchanged.
pub open spec fn same_contents(a: MusicLibrary, b: MusicLibrary) -> bool {
    a.albums@ == b.albums@ && a.all_tracks@ == b.all_tracks@ && a.music_directory
        == b.music_directory
}

impl MusicLibrary {
    /// An empty library with no directory.
    pub fn new() -> (r: Self)
        ensures
            r.albums@.len() == 0,
            r.all_tracks@.len() == 0,
            r.current_album_index == 0,
            r.current_track_index == 0,
            r.music_directory is None,
    {
        MusicLibrary {
            albums: Vec::new(),
            all_tracks: Vec::new(),
            current_album_index: 0,
            current_track_index: 0,
            music_directory: None,
        }
    }

    /// Starts a scan of `directory`: the library is emptied and the cursor
    /// goes back to the first track of the first album.
    pub fn begin_scan(&mut self, directory: String)
        ensures
            final(self).albums@.len() == 0,
            final(self).all_tracks@.len() == 0,
            final(self).current_album_index == 0,
            final(self).current_track_index == 0,
            final(self).music_directory == Some(directory),
    {
        self.music_directory = Some(directory);
        self.albums.clear();
        self.all_tracks.clear();
        self.current_album_index = 0;
        self.current_track_index = 0;
    }

    /// Index of the first album that `track` belongs to.
    pub fn find_album(&self, track: &TrackMetadata) -> (r: Option<usize>)
        ensures
            r matches Some(a) ==> a < self.albums@.len() && belongs_to(*track, self.albums@[a as int])
                && forall|j: int| 0 <= j < a ==> !belongs_to(*track, #[trigger] self.albums@[j]),
            r is None ==> forall|j: int|
                0 <= j < self.albums@.len() ==> !belongs_to(*track, #[trigger] self.albums@[j]),
    {
        let mut i: usize = 0;
        while i < self.albums.len()
            invariant
                i <= self.albums@.len(),
                forall|j: int| 0 <= j < i ==> !belongs_to(*track, #[trigger] self.albums@[j]),
            decreases self.albums@.len() - i,
        {
            if self.albums[i].artist == track.artist && self.albums[i].name == track.album {
                return Some(i);
            }
            i = i + 1;
        }
        None
    }

    /// Files a scanned track: it joins the first album with its artist and
    /// album name, or starts a new album placed before the first album whose
    /// display name sorts after its own.
    pub fn add_scanned_track(&mut self, track: TrackMetadata)
        requires
            albums_wf(old(self).albums@),
            albums_sorted(old(self).albums@),
        ensures
            albums_wf(final(self).albums@),
            albums_sorted(final(self).albums@),
            final(self).all_tracks@ == old(self).all_tracks@.push(track),
            same_cursor(*final(self), *old(self)),
            final(self).music_directory == old(self).music_directory,
            (exists|j: int|
                0 <= j < old(self).albums@.len() && belongs_to(track, #[trigger] old(self).albums@[j]))
                ==> exists|a: int|
                0 <= a < old(self).albums@.len() && belongs_to(track, old(self).albums@[a]) && (
                forall|j: int|
                    0 <= j < a ==> !belongs_to(track, #[trigger] old(self).albums@[j]))
                    && final(self).albums@.len() == old(self).albums@.len() && (forall|j: int|
                    0 <= j < old(self).albums@.len() && j != a ==> #[trigger] final(self).albums@[j]
                        == old(self).albums@[j]) && final(self).albums@[a].name
                    == old(self).albums@[a].name && final(self).albums@[a].artist
                    == old(self).albums@[a].artist && inserted_in_order(
                    old(self).albums@[a].tracks@,
                    track,
                    final(self).albums@[a].tracks@,
                ),
            (forall|j: int|
                0 <= j < old(self).albums@.len() ==> !belongs_to(track, #[trigger] old(self).albums@[j]))
                ==> exists|p: int|
                0 <= p <= old(self).albums@.len() && final(self).albums@.len()
                    == old(self).albums@.len() + 1 && (forall|j: int|
                    0 <= j < p ==> #[trigger] final(self).albums@[j] == old(self).albums@[j]
                        && text_le(album_display(old(self).albums@[j]), album_display(final(self).albums@[p])))
                    && (forall|j: int|
                    p < j < final(self).albums@.len() ==> #[trigger] final(self).albums@[j]
                        == old(self).albums@[j - 1]) && (p < old(self).albums@.len() ==> !text_le(
                    album_display(old(self).albums@[p]),
                    album_display(final(self).albums@[p]),
                )) && final(self).albums@[p].name@ == track.album@ && final(self).albums@[p].artist@
                    == track.artist@ && final(self).albums@[p].tracks@ == seq![track],
    {
        let ghost before = self.albums@;
        self.all_tracks.push(track.duplicate());
        match self.find_album(&track) {
            Some(a) => {
                let mut album = self.albums.remove(a);
                proof {
                    assert(album == before[a as int]);
                    assert(tracks_ordered(before[a as int].tracks@));
                }
                album.add_track(track);
                let ghost updated = album;
                self.albums.insert(a, album);
                proof {
                    assert(self.albums@[a as int] == updated);
                    assert forall|j: int| 0 <= j < before.len() && j != a implies #[trigger] self.albums@[j]
                        == before[j] by {
                        if j < a {
                        } else {
                        }
                    }
                    assert forall|i: int| 0 <= i < self.albums@.len() implies tracks_ordered(
                        #[trigger] self.albums@[i].tracks@,
                    ) by {
                        if i != a {
                            assert(self.albums@[i] == before[i]);
                            assert(tracks_ordered(before[i].tracks@));
                        }
                    }
                    assert forall|i: int| 0 <= i < self.albums@.len() implies album_display(
                        #[trigger] self.albums@[i],
                    ) == album_display(before[i]) by {
                        if i != a {
                            assert(self.albums@[i] == before[i]);
                        }
                    }
                }
            },
            None => {
                let mut album = Album::new(track.album.clone(), track.artist.clone());
                album.add_track(track);
                proof {
                    assert(album.tracks@ =~= seq![track]);
                }
                let name = album.display_name();
                let mut p: usize = 0;
                while p < self.albums.len() && text_le_exec(
                    self.albums[p].display_name().as_str(),
                    name.as_str(),
                )
                    invariant
                        self.albums@ == before,
                        albums_wf(before),
                        albums_sorted(before),
                        p <= before.len(),
                        name@ == album_display(album),
                        forall|j: int|
                            0 <= j < p ==> text_le(album_display(#[trigger] before[j]), name@),
                    decreases before.len() - p,
                {
                    p = p + 1;
                }
                let ghost newest = album;
                self.albums.insert(p, album);
                proof {
                    assert(self.albums@[p as int] == newest);
                    assert forall|i: int| 0 <= i < self.albums@.len() implies tracks_ordered(
                        #[trigger] self.albums@[i].tracks@,
                    ) by {
                        if i < p {
                            assert(self.albums@[i] == before[i]);
                            assert(tracks_ordered(before[i].tracks@));
                        } else if i > p {
                            assert(self.albums@[i] == before[i - 1]);
                            assert(tracks_ordered(before[i - 1].tracks@));
                        } else {
                            assert(self.albums@[i].tracks@ == seq![track]);
                            assert(tracks_ordered(seq![track]));
                        }
                    }
                    assert(forall|j: int|
                        p < j < self.albums@.len() ==> #[trigger] self.albums@[j] == before[j - 1]);
                    let ghost d = album_display(newest);
                    assert forall|k: int| p <= k < before.len() implies text_le(
                        d,
                        album_display(#[trigger] before[k]),
                    ) by {
                        lemma_text_le_total(album_display(before[p as int]), d);
                        if k > p {
                            lemma_text_le_transitive(
                                d,
                                album_display(before[p as int]),
                                album_display(before[k]),
                            );
                        }
                    }
                    let after = self.albums@;
                    assert forall|i: int, j: int| 0 <= i < j < after.len() implies text_le(
                        album_display(after[i]),
                        album_display(after[j]),
                    ) by {
                        if j < p {
                            assert(after[i] == before[i] && after[j] == before[j]);
                        } else if j == p {
                            assert(after[i] == before[i]);
                        } else if i == p {
                            assert(after[j] == before[j - 1]);
                        } else if i < p {
                            assert(after[i] == before[i] && after[j] == before[j - 1]);
                            lemma_text_le_transitive(
                                album_display(before[i]),
                                d,
                                album_display(before[j - 1]),
                            );
                        } else {
                            assert(after[i] == before[i - 1] && after[j] == before[j - 1]);
                        }
                    }
                }
            },
        }
    }
}

proof fn lemma_wrap_succ(i: int, n: int)
    requires
        0 <= i,
        0 < n,
    ensures
        (i % n + 1) % n == (i + 1) % n,
        i % n + 1 <= n,
{
    vstd::arithmetic::div_mod::lemma_add_mod_noop(i, 1, n);
    if n > 1 {
        vstd::arithmetic::div_mod::lemma_small_mod(1, n as nat);
    }
    vstd::arithmetic::div_mod::lemma_mod_bound(i, n);
}

impl MusicLibrary {
    /// The album under the cursor.
    pub fn get_current_album(&self) -> (r: Option<&Album>)
        ensures
            r is None <==> self.current_album_index >= self.albums@.len(),
            r matches Some(a) ==> *a == self.albums@[self.current_album_index as int],
    {
        if self.current_album_index < self.albums.len() {
            Some(&self.albums[self.current_album_index])
        } else {
            None
        }
    }

    /// The track under the cursor.
    pub fn get_current_track(&self) -> (r: Option<&TrackMetadata>)
        ensures
            r is None <==> !(self.current_album_index < self.albums@.len()
                && self.current_track_index < spec_track_count(*self)),
            r matches Some(t) ==> *t == self.albums@[self.current_album_index as int].tracks@[self.current_track_index as int],
    {
        match self.get_current_album() {
            Some(album) => if self.current_track_index < album.tracks.len() {
                Some(&album.tracks[self.current_track_index])
            } else {
                None
            },
            None => None,
        }
    }

    /// File of the track under the cursor.
    pub fn get_current_track_path(&self) -> (r: Option<String>)
        ensures
            r is None <==> !(self.current_album_index < self.albums@.len()
                && self.current_track_index < spec_track_count(*self)),
            r matches Some(p) ==> p@ == self.albums@[self.current_album_index as int].tracks@[self.current_track_index as int].file_path@,
    {
        match self.get_current_track() {
            Some(t) => Some(t.file_path.clone()),
            None => None,
        }
    }

    /// Moves to the next album, wrapping round, at its first track.
    pub fn next_album(&mut self)
        ensures
            same_contents(*final(self), *old(self)),
            old(self).albums@.len() == 0 ==> same_cursor(*final(self), *old(self)),
            old(self).albums@.len() > 0 ==> final(self).current_album_index == (
            old(self).current_album_index + 1) % (old(self).albums@.len() as int)
                && final(self).current_track_index == 0,
    {
        let n = self.albums.len();
        if n > 0 {
            let i = self.current_album_index;
            let r = (i % n + 1) % n;
            proof {
                lemma_wrap_succ(i as int, n as int);
            }
            self.current_album_index = r;
            self.current_track_index = 0;
        }
    }

    /// Moves to the previous album, wrapping round, at its first track.
    pub fn prev_album(&mut self)
        ensures
            same_contents(*final(self), *old(self)),
            old(self).albums@.len() == 0 ==> same_cursor(*final(self), *old(self)),
            old(self).albums@.len() > 0 ==> final(self).current_album_index == (if old(
                self,
            ).current_album_index == 0 {
                old(self).albums@.len() - 1
            } else {
                old(self).current_album_index - 1
            }) && final(self).current_track_index == 0,
    {
        if self.albums.len() > 0 {
            self.current_album_index = if self.current_album_index == 0 {
                self.albums.len() - 1
            } else {
                self.current_album_index - 1
            };
            self.current_track_index = 0;
        }
    }

    /// Moves to the next track of the current album, wrapping round.
    pub fn next_track(&mut self)
        ensures
            same_contents(*final(self), *old(self)),
            final(self).current_album_index == old(self).current_album_index,
            spec_track_count(*old(self)) == 0 ==> final(self).current_track_index == old(
                self,
            ).current_track_index,
            spec_track_count(*old(self)) > 0 ==> final(self).current_track_index == (old(
                self,
            ).current_track_index + 1) % (spec_track_count(*old(self)) as int),
    {
        let n = self.track_count();
        if n > 0 {
            let i = self.current_track_index;
            proof {
                lemma_wrap_succ(i as int, n as int);
            }
            self.current_track_index = (i % n + 1) % n;
        }
    }

    /// Moves to the previous track of the current album, wrapping round.
    pub fn prev_track(&mut self)
        ensures
            same_contents(*final(self), *old(self)),
            final(self).current_album_index == old(self).current_album_index,
            spec_track_count(*old(self)) == 0 ==> final(self).current_track_index == old(
                self,
            ).current_track_index,
            spec_track_count(*old(self)) > 0 ==> final(self).current_track_index == (if old(
                self,
            ).current_track_index == 0 {
                spec_track_count(*old(self)) - 1
            } else {
                old(self).current_track_index - 1
            }),
    {
        let n = self.track_count();
        if n > 0 {
            self.current_track_index = if self.current_track_index == 0 {
                n - 1
            } else {
                self.current_track_index - 1
            };
        }
    }

    /// Selects album `index`, at its first track, if there is such an album.
    pub fn set_album(&mut self, index: usize)
        ensures
            same_contents(*final(self), *old(self)),
            index < old(self).albums@.len() ==> final(self).current_album_index == index
                && final(self).current_track_index == 0,
            index >= old(self).albums@.len() ==> same_cursor(*final(self), *old(self)),
    {
        if index < self.albums.len() {
            self.current_album_index = index;
            self.current_track_index = 0;
        }
    }

    /// Selects track `index` of the current album, if it has such a track.
    pub fn set_track(&mut self, index: usize)
        ensures
            same_contents(*final(self), *old(self)),
            final(self).current_album_index == old(self).current_album_index,
            final(self).current_track_index == if index < spec_track_count(*old(self)) {
                index
            } else {
                old(self).current_track_index
            },
    {
        if index < self.track_count() {
            self.current_track_index = index;
        }
    }

    /// Tracks of album `album_index`.
    pub fn get_album_tracks(&self, album_index: usize) -> (r: Option<&Vec<TrackMetadata>>)
        ensures
            r is None <==> album_index >= self.albums@.len(),
            r matches Some(v) ==> v@ == self.albums@[album_index as int].tracks@,
    {
        if album_index < self.albums.len() {
            Some(&self.albums[album_index].tracks)
        } else {
            None
        }
    }

    pub fn is_empty(&self) -> (r: bool)
        ensures
            r == (self.albums@.len() == 0),
    {
        self.albums.len() == 0
    }

    pub fn album_count(&self) -> (r: usize)
        ensures
            r == self.albums@.len(),
    {
        self.albums.len()
    }

    /// Number of tracks of the current album, 0 when there is none.
    pub fn track_count(&self) -> (r: usize)
        ensures
            r == spec_track_count(*self),
    {
        match self.get_current_album() {
            Some(album) => album.tracks.len(),
            None => 0,
        }
    }
}
/// File extensions, in lower case, that the library picks up.
pub open spec fn is_audio_extension_lower(e: Seq<char>) -> bool {
    e == "mp3"@ || e == "flac"@ || e == "wav"@ || e == "ogg"@ || e == "m4a"@ || e == "aac"@
}

/// Whether a lower-case extension names a supported audio file.
pub fn is_audio_extension_lower_exec(e: &str) -> (r: bool)
    ensures
        r == is_audio_extension_lower(e@),
{
    let e = String::from_str(e);
    e == String::from_str("mp3") || e == String::from_str("flac") || e == String::from_str("wav")
        || e == String::from_str("ogg") || e == String::from_str("m4a") || e == String::from_str(
        "aac",
    )
}

/// Whether a file extension, in any case, names a supported audio file.
pub fn is_audio_extension(ext: &str) -> (r: bool)
    ensures
        r == is_audio_extension_lower(lower_of(ext@)),
{
    let lower = lowercase(ext);
    is_audio_extension_lower_exec(lower.as_str())
}

} // verus!
