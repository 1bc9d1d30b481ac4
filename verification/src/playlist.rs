//! The playlist: a fixed, sorted list of tracks and a cursor that wraps.

use vstd::arithmetic::div_mod::{
    lemma_add_mod_noop, lemma_add_mod_noop_right, lemma_mod_add_multiples_vanish, lemma_mod_self_0, lemma_small_mod,
};
use vstd::multiset::{lemma_multiset_empty_len, Multiset};
use vstd::prelude::*;
use vstd::seq_lib::{to_multiset_build, to_multiset_insert};
use vstd::utf8::encode_utf8;
use crate::paths::file_stem;
use crate::track::{
    audio_path, display_name, is_audio_file, lemma_lex_le_total, lemma_lex_le_transitive, path_le,
    sorted, Track,
};

verus! {

/// One entry that a scan of the music directory came upon.
#[derive(Debug)]
pub struct FoundEntry {
    /// The entry's path, as text.
    pub path: String,
    /// Whether the entry is a regular file (after following links).
    pub is_file: bool,
}

impl FoundEntry {
    /// Whether the entry becomes a track: a regular file with an audio
    /// extension.
    pub open spec fn is_track(&self) -> bool {
        self.is_file && audio_path(self.path@)
    }
}

/// The paths of the entries that become tracks, in scan order.
pub open spec fn track_paths(entries: Seq<FoundEntry>) -> Seq<Seq<char>>
    decreases entries.len(),
{
    if entries.len() == 0 {
        Seq::empty()
    } else {
        let earlier = track_paths(entries.drop_last());
        if entries.last().is_track() {
            earlier.push(entries.last().path@)
        } else {
            earlier
        }
    }
}

/// Why no playlist could be made.
#[derive(Debug, Clone, Copy, PartialEq, Eq, Structural)]
pub enum PlaylistError {
    /// The scan found no audio file.
    EmptyCollection,
}

/// One line of the track list as it is shown.
#[derive(Debug)]
pub struct TrackRow {
    /// The track's number, counted from one.
    pub number: usize,
    /// The track's display name.
    pub name: String,
    /// Whether the cursor is on this track.
    pub current: bool,
}

/// A playlist as a mathematical value: the track paths in order, and the
/// position of the cursor.
pub struct PlaylistView {
    pub tracks: Seq<Seq<char>>,
    pub cursor: int,
}

impl PlaylistView {
    /// The cursor points at a track; in particular there is one.
    pub open spec fn wf(self) -> bool {
        0 <= self.cursor < self.tracks.len()
    }

    /// The path of the track under the cursor.
    pub open spec fn current(self) -> Seq<char> {
        self.tracks[self.cursor]
    }

    /// The cursor moved one track on, from the last track to the first.
    pub open spec fn advance(self) -> PlaylistView {
        PlaylistView { tracks: self.tracks, cursor: (self.cursor + 1) % (self.tracks.len() as int) }
    }

    /// The cursor moved one track back, from the first track to the last.
    pub open spec fn retreat(self) -> PlaylistView {
        PlaylistView {
            tracks: self.tracks,
            cursor: (self.cursor - 1 + self.tracks.len()) % (self.tracks.len() as int),
        }
    }

    /// The cursor set to `index` where that is a track, and left alone
    /// where it is not.
    pub open spec fn select(self, index: int) -> PlaylistView {
        if 0 <= index < self.tracks.len() {
            PlaylistView { tracks: self.tracks, cursor: index }
        } else {
            self
        }
    }

    /// The cursor moved on `n` times.
    pub open spec fn advance_by(self, n: nat) -> PlaylistView
        decreases n,
    {
        if n == 0 {
            self
        } else {
            self.advance().advance_by((n - 1) as nat)
        }
    }
}

/// One step on from `cursor` among `len` tracks, without the remainder.
proof fn lemma_step_on(cursor: int, len: int)
    requires
        0 <= cursor < len,
    ensures
        (cursor + 1) % len == if cursor + 1 == len {
            0
        } else {
            cursor + 1
        },
{
    if cursor + 1 == len {
        lemma_mod_self_0(len);
    } else {
        lemma_small_mod((cursor + 1) as nat, len as nat);
    }
}

/// One step back from `cursor` among `len` tracks, without the remainder.
proof fn lemma_step_back(cursor: int, len: int)
    requires
        0 <= cursor < len,
    ensures
        (cursor - 1 + len) % len == if cursor == 0 {
            len - 1
        } else {
            cursor - 1
        },
{
    if cursor == 0 {
        lemma_small_mod((len - 1) as nat, len as nat);
    } else {
        lemma_mod_add_multiples_vanish(cursor - 1, len);
        lemma_small_mod((cursor - 1) as nat, len as nat);
    }
}

/// Moving the cursor never takes it off the list, and never changes the
/// list.
pub proof fn lemma_moves_keep_wf(v: PlaylistView, index: int)
    requires
        v.wf(),
    ensures
        v.advance().wf(),
        v.retreat().wf(),
        v.select(index).wf(),
        v.advance().tracks == v.tracks,
        v.retreat().tracks == v.tracks,
        v.select(index).tracks == v.tracks,
{
    lemma_step_on(v.cursor, v.tracks.len() as int);
    lemma_step_back(v.cursor, v.tracks.len() as int);
}

/// Moving on `n` times from `v` puts the cursor `n` places further round
/// the list.
proof fn lemma_advance_by(v: PlaylistView, n: nat)
    requires
        v.wf(),
    ensures
        v.advance_by(n).tracks == v.tracks,
        v.advance_by(n).cursor == (v.cursor + n) % (v.tracks.len() as int),
    decreases n,
{
    let len = v.tracks.len() as int;
    if n == 0 {
        lemma_small_mod(v.cursor as nat, len as nat);
    } else {
        lemma_moves_keep_wf(v, 0);
        lemma_advance_by(v.advance(), (n - 1) as nat);
        lemma_add_mod_noop(v.cursor + 1, n - 1, len);
        lemma_add_mod_noop_right((v.cursor + 1) % len, n - 1, len);
    }
}

/// Moving on as many times as there are tracks brings the cursor back to
/// where it started.
pub proof fn lemma_advance_full_circle(v: PlaylistView)
    requires
        v.wf(),
    ensures
        v.advance_by(v.tracks.len()) == v,
{
    let len = v.tracks.len() as int;
    lemma_advance_by(v, v.tracks.len());
    lemma_mod_add_multiples_vanish(v.cursor, len);
    lemma_small_mod(v.cursor as nat, len as nat);
}

/// Moving back undoes moving on.
pub proof fn lemma_retreat_undoes_advance(v: PlaylistView)
    requires
        v.wf(),
    ensures
        v.advance().retreat() == v,
{
    let len = v.tracks.len() as int;
    lemma_step_on(v.cursor, len);
    lemma_step_back(v.advance().cursor, len);
}

/// Moving on undoes moving back.
pub proof fn lemma_advance_undoes_retreat(v: PlaylistView)
    requires
        v.wf(),
    ensures
        v.retreat().advance() == v,
{
    let len = v.tracks.len() as int;
    lemma_step_back(v.cursor, len);
    lemma_step_on(v.retreat().cursor, len);
}

/// Selecting an index that names no track changes nothing.
pub proof fn lemma_select_out_of_range(v: PlaylistView, index: int)
    requires
        index < 0 || index >= v.tracks.len(),
    ensures
        v.select(index) == v,
{
}

/// The paths of a sequence of tracks.
pub open spec fn track_views(tracks: Seq<Track>) -> Seq<Seq<char>> {
    tracks.map_values(|t: Track| t@)
}

/// An empty list holds no path at all.
proof fn lemma_nothing_in_empty(paths: Seq<Seq<char>>)
    requires
        paths.len() == 0,
    ensures
        paths.to_multiset() =~= Multiset::empty(),
{
    paths.to_multiset_ensures();
    lemma_multiset_empty_len(paths.to_multiset());
}

/// Puts `track` into the sorted list `songs` at its place, behind the
/// tracks with the same path.
fn insert_sorted(songs: &mut Vec<Track>, track: Track)
    requires
        sorted(track_views(old(songs)@)),
    ensures
        sorted(track_views(final(songs)@)),
        track_views(final(songs)@).to_multiset() == track_views(old(songs)@).to_multiset().insert(
            track@,
        ),
{
    let ghost before = track_views(songs@);
    let mut lo: usize = 0;
    let mut hi: usize = songs.len();
    while lo < hi
        invariant
            lo <= hi <= songs@.len(),
            before == track_views(songs@),
            sorted(before),
            forall|j: int| 0 <= j < lo ==> path_le(#[trigger] before[j], track@),
            forall|j: int| hi <= j < before.len() ==> !path_le(#[trigger] before[j], track@),
        decreases hi - lo,
    {
        let mid = lo + (hi - lo) / 2;
        if songs[mid].precedes(&track) {
            assert forall|j: int| 0 <= j < mid + 1 implies path_le(
                #[trigger] before[j],
                track@,
            ) by {
                if j < mid {
                    assert(path_le(before[j], before[mid as int]));
                    lemma_lex_le_transitive(
                        encode_utf8(before[j]),
                        encode_utf8(before[mid as int]),
                        encode_utf8(track@),
                    );
                }
            }
            lo = mid + 1;
        } else {
            assert forall|j: int| mid <= j < before.len() implies !path_le(
                #[trigger] before[j],
                track@,
            ) by {
                if mid < j && path_le(before[j], track@) {
                    assert(path_le(before[mid as int], before[j]));
                    lemma_lex_le_transitive(
                        encode_utf8(before[mid as int]),
                        encode_utf8(before[j]),
                        encode_utf8(track@),
                    );
                }
            }
            hi = mid;
        }
    }
    proof {
        let after = before.insert(lo as int, track@);
        assert(track_views(songs@.insert(lo as int, track)) =~= after);
        to_multiset_insert(before, lo as int, track@);
        assert forall|i: int, j: int| 0 <= i < j < after.len() implies path_le(
            after[i],
            after[j],
        ) by {
            if i == lo {
                lemma_lex_le_total(
                    encode_utf8(before[j - 1]),
                    encode_utf8(track@),
                );
            }
        }
    }
    songs.insert(lo, track);
}

/// An ordered list of tracks, never empty, with a cursor on one of them.
#[derive(Debug)]
pub struct Playlist {
    songs: Vec<Track>,
    current_index: usize,
}

impl View for Playlist {
    type V = PlaylistView;

    closed spec fn view(&self) -> PlaylistView {
        PlaylistView { tracks: track_views(self.songs@), cursor: self.current_index as int }
    }
}

impl Playlist {
    /// What holds of every playlist: it has a track, and the cursor is on one.
    #[verifier::type_invariant]
    pub open spec fn inv(&self) -> bool {
        self@.wf()
    }

    /// Makes the playlist of a scanned directory: the audio files among the
    /// entries, sorted by path, with the cursor on the first.
    ///
    /// Fails with `EmptyCollection` exactly when no entry is an audio file.
    pub fn new_from_dir(entries: Vec<FoundEntry>) -> (r: Result<Playlist, PlaylistError>)
        ensures
            match r {
                Ok(playlist) => {
                    &&& track_paths(entries@).len() > 0
                    &&& playlist@.cursor == 0
                    &&& sorted(playlist@.tracks)
                    &&& playlist@.tracks.to_multiset() == track_paths(entries@).to_multiset()
                },
                Err(e) => e == PlaylistError::EmptyCollection && track_paths(entries@).len() == 0,
            },
    {
        let ghost all = entries@;
        let mut entries = entries;
        let mut songs: Vec<Track> = Vec::new();
        proof {
            assert(all.take(all.len() as int) =~= all);
            lemma_nothing_in_empty(track_views(songs@));
        }
        while entries.len() > 0
            invariant
                entries@.len() <= all.len(),
                entries@ == all.take(entries@.len() as int),
                sorted(track_views(songs@)),
                track_views(songs@).to_multiset().add(track_paths(entries@).to_multiset())
                    == track_paths(all).to_multiset(),
            decreases entries@.len(),
        {
            let ghost remaining = entries@;
            let entry = entries.pop().unwrap();
            proof {
                assert(entries@ =~= remaining.drop_last());
                assert(entries@ =~= all.take(entries@.len() as int));
                assert(entry == remaining.last());
                to_multiset_build(track_paths(entries@), entry.path@);
            }
            if entry.is_file && is_audio_file(entry.path.as_str()) {
                insert_sorted(&mut songs, Track::new(entry.path));
            }
            assert(track_views(songs@).to_multiset().add(track_paths(entries@).to_multiset())
                =~= track_paths(all).to_multiset());
        }
        proof {
            lemma_nothing_in_empty(track_paths(entries@));
            assert(track_views(songs@).to_multiset() =~= track_paths(all).to_multiset());
            track_views(songs@).to_multiset_ensures();
            track_paths(all).to_multiset_ensures();
        }
        if songs.len() == 0 {
            Err(PlaylistError::EmptyCollection)
        } else {
            Ok(Playlist { songs, current_index: 0 })
        }
    }

    /// The track under the cursor. There always is one.
    pub fn current(&self) -> (r: Option<&Track>)
        ensures
            r matches Some(track) && track@ == self@.current(),
    {
        proof {
            use_type_invariant(self);
        }
        Some(&self.songs[self.current_index])
    }

    /// Moves the cursor one track on, from the last to the first, and gives
    /// the track it lands on.
    pub fn next(&mut self) -> (r: Option<&Track>)
        ensures
            final(self)@ == old(self)@.advance(),
            r matches Some(track) && track@ == final(self)@.current(),
    {
        proof {
            use_type_invariant(&*self);
        }
        let len = self.songs.len();
        self.current_index = (self.current_index + 1) % len;
        self.current()
    }

    /// Moves the cursor one track back, from the first to the last, and
    /// gives the track it lands on.
    pub fn prev(&mut self) -> (r: Option<&Track>)
        ensures
            final(self)@ == old(self)@.retreat(),
            r matches Some(track) && track@ == final(self)@.current(),
    {
        proof {
            use_type_invariant(&*self);
            lemma_step_back(self.current_index as int, self.songs@.len() as int);
        }
        if self.current_index == 0 {
            self.current_index = self.songs.len() - 1;
        } else {
            self.current_index -= 1;
        }
        self.current()
    }

    /// Puts the cursor on the track at `index` and gives that track; with an
    /// index that names no track, changes nothing and gives `None`.
    pub fn play_index(&mut self, index: usize) -> (r: Option<&Track>)
        ensures
            final(self)@ == old(self)@.select(index as int),
            index < old(self)@.tracks.len() ==> (r matches Some(track) && track@ == old(
                self,
            )@.tracks[index as int]),
            index >= old(self)@.tracks.len() ==> r is None,
    {
        proof {
            use_type_invariant(&*self);
        }
        if index < self.songs.len() {
            self.current_index = index;
            self.current()
        } else {
            None
        }
    }

    /// The position of the cursor.
    pub fn current_index(&self) -> (index: usize)
        ensures
            index == self@.cursor,
            self@.wf(),
    {
        proof {
            use_type_invariant(self);
        }
        self.current_index
    }

    /// The number of tracks, which is at least one.
    pub fn len(&self) -> (len: usize)
        ensures
            len == self@.tracks.len(),
            len >= 1,
    {
        proof {
            use_type_invariant(self);
        }
        self.songs.len()
    }

    /// Every track with its position, in order.
    pub fn list(&self) -> (tracks: Vec<(usize, &Track)>)
        ensures
            tracks@.len() == self@.tracks.len(),
            forall|i: int|
                0 <= i < tracks@.len() ==> (#[trigger] tracks@[i]).0 == i && tracks@[i].1@
                    == self@.tracks[i],
    {
        let mut tracks: Vec<(usize, &Track)> = Vec::new();
        let mut i: usize = 0;
        while i < self.songs.len()
            invariant
                i <= self.songs@.len(),
                tracks@.len() == i,
                forall|k: int|
                    0 <= k < i ==> (#[trigger] tracks@[k]).0 == k && tracks@[k].1@
                        == self.songs@[k]@,
            decreases self.songs@.len() - i,
        {
            tracks.push((i, &self.songs[i]));
            i += 1;
        }
        tracks
    }

    /// The cursor and the list in one reading, for display.
    pub fn snapshot(&self) -> (snapshot: (usize, Vec<(usize, &Track)>))
        ensures
            snapshot.0 == self@.cursor,
            self@.wf(),
            snapshot.1@.len() == self@.tracks.len(),
            forall|i: int|
                0 <= i < snapshot.1@.len() ==> (#[trigger] snapshot.1@[i]).0 == i && snapshot.1@[i].1@
                    == self@.tracks[i],
    {
        (self.current_index(), self.list())
    }

    /// The first `limit` lines of the track list, or all of them where the
    /// list is shorter: each track's number, its display name, and whether
    /// the cursor is on it.
    pub fn rows(&self, limit: usize) -> (rows: Vec<TrackRow>)
        ensures
            rows@.len() == if limit < self@.tracks.len() {
                limit as int
            } else {
                self@.tracks.len() as int
            },
            forall|i: int|
                0 <= i < rows@.len() ==> {
                    &&& (#[trigger] rows@[i]).number == i + 1
                    &&& rows@[i].name@ == display_name(file_stem(self@.tracks[i]))
                    &&& rows@[i].current == (i == self@.cursor)
                },
    {
        let shown = if limit < self.songs.len() {
            limit
        } else {
            self.songs.len()
        };
        let mut rows: Vec<TrackRow> = Vec::new();
        let mut i: usize = 0;
        while i < shown
            invariant
                i <= shown <= self.songs@.len(),
                rows@.len() == i,
                forall|k: int|
                    0 <= k < i ==> {
                        &&& (#[trigger] rows@[k]).number == k + 1
                        &&& rows@[k].name@ == display_name(file_stem(self.songs@[k]@))
                        &&& rows@[k].current == (k == self.current_index)
                    },
            decreases shown - i,
        {
            rows.push(
                TrackRow {
                    number: i + 1,
                    name: self.songs[i].display_name(),
                    current: i == self.current_index,
                },
            );
            i += 1;
        }
        rows
    }

    /// The display name of the track under the cursor.
    pub fn current_song_name(&self) -> (name: String)
        ensures
            name@ == display_name(file_stem(self@.current())),
    {
        proof {
            use_type_invariant(self);
        }
        self.songs[self.current_index].display_name()
    }
}

} // verus!
