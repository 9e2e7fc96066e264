//! Building persistence requests out of snapshots.
//!
//! [`plan_cycle`] is the decision half of one poll cycle: given the detector
//! state and the cycle's snapshot, it either hands back the play record that
//! should be persisted this cycle, or nothing. The caller performs the actual
//! store, then feeds the outcome back through
//! [`CachedData::update`](crate::detector::CachedData::update).

use vstd::prelude::*;

use crate::detector::CachedData;
use crate::detector::SongData;
use crate::detector::SongDataView;
use crate::detector::spec_should_upload;

verus! {

/// The unit handed to the persistence sink: what to store about one play.
/// The sink assigns the stored record's identifier and creation time itself.
pub struct PlayRecord {
    pub song_name: String,
    pub song_artist: Vec<String>,
    pub song_album: String,
}

/// The mathematical value of a [`PlayRecord`].
pub struct PlayRecordView {
    pub song_name: Seq<char>,
    pub song_artist: Seq<Seq<char>>,
    pub song_album: Seq<char>,
}

impl View for PlayRecord {
    type V = PlayRecordView;

    open spec fn view(&self) -> PlayRecordView {
        PlayRecordView {
            song_name: self.song_name.deep_view(),
            song_artist: self.song_artist.deep_view(),
            song_album: self.song_album.deep_view(),
        }
    }
}

/// Whether a snapshot carries everything a play record needs: track name,
/// artist list and album all present.
pub open spec fn spec_complete(song: SongDataView) -> bool {
    song.name is Some && song.artists is Some && song.album is Some
}

/// The play record described by a complete snapshot.
pub open spec fn spec_record_of(song: SongDataView) -> PlayRecordView
    recommends
        spec_complete(song),
{
    PlayRecordView {
        song_name: song.name->0,
        song_artist: song.artists->0,
        song_album: song.album->0,
    }
}

fn clone_strings(v: &Vec<String>) -> (r: Vec<String>)
    ensures
        r@ == v@,
{
    let mut r: Vec<String> = Vec::new();
    let mut i: usize = 0;
    while i < v.len()
        invariant
            i <= v.len(),
            r@ == v@.subrange(0, i as int),
        decreases v.len() - i,
    {
        r.push(v[i].clone());
        assert(v@.subrange(0, i as int).push(v@[i as int]) =~= v@.subrange(0, i as int + 1));
        i = i + 1;
    }
    assert(v@.subrange(0, v@.len() as int) =~= v@);
    r
}

/// The play record a snapshot describes, if the snapshot is complete.
pub fn play_record_of(song: &SongData) -> (r: Option<PlayRecord>)
    ensures
        r is Some <==> spec_complete(song@),
        r matches Some(rec) ==> rec@ == spec_record_of(song@),
{
    match (&song.name, &song.artists, &song.album) {
        (Some(name), Some(artists), Some(album)) => Some(PlayRecord {
            song_name: name.clone(),
            song_artist: clone_strings(artists),
            song_album: album.clone(),
        }),
        _ => None,
    }
}

/// The decision half of one poll cycle: the record to persist this cycle, if
/// any. A persistence attempt is owed exactly when the detector signals and
/// the snapshot is complete; a signalled but incomplete snapshot produces no
/// record, and the cycle then counts as not persisted.
pub fn plan_cycle(cache: &CachedData, song: &SongData) -> (r: Option<PlayRecord>)
    ensures
        r is Some <==> spec_should_upload(cache@, song@) && spec_complete(song@),
        r matches Some(rec) ==> rec@ == spec_record_of(song@),
{
    if cache.should_upload(song) {
        play_record_of(song)
    } else {
        None
    }
}

} // verus!
