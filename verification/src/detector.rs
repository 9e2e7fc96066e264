//! The play-event detector: a pure state machine over playback snapshots.
//!
//! One poll cycle looks at the newest snapshot, asks [`CachedData::should_upload`]
//! whether this cycle should attempt to persist a play record, and then calls
//! [`CachedData::update`] exactly once with the snapshot and the outcome of any
//! persistence attempt. The state remembers the last snapshot seen and whether
//! the current contiguous play has already been credited with a record.

use vstd::prelude::*;

verus! {

/// Minimum elapsed playback, in milliseconds, before a play counts as genuine.
pub const RECORD_THRESHOLD_MS: u32 = 30000;

/// One poll's view of what is playing. Every field may be absent: the source
/// may report nothing, or incomplete data.
#[derive(Clone, Default)]
pub struct SongData {
    /// Elapsed playback position within the track.
    pub progress_ms: Option<u32>,
    /// Name of the playing track; absence means nothing is playing or the
    /// data is incomplete.
    pub name: Option<String>,
    /// The track's artists, in order.
    pub artists: Option<Vec<String>>,
    /// The track's album.
    pub album: Option<String>,
}

/// The mathematical value of a [`SongData`]: the same four fields, with the
/// strings read as character sequences.
pub struct SongDataView {
    pub progress_ms: Option<u32>,
    pub name: Option<Seq<char>>,
    pub artists: Option<Seq<Seq<char>>>,
    pub album: Option<Seq<char>>,
}

impl View for SongData {
    type V = SongDataView;

    open spec fn view(&self) -> SongDataView {
        SongDataView {
            progress_ms: self.progress_ms,
            name: self.name.deep_view(),
            artists: self.artists.deep_view(),
            album: self.album.deep_view(),
        }
    }
}

/// The playback position of a snapshot, an absent position counting as zero.
/// This is how [`CachedData::update`] reads positions when it decides whether
/// a credited track has been rewound.
pub open spec fn position_or_zero(song: SongDataView) -> u32 {
    match song.progress_ms {
        Some(ms) => ms,
        None => 0,
    }
}

/// Detector state for one monitored listener.
pub struct CachedData {
    /// The last snapshot observed, or none before the first poll.
    pub previous: Option<SongData>,
    /// True once the current contiguous play of `previous`'s track has
    /// already produced a persisted record.
    pub has_uploaded: bool,
}

/// The mathematical value of a [`CachedData`].
pub struct CachedDataView {
    pub previous: Option<SongDataView>,
    pub has_uploaded: bool,
}

impl View for CachedData {
    type V = CachedDataView;

    open spec fn view(&self) -> CachedDataView {
        CachedDataView {
            previous: match self.previous {
                Some(song) => Some(song@),
                None => None,
            },
            has_uploaded: self.has_uploaded,
        }
    }
}

/// What [`CachedData::should_upload`] decides: attempt a record on the very
/// first observed snapshot iff its position has already reached the
/// threshold; afterwards, iff the position advanced since the previous
/// snapshot, the current play has not been credited yet, and the position has
/// reached the threshold. Whenever either position is absent there is not
/// enough data to judge, and no attempt is made.
pub open spec fn spec_should_upload(state: CachedDataView, song: SongDataView) -> bool {
    match state.previous {
        Some(prev) => match (song.progress_ms, prev.progress_ms) {
            (Some(cur), Some(old)) => cur > old && !state.has_uploaded
                && cur >= RECORD_THRESHOLD_MS,
            _ => false,
        },
        None => match song.progress_ms {
            Some(ms) => ms >= RECORD_THRESHOLD_MS,
            None => false,
        },
    }
}

/// Whether an existing credit survives the observation of `song`, before the
/// cycle's persistence outcome is folded in: a track-name change always
/// forfeits the credit, and a credited track stays credited only while its
/// position does not go backward (an absent position counting as zero).
pub open spec fn spec_credit_after_observation(
    state: CachedDataView,
    song: SongDataView,
) -> bool {
    match state.previous {
        Some(prev) => if prev.name != song.name {
            false
        } else if state.has_uploaded {
            position_or_zero(prev) <= position_or_zero(song)
        } else {
            false
        },
        None => state.has_uploaded,
    }
}

/// What [`CachedData::update`] leaves behind: `song` becomes the new
/// reference snapshot, and the track counts as credited iff an existing
/// credit survived the observation or this cycle's persistence succeeded.
pub open spec fn spec_update(
    state: CachedDataView,
    song: SongDataView,
    uploaded: bool,
) -> CachedDataView {
    CachedDataView {
        previous: Some(song),
        has_uploaded: spec_credit_after_observation(state, song) || uploaded,
    }
}

fn same_name(a: &Option<String>, b: &Option<String>) -> (r: bool)
    ensures
        r == (a.deep_view() == b.deep_view()),
{
    match (a, b) {
        (Some(x), Some(y)) => x.eq(y),
        (None, None) => true,
        _ => false,
    }
}

fn progress_or_zero(progress_ms: &Option<u32>) -> (r: u32)
    ensures
        r == (match *progress_ms {
            Some(ms) => ms,
            None => 0u32,
        }),
{
    match progress_ms {
        Some(ms) => *ms,
        None => 0,
    }
}

impl CachedData {
    /// A fresh detector: nothing observed yet, nothing credited.
    pub fn new() -> (state: Self)
        ensures
            state@.previous is None,
            !state@.has_uploaded,
    {
        CachedData { previous: None, has_uploaded: false }
    }

    /// Decides whether this poll cycle should attempt to persist a play
    /// record for `song`. Reads the state only; has no side effects.
    pub fn should_upload(&self, song: &SongData) -> (r: bool)
        ensures
            r == spec_should_upload(self@, song@),
    {
        if let Some(previous_item) = &self.previous {
            match (song.progress_ms, previous_item.progress_ms) {
                (Some(item), Some(old_item)) => {
                    item > old_item && !self.has_uploaded && item >= RECORD_THRESHOLD_MS
                },
                _ => false,
            }
        } else {
            match song.progress_ms {
                Some(ms) => ms >= RECORD_THRESHOLD_MS,
                None => false,
            }
        }
    }

    /// Folds one observed snapshot and the cycle's persistence outcome into
    /// the state. Must be called exactly once per cycle that produced a
    /// snapshot, with `uploaded` true only on a confirmed successful
    /// persistence.
    pub fn update(&mut self, song: SongData, uploaded: bool)
        ensures
            final(self)@ == spec_update(old(self)@, song@, uploaded),
    {
        if let Some(previous) = &self.previous {
            if !same_name(&previous.name, &song.name) {
                self.has_uploaded = false;
            } else if self.has_uploaded {
                let prev_ms = progress_or_zero(&previous.progress_ms);
                let curr_ms = progress_or_zero(&song.progress_ms);
                self.has_uploaded = prev_ms <= curr_ms;
            }
        }
        self.previous = Some(song);

        if !self.has_uploaded {
            self.has_uploaded = uploaded;
        }
    }
}

} // verus!
