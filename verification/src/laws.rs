//! The debouncing laws the detector is designed around, stated over the spec
//! model of [`crate::detector`] and proved once and for all.
//!
//! The model of a whole polling run is [`run_signals`]: the detector starts in
//! some state, sees one snapshot per cycle, and each cycle's persistence
//! outcome is its own signal — that is, every attempted persistence succeeds.

use vstd::prelude::*;

use crate::detector::CachedDataView;
use crate::detector::RECORD_THRESHOLD_MS;
use crate::detector::SongDataView;
use crate::detector::position_or_zero;
use crate::detector::spec_should_upload;
use crate::detector::spec_update;

verus! {

/// A detector that has observed nothing and credited nothing.
pub open spec fn fresh_detector() -> CachedDataView {
    CachedDataView { previous: None, has_uploaded: false }
}

/// One poll cycle in which every attempted persistence succeeds: the state
/// after observing `song`, with the cycle's own signal fed back as the
/// persistence outcome.
pub open spec fn spec_cycle(state: CachedDataView, song: SongDataView) -> CachedDataView {
    spec_update(state, song, spec_should_upload(state, song))
}

/// The record signals emitted over a run of snapshots, one per cycle, when
/// every attempted persistence succeeds.
pub open spec fn run_signals(state: CachedDataView, snaps: Seq<SongDataView>) -> Seq<bool>
    decreases snaps.len(),
{
    if snaps.len() == 0 {
        Seq::empty()
    } else {
        seq![spec_should_upload(state, snaps[0])]
            + run_signals(spec_cycle(state, snaps[0]), snaps.drop_first())
    }
}

/// How many of the signals are set.
pub open spec fn count_true(s: Seq<bool>) -> nat
    decreases s.len(),
{
    if s.len() == 0 {
        0
    } else {
        (if s[0] {
            1nat
        } else {
            0nat
        }) + count_true(s.drop_first())
    }
}

/// Every snapshot of the run names the same track.
pub open spec fn all_named(snaps: Seq<SongDataView>, name: Option<Seq<char>>) -> bool {
    forall|i: int| 0 <= i < snaps.len() ==> (#[trigger] snaps[i]).name == name
}

/// Every snapshot of the run carries a playback position.
pub open spec fn all_progress_present(snaps: Seq<SongDataView>) -> bool {
    forall|i: int| 0 <= i < snaps.len() ==> (#[trigger] snaps[i]).progress_ms is Some
}

/// The playback position never goes backward between consecutive snapshots
/// of the run (absent positions counting as zero).
pub open spec fn positions_never_decrease(snaps: Seq<SongDataView>) -> bool {
    forall|i: int|
        0 <= i < snaps.len() - 1 ==> position_or_zero(#[trigger] snaps[i])
            <= position_or_zero(snaps[i + 1])
}

/// The playback position strictly advances between consecutive snapshots of
/// the run.
pub open spec fn positions_strictly_increase(snaps: Seq<SongDataView>) -> bool {
    forall|i: int|
        0 <= i < snaps.len() - 1 ==> position_or_zero(#[trigger] snaps[i])
            < position_or_zero(snaps[i + 1])
}

/// The playback position never goes backward over the run, starting from the
/// position of `prev`.
pub open spec fn never_rewinds(prev: SongDataView, snaps: Seq<SongDataView>) -> bool {
    &&& snaps.len() > 0 ==> position_or_zero(prev) <= position_or_zero(snaps[0])
    &&& positions_never_decrease(snaps)
}

/// The playback position strictly advances over the run, starting from the
/// position of `prev`.
pub open spec fn strictly_advances(prev: SongDataView, snaps: Seq<SongDataView>) -> bool {
    &&& snaps.len() > 0 ==> position_or_zero(prev) < position_or_zero(snaps[0])
    &&& positions_strictly_increase(snaps)
}

/// Some snapshot of the run has reached the record threshold.
pub open spec fn reaches_threshold(snaps: Seq<SongDataView>) -> bool {
    exists|i: int|
        0 <= i < snaps.len() && position_or_zero(#[trigger] snaps[i]) >= RECORD_THRESHOLD_MS
}

/// Every snapshot of the run before index `i` is below the record threshold.
pub open spec fn below_threshold_before(snaps: Seq<SongDataView>, i: int) -> bool {
    forall|j: int| 0 <= j < i ==> position_or_zero(#[trigger] snaps[j]) < RECORD_THRESHOLD_MS
}

/// Every signal of the run sits at the first snapshot that reaches the record
/// threshold.
pub open spec fn signals_only_at_first_reach(
    state: CachedDataView,
    snaps: Seq<SongDataView>,
) -> bool {
    forall|i: int|
        0 <= i < snaps.len() && #[trigger] run_signals(state, snaps)[i] ==> position_or_zero(
            snaps[i],
        ) >= RECORD_THRESHOLD_MS && below_threshold_before(snaps, i)
}

/// Dropping the first cycle of a same-track run leaves a same-track run, and
/// the dropped snapshot names the same track.
proof fn lemma_same_track_step(snaps: Seq<SongDataView>, name: Option<Seq<char>>)
    requires
        snaps.len() > 0,
        all_named(snaps, name),
    ensures
        snaps[0].name == name,
        all_named(snaps.drop_first(), name),
{
    assert(forall|i: int|
        0 <= i < snaps.drop_first().len() ==> (#[trigger] snaps.drop_first()[i]).name == snaps[i
            + 1].name);
}

/// A run whose position never goes backward still never goes backward once
/// its first cycle is dropped, now starting from that first snapshot.
proof fn lemma_never_rewinds_step(snaps: Seq<SongDataView>)
    requires
        snaps.len() > 0,
        positions_never_decrease(snaps),
    ensures
        never_rewinds(snaps[0], snaps.drop_first()),
{
    let rest = snaps.drop_first();
    assert(forall|i: int|
        0 <= i < rest.len() - 1 ==> position_or_zero(#[trigger] rest[i]) == position_or_zero(
            snaps[i + 1],
        ) && position_or_zero(rest[i + 1]) == position_or_zero(snaps[i + 2]));
}

/// As [`lemma_never_rewinds_step`], for a strictly advancing run.
proof fn lemma_strictly_advances_step(snaps: Seq<SongDataView>)
    requires
        snaps.len() > 0,
        positions_strictly_increase(snaps),
    ensures
        strictly_advances(snaps[0], snaps.drop_first()),
        never_rewinds(snaps[0], snaps.drop_first()),
        all_progress_present(snaps) ==> all_progress_present(snaps.drop_first()),
{
    let rest = snaps.drop_first();
    assert(forall|i: int|
        0 <= i < rest.len() - 1 ==> position_or_zero(#[trigger] rest[i]) == position_or_zero(
            snaps[i + 1],
        ) && position_or_zero(rest[i + 1]) == position_or_zero(snaps[i + 2]));
    assert(forall|i: int|
        0 <= i < rest.len() ==> (#[trigger] rest[i]).progress_ms == snaps[i + 1].progress_ms);
}

/// A run whose first snapshot is below the threshold reaches the threshold
/// exactly when the rest of the run does.
proof fn lemma_threshold_step(snaps: Seq<SongDataView>)
    requires
        snaps.len() > 0,
        position_or_zero(snaps[0]) < RECORD_THRESHOLD_MS,
    ensures
        reaches_threshold(snaps) <==> reaches_threshold(snaps.drop_first()),
{
    let rest = snaps.drop_first();
    if reaches_threshold(rest) {
        let j = choose|j: int|
            0 <= j < rest.len() && position_or_zero(#[trigger] rest[j]) >= RECORD_THRESHOLD_MS;
        assert(position_or_zero(snaps[j + 1]) >= RECORD_THRESHOLD_MS);
    }
    if reaches_threshold(snaps) {
        let j = choose|j: int|
            0 <= j < snaps.len() && position_or_zero(#[trigger] snaps[j]) >= RECORD_THRESHOLD_MS;
        assert(j != 0);
        assert(rest[j - 1] == snaps[j]);
    }
}

/// A credited detector stays silent over a same-track run whose position
/// never goes backward: the credit survives every cycle and no signal is
/// emitted.
proof fn lemma_credited_run_is_silent(state: CachedDataView, snaps: Seq<SongDataView>)
    requires
        state.has_uploaded,
        state.previous matches Some(prev) && all_named(snaps, prev.name) && never_rewinds(
            prev,
            snaps,
        ),
    ensures
        run_signals(state, snaps).len() == snaps.len(),
        count_true(run_signals(state, snaps)) == 0,
        forall|i: int| 0 <= i < snaps.len() ==> !(#[trigger] run_signals(state, snaps)[i]),
    decreases snaps.len(),
{
    if snaps.len() > 0 {
        let prev = state.previous->0;
        let s0 = snaps[0];
        let rest = snaps.drop_first();
        assert(!spec_should_upload(state, s0));
        let next = spec_cycle(state, s0);
        assert(next.has_uploaded);
        lemma_same_track_step(snaps, prev.name);
        lemma_never_rewinds_step(snaps);
        lemma_credited_run_is_silent(next, rest);
        assert(run_signals(state, snaps).drop_first() =~= run_signals(next, rest));
        assert forall|i: int| 0 <= i < snaps.len() implies !(run_signals(state, snaps)[i]) by {
            if i > 0 {
                assert(run_signals(state, snaps)[i] == run_signals(next, rest)[i - 1]);
            }
        }
    }
}

/// An uncredited detector, sitting behind a positioned snapshot, signals over
/// a strictly advancing same-track run exactly once if some snapshot reaches
/// the record threshold, and never otherwise.
proof fn lemma_uncredited_run_signals_once(state: CachedDataView, snaps: Seq<SongDataView>)
    requires
        !state.has_uploaded,
        state.previous matches Some(prev) && prev.progress_ms is Some && all_named(
            snaps,
            prev.name,
        ) && all_progress_present(snaps) && strictly_advances(prev, snaps),
    ensures
        run_signals(state, snaps).len() == snaps.len(),
        count_true(run_signals(state, snaps)) <= 1,
        count_true(run_signals(state, snaps)) == 1 <==> reaches_threshold(snaps),
        signals_only_at_first_reach(state, snaps),
    decreases snaps.len(),
{
    if snaps.len() == 0 {
        assert(!reaches_threshold(snaps));
    } else {
        let prev = state.previous->0;
        let s0 = snaps[0];
        let rest = snaps.drop_first();
        let sig = spec_should_upload(state, s0);
        assert(sig == (position_or_zero(s0) >= RECORD_THRESHOLD_MS));
        let next = spec_cycle(state, s0);
        lemma_same_track_step(snaps, prev.name);
        lemma_strictly_advances_step(snaps);
        if sig {
            assert(next.has_uploaded);
            lemma_credited_run_is_silent(next, rest);
            assert(reaches_threshold(snaps));
        } else {
            assert(!next.has_uploaded);
            lemma_uncredited_run_signals_once(next, rest);
            lemma_threshold_step(snaps);
        }
        assert(run_signals(state, snaps).drop_first() =~= run_signals(next, rest));
        assert forall|i: int|
            0 <= i < snaps.len() && #[trigger] run_signals(state, snaps)[i]
                implies position_or_zero(snaps[i]) >= RECORD_THRESHOLD_MS
                && below_threshold_before(snaps, i) by {
            assert(run_signals(state, snaps)[0] == sig);
            if i > 0 {
                assert(run_signals(state, snaps)[i] == run_signals(next, rest)[i - 1]);
                assert forall|j: int|
                    0 <= j < i implies position_or_zero(#[trigger] snaps[j])
                        < RECORD_THRESHOLD_MS by {
                    if j > 0 {
                        assert(snaps[j] == rest[j - 1]);
                    }
                }
                assert(snaps[i] == rest[i - 1]);
            }
        }
    }
}

/// Over any same-track run with strictly increasing playback positions, a
/// fresh detector whose attempted persistences all succeed signals at most
/// once, and exactly once as soon as any snapshot of the run reaches the
/// record threshold.
pub proof fn lemma_same_track_run_records_once(snaps: Seq<SongDataView>)
    requires
        snaps.len() > 0,
        all_named(snaps, snaps[0].name),
        all_progress_present(snaps),
        positions_strictly_increase(snaps),
    ensures
        run_signals(fresh_detector(), snaps).len() == snaps.len(),
        count_true(run_signals(fresh_detector(), snaps)) <= 1,
        count_true(run_signals(fresh_detector(), snaps)) == 1 <==> reaches_threshold(snaps),
        signals_only_at_first_reach(fresh_detector(), snaps),
{
    let state = fresh_detector();
    let s0 = snaps[0];
    let rest = snaps.drop_first();
    let sig = spec_should_upload(state, s0);
    assert(sig == (position_or_zero(s0) >= RECORD_THRESHOLD_MS));
    let next = spec_cycle(state, s0);
    lemma_same_track_step(snaps, s0.name);
    lemma_strictly_advances_step(snaps);
    if sig {
        assert(next.has_uploaded);
        lemma_credited_run_is_silent(next, rest);
        assert(reaches_threshold(snaps));
    } else {
        assert(!next.has_uploaded);
        lemma_uncredited_run_signals_once(next, rest);
        lemma_threshold_step(snaps);
    }
    assert(run_signals(state, snaps).drop_first() =~= run_signals(next, rest));
    assert forall|i: int|
        0 <= i < snaps.len() && #[trigger] run_signals(state, snaps)[i]
            implies position_or_zero(snaps[i]) >= RECORD_THRESHOLD_MS && below_threshold_before(
            snaps,
            i,
        ) by {
        assert(run_signals(state, snaps)[0] == sig);
        if i > 0 {
            assert(run_signals(state, snaps)[i] == run_signals(next, rest)[i - 1]);
            assert forall|j: int|
                0 <= j < i implies position_or_zero(#[trigger] snaps[j])
                    < RECORD_THRESHOLD_MS by {
                if j > 0 {
                    assert(snaps[j] == rest[j - 1]);
                }
            }
            assert(snaps[i] == rest[i - 1]);
        }
    }
}

/// Rewinding the position below the last observed position of a credited
/// same-track play emits no signal and withdraws the credit; a strictly
/// advancing same-track run from there signals exactly once as soon as it
/// reaches the record threshold.
pub proof fn lemma_rewind_reenables_single_record(
    state: CachedDataView,
    rewind: SongDataView,
    snaps: Seq<SongDataView>,
)
    requires
        state.has_uploaded,
        state.previous matches Some(prev) && prev.name == rewind.name && prev.progress_ms is Some
            && rewind.progress_ms is Some && position_or_zero(rewind) < position_or_zero(prev),
        all_named(snaps, rewind.name),
        all_progress_present(snaps),
        strictly_advances(rewind, snaps),
        reaches_threshold(snaps),
    ensures
        !spec_should_upload(state, rewind),
        !spec_cycle(state, rewind).has_uploaded,
        count_true(run_signals(spec_cycle(state, rewind), snaps)) == 1,
        signals_only_at_first_reach(spec_cycle(state, rewind), snaps),
{
    let cleared = spec_cycle(state, rewind);
    assert(!cleared.has_uploaded);
    lemma_uncredited_run_signals_once(cleared, snaps);
}

/// A snapshot with an absent playback position never triggers a signal.
pub proof fn lemma_absent_progress_never_signals(state: CachedDataView, song: SongDataView)
    requires
        song.progress_ms is None,
    ensures
        !spec_should_upload(state, song),
{
}

/// A snapshot with an absent playback position does not withdraw an existing
/// credit, provided the track is unchanged and the last observed position was
/// itself absent or zero.
pub proof fn lemma_absent_progress_keeps_credit(state: CachedDataView, song: SongDataView)
    requires
        song.progress_ms is None,
        state.has_uploaded,
        state.previous matches Some(prev) ==> prev.name == song.name && position_or_zero(prev)
            == 0,
    ensures
        spec_update(state, song, false).has_uploaded,
{
}

/// A track-name change makes the credit afterwards depend on this cycle's
/// persistence outcome alone: whatever credit the previous track had is
/// cleared.
pub proof fn lemma_track_change_clears_credit(
    state: CachedDataView,
    song: SongDataView,
    uploaded: bool,
)
    requires
        state.previous matches Some(prev) && prev.name != song.name,
    ensures
        spec_update(state, song, uploaded).has_uploaded == uploaded,
{
}

/// A cycle that emits no signal, fed back with a failed or absent
/// persistence, keeps an existing credit exactly as long as the track is
/// unchanged and the position (absent counting as zero) did not go backward:
/// only an explicit track change or rewind clears it.
pub proof fn lemma_credit_lost_only_on_change_or_rewind(state: CachedDataView, song: SongDataView)
    requires
        state.has_uploaded,
        !spec_should_upload(state, song),
    ensures
        spec_update(state, song, false).has_uploaded <==> (state.previous matches Some(prev)
            ==> prev.name == song.name && position_or_zero(prev) <= position_or_zero(song)),
{
}

} // verus!
