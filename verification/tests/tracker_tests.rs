use play_tracker::detector::{CachedData, SongData, RECORD_THRESHOLD_MS};
use play_tracker::record::{plan_cycle, play_record_of, PlayRecord};
use play_tracker::SpotifyWrapperError;

fn create_playing_context(progress_ms: Option<u32>) -> SongData {
    SongData {
        name: Some("".into()),
        artists: Some(Vec::default()),
        album: Some("".into()),
        progress_ms,
    }
}

fn named_song(name: &str, progress_ms: Option<u32>) -> SongData {
    SongData {
        name: Some(name.into()),
        artists: Some(vec!["artist".into()]),
        album: Some("album".into()),
        progress_ms,
    }
}

/// One poll cycle against an in-memory sink: decide, "persist", feed the
/// outcome back. Returns whether a record was persisted this cycle.
fn poll(cache: &mut CachedData, sink: &mut Vec<PlayRecord>, song: SongData) -> bool {
    let persisted = match plan_cycle(cache, &song) {
        Some(rec) => {
            sink.push(rec);
            true
        }
        None => false,
    };
    cache.update(song, persisted);
    persisted
}

#[test]
fn test_cache() {
    let mut sink: Vec<PlayRecord> = Vec::new();
    let mut cache = CachedData::new();

    assert_eq!(false, poll(&mut cache, &mut sink, create_playing_context(Some(10))));
    assert_eq!(false, poll(&mut cache, &mut sink, create_playing_context(Some(100))));
    assert_eq!(true, poll(&mut cache, &mut sink, create_playing_context(Some(30000))));
    assert_eq!(false, poll(&mut cache, &mut sink, create_playing_context(Some(30000))));
    assert_eq!(false, poll(&mut cache, &mut sink, create_playing_context(Some(29000))));
    assert_eq!(true, poll(&mut cache, &mut sink, create_playing_context(Some(30000))));
    assert_eq!(false, poll(&mut cache, &mut sink, create_playing_context(Some(33000))));
    assert_eq!(false, poll(&mut cache, &mut sink, create_playing_context(Some(34000))));
    assert_eq!(false, poll(&mut cache, &mut sink, create_playing_context(Some(34000))));

    assert_eq!(2, sink.len());
}

#[test]
fn scenario_new_track_progression() {
    // progressMs = [10, 100, 30000] for the same new track: signals [false, false, true].
    let mut cache = CachedData::new();
    let mut signals = Vec::new();
    for ms in [10u32, 100, 30000] {
        let song = named_song("track", Some(ms));
        let sig = cache.should_upload(&song);
        signals.push(sig);
        cache.update(song, sig);
    }
    assert_eq!(vec![false, false, true], signals);
}

#[test]
fn scenario_already_credited() {
    // After a credited record at 30000, the same track at 31000 signals false.
    let mut cache = CachedData::new();
    for ms in [10u32, 100, 30000] {
        let song = named_song("track", Some(ms));
        let sig = cache.should_upload(&song);
        cache.update(song, sig);
    }
    assert!(cache.has_uploaded);
    let song = named_song("track", Some(31000));
    assert_eq!(false, cache.should_upload(&song));
    cache.update(song, false);
    assert!(cache.has_uploaded);
}

#[test]
fn scenario_rewind_clears_credit() {
    // After credit, a rewind to 29000 signals false and clears the credit;
    // advancing to 30000 then signals true again.
    let mut cache = CachedData::new();
    let first = named_song("track", Some(30000));
    let sig = cache.should_upload(&first);
    assert!(sig);
    cache.update(first, true);
    assert!(cache.has_uploaded);

    let rewound = named_song("track", Some(29000));
    assert_eq!(false, cache.should_upload(&rewound));
    cache.update(rewound, false);
    assert!(!cache.has_uploaded);

    let advanced = named_song("track", Some(30000));
    assert_eq!(true, cache.should_upload(&advanced));
}

#[test]
fn scenario_stalled_credited_track() {
    // 33000 then 34000 then 34000 on an already-credited track: all false.
    let mut cache = CachedData::new();
    let first = named_song("track", Some(30000));
    cache.update(first, true);
    assert!(cache.has_uploaded);

    let mut signals = Vec::new();
    for ms in [33000u32, 34000, 34000] {
        let song = named_song("track", Some(ms));
        let sig = cache.should_upload(&song);
        signals.push(sig);
        cache.update(song, sig);
    }
    assert_eq!(vec![false, false, false], signals);
    assert!(cache.has_uploaded);
}

#[test]
fn scenario_first_snapshot_without_progress() {
    // The first-ever snapshot has no progress: signal false, and the snapshot
    // still becomes the reference point.
    let mut cache = CachedData::new();
    let song = named_song("track", None);
    assert_eq!(false, cache.should_upload(&song));
    cache.update(song, false);
    let prev = cache.previous.as_ref().expect("previous recorded");
    assert_eq!(None, prev.progress_ms);
    assert_eq!(Some("track".to_string()), prev.name);
}

#[test]
fn same_track_run_signals_once() {
    // A strictly advancing same-track run: exactly one signal, emitted the
    // first time the threshold is reached.
    let mut cache = CachedData::new();
    let mut count = 0;
    let mut first_signal_ms = None;
    for ms in [5u32, 2000, 15000, 29999, 30000, 30001, 40000] {
        let song = named_song("track", Some(ms));
        let sig = cache.should_upload(&song);
        if sig {
            count += 1;
            if first_signal_ms.is_none() {
                first_signal_ms = Some(ms);
            }
        }
        cache.update(song, sig);
    }
    assert_eq!(1, count);
    assert_eq!(Some(RECORD_THRESHOLD_MS), first_signal_ms);
}

#[test]
fn rewind_below_credit_retriggers_once() {
    // Credit, rewind below the credited position, then advance past the
    // threshold: exactly one new signal.
    let mut cache = CachedData::new();
    cache.update(named_song("track", Some(35000)), true);
    assert!(cache.has_uploaded);

    let mut count = 0;
    for ms in [1000u32, 2000, 30001, 31000] {
        let song = named_song("track", Some(ms));
        let sig = cache.should_upload(&song);
        if sig {
            count += 1;
        }
        cache.update(song, sig);
    }
    assert_eq!(1, count);
}

#[test]
fn absent_progress_never_signals_or_clears_zero_position_credit() {
    // An absent progress value never signals; with the last observed position
    // itself absent, it does not clear an existing credit either.
    let mut cache = CachedData::new();
    cache.update(named_song("track", None), true);
    assert!(cache.has_uploaded);

    let song = named_song("track", None);
    assert_eq!(false, cache.should_upload(&song));
    cache.update(song, false);
    assert!(cache.has_uploaded);
}

#[test]
fn track_change_clears_credit() {
    // A new track name clears the credit whatever it was before.
    let mut cache = CachedData::new();
    cache.update(named_song("one", Some(31000)), true);
    assert!(cache.has_uploaded);

    cache.update(named_song("two", Some(100)), false);
    assert!(!cache.has_uploaded);

    // The new track is now eligible once it advances past the threshold.
    let song = named_song("two", Some(30000));
    assert_eq!(true, cache.should_upload(&song));
}

#[test]
fn silent_cycle_keeps_credit() {
    // A cycle with no signal and no persistence never withdraws a credit when
    // the track is unchanged and the position does not go backward.
    let mut cache = CachedData::new();
    cache.update(named_song("track", Some(30000)), true);
    assert!(cache.has_uploaded);

    let stalled = named_song("track", Some(30000));
    assert_eq!(false, cache.should_upload(&stalled));
    cache.update(stalled, false);
    assert!(cache.has_uploaded);
}

#[test]
fn fresh_detector_mid_track() {
    // Starting mid-track already past the threshold records immediately;
    // just below the threshold does not.
    let cache = CachedData::new();
    assert!(cache.previous.is_none());
    assert!(!cache.has_uploaded);
    assert_eq!(true, cache.should_upload(&named_song("track", Some(30000))));
    assert_eq!(false, cache.should_upload(&named_song("track", Some(29999))));
    assert_eq!(false, cache.should_upload(&named_song("track", None)));
}

#[test]
fn plan_cycle_requires_complete_snapshot() {
    // A signalled cycle yields a record only when name, artists and album are
    // all present; the record carries exactly the snapshot's fields.
    let cache = CachedData::new();
    let mut incomplete = named_song("track", Some(40000));
    incomplete.album = None;
    assert!(cache.should_upload(&incomplete));
    assert!(plan_cycle(&cache, &incomplete).is_none());
    assert!(play_record_of(&incomplete).is_none());

    let complete = named_song("track", Some(40000));
    let rec = plan_cycle(&cache, &complete).expect("complete snapshot yields a record");
    assert_eq!("track", rec.song_name);
    assert_eq!(vec!["artist".to_string()], rec.song_artist);
    assert_eq!("album", rec.song_album);
}

#[test]
fn plan_cycle_quiet_when_no_signal() {
    // No signal means no record, however complete the snapshot.
    let mut cache = CachedData::new();
    cache.update(named_song("track", Some(10)), false);
    let song = named_song("track", Some(10));
    assert!(plan_cycle(&cache, &song).is_none());
}

#[test]
fn unauthenticated_client_description() {
    let err = SpotifyWrapperError::UnauthenticatedClient;
    assert_eq!("Unauthenticated client", err.description());
}
