//! Relative seeks: target arithmetic, the floor at zero, and the
//! out-of-range failure.

use termusic::command::Command;
use termusic::player::{PlayerError, Vlc};

#[test]
fn seek_forward_within_the_track_succeeds() {
    let mut p = Vlc::new();
    p.update_progress(50, 120);
    assert!(p.seek(30).is_ok());
    match p.next_command() {
        Some(Command::Seek(t)) => assert_eq!(t, 80),
        other => panic!("expected Seek(80), got {:?}", other),
    }
}

#[test]
fn seek_past_the_end_fails_and_changes_nothing() {
    let mut p = Vlc::new();
    p.update_progress(50, 120);
    let r = p.seek(100);
    assert_eq!(r, Err(PlayerError::SeekOutOfRange));
    assert!(p.next_command().is_none());
    let s = p.get_progress();
    assert_eq!(s.position_secs, 50);
    assert_eq!(s.duration_secs, 120);
}

#[test]
fn seek_backward_is_floored_at_zero() {
    let mut p = Vlc::new();
    p.update_progress(50, 120);
    assert!(p.seek(-80).is_ok());
    match p.next_command() {
        Some(Command::Seek(t)) => assert_eq!(t, 0),
        other => panic!("expected Seek(0), got {:?}", other),
    }
}

#[test]
fn seek_to_the_exact_end_succeeds() {
    let mut p = Vlc::new();
    p.update_progress(50, 120);
    assert!(p.seek(70).is_ok());
    match p.next_command() {
        Some(Command::Seek(t)) => assert_eq!(t, 120),
        other => panic!("expected Seek(120), got {:?}", other),
    }
}

#[test]
fn seek_with_extreme_deltas_does_not_overflow() {
    let mut p = Vlc::new();
    p.update_progress(50, 120);
    assert!(p.seek(i64::MIN).is_ok());
    match p.next_command() {
        Some(Command::Seek(t)) => assert_eq!(t, 0),
        other => panic!("expected Seek(0), got {:?}", other),
    }
    assert_eq!(p.seek(i64::MAX), Err(PlayerError::SeekOutOfRange));
    assert!(p.next_command().is_none());
}

#[test]
fn loading_a_new_track_resets_the_progress_snapshot() {
    let mut p = Vlc::new();
    p.update_progress(120, 120);
    p.add_and_play("/music/next.flac");
    let s = p.get_progress();
    assert_eq!(s.position_secs, 0);
    assert_eq!(s.duration_secs, 0);
    assert!(!s.is_finished());
}

#[test]
fn the_cached_paused_flag_follows_the_engine_on_reconcile() {
    let mut p = Vlc::new();
    assert!(!p.is_paused());
    p.reconcile_paused(true);
    assert!(p.is_paused());
    p.reconcile_paused(false);
    assert!(!p.is_paused());
}

#[test]
fn seek_error_message_matches_the_surface_text() {
    assert_eq!(PlayerError::SeekOutOfRange.message(), "exceed max length");
}

#[test]
fn duration_falls_back_to_zero_when_unknown() {
    assert_eq!(Vlc::duration(Some(95)), 95);
    assert_eq!(Vlc::duration(None), 0);
}
