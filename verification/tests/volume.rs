//! Volume arithmetic: stepping, clamping, and the cached read-back.

use termusic::command::Command;
use termusic::player::{Vlc, INITIAL_VOLUME, VOLUME_STEP};

#[test]
fn fresh_player_state() {
    let mut p = Vlc::new();
    assert_eq!(p.volume(), INITIAL_VOLUME);
    assert_eq!(p.volume(), 50);
    assert!(!p.is_paused());
    assert!(p.next_command().is_none());
}

#[test]
fn volume_up_steps_by_five_and_clamps_at_100() {
    for v in 0..=100i32 {
        let mut p = Vlc::new();
        p.set_volume(v);
        p.volume_up();
        let expected = if v + VOLUME_STEP <= 100 { v + VOLUME_STEP } else { 100 };
        assert_eq!(p.volume(), expected);
    }
}

#[test]
fn volume_down_steps_by_five_and_clamps_at_0() {
    for v in 0..=100i32 {
        let mut p = Vlc::new();
        p.set_volume(v);
        p.volume_down();
        let expected = if v - VOLUME_STEP >= 0 { v - VOLUME_STEP } else { 0 };
        assert_eq!(p.volume(), expected);
    }
}

#[test]
fn volume_up_is_idempotent_at_100() {
    let mut p = Vlc::new();
    p.set_volume(100);
    p.volume_up();
    assert_eq!(p.volume(), 100);
    p.volume_up();
    assert_eq!(p.volume(), 100);
}

#[test]
fn volume_down_is_idempotent_at_0() {
    let mut p = Vlc::new();
    p.set_volume(0);
    p.volume_down();
    assert_eq!(p.volume(), 0);
    p.volume_down();
    assert_eq!(p.volume(), 0);
}

#[test]
fn set_volume_clamps_above_and_below() {
    let mut p = Vlc::new();
    p.set_volume(150);
    assert_eq!(p.volume(), 100);
    p.set_volume(-10);
    assert_eq!(p.volume(), 0);
    p.set_volume(42);
    assert_eq!(p.volume(), 42);
}

#[test]
fn volume_changes_send_the_clamped_level() {
    let mut p = Vlc::new();
    p.set_volume(150);
    p.volume_down();
    match p.next_command() {
        Some(Command::SetVolume(v)) => assert_eq!(v, 100),
        other => panic!("expected SetVolume, got {:?}", other),
    }
    match p.next_command() {
        Some(Command::SetVolume(v)) => assert_eq!(v, 95),
        other => panic!("expected SetVolume, got {:?}", other),
    }
    assert!(p.next_command().is_none());
}

#[test]
fn set_volume_commands_arrive_in_send_order() {
    let mut p = Vlc::new();
    p.set_volume(10);
    p.set_volume(90);
    match p.next_command() {
        Some(Command::SetVolume(v)) => assert_eq!(v, 10),
        other => panic!("expected SetVolume(10), got {:?}", other),
    }
    match p.next_command() {
        Some(Command::SetVolume(v)) => assert_eq!(v, 90),
        other => panic!("expected SetVolume(90), got {:?}", other),
    }
    assert!(p.next_command().is_none());
}

#[test]
fn pause_and_resume_flip_the_cached_flag_and_send_commands() {
    let mut p = Vlc::new();
    p.pause();
    assert!(p.is_paused());
    p.resume();
    assert!(!p.is_paused());
    assert!(matches!(p.next_command(), Some(Command::Pause)));
    assert!(matches!(p.next_command(), Some(Command::Resume)));
    assert!(p.next_command().is_none());
}

#[test]
fn add_and_play_clears_paused_and_sends_the_path() {
    let mut p = Vlc::new();
    p.pause();
    p.add_and_play("/music/song.flac");
    assert!(!p.is_paused());
    assert!(matches!(p.next_command(), Some(Command::Pause)));
    match p.next_command() {
        Some(Command::PlayPath(path)) => assert_eq!(path, "/music/song.flac"),
        other => panic!("expected PlayPath, got {:?}", other),
    }
}
