//! Lyric synchronization: active-line lookup and change-only emission.

use termusic::lyric::{active_caption_index, no_captions_marker, Caption, LyricSync};

fn abc_captions() -> Vec<Caption> {
    vec![
        Caption { timestamp: 0, text: String::from("a") },
        Caption { timestamp: 5, text: String::from("b") },
        Caption { timestamp: 10, text: String::from("c") },
    ]
}

#[test]
fn lookup_picks_the_greatest_timestamp_at_or_before_the_position() {
    let caps = abc_captions();
    assert_eq!(active_caption_index(&caps, 7), Some(1));
    assert_eq!(active_caption_index(&caps, 12), Some(2));
    assert_eq!(active_caption_index(&caps, 0), Some(0));
    assert_eq!(active_caption_index(&caps, 5), Some(1));
    assert_eq!(active_caption_index(&caps, 10), Some(2));
}

#[test]
fn lookup_before_the_first_caption_finds_nothing() {
    let caps = abc_captions();
    assert_eq!(active_caption_index(&caps, -1), None);
    assert_eq!(active_caption_index(&Vec::new(), 7), None);
}

#[test]
fn equal_timestamps_resolve_to_the_later_caption() {
    let caps = vec![
        Caption { timestamp: 5, text: String::from("x") },
        Caption { timestamp: 5, text: String::from("y") },
    ];
    assert_eq!(active_caption_index(&caps, 5), Some(1));
}

#[test]
fn the_active_line_is_emitted_for_the_position() {
    let caps = abc_captions();
    let mut sync = LyricSync::new();
    assert_eq!(sync.update_lyric(&caps, 7), Some(String::from("b")));
    assert_eq!(sync.update_lyric(&caps, 12), Some(String::from("c")));
}

#[test]
fn a_position_before_the_first_caption_yields_the_empty_line_not_the_first() {
    let caps = abc_captions();
    let mut sync = LyricSync::new();
    assert_eq!(sync.update_lyric(&caps, 7), Some(String::from("b")));
    assert_eq!(sync.update_lyric(&caps, -1), Some(String::new()));
}

#[test]
fn an_unchanged_line_is_not_emitted_again() {
    let caps = abc_captions();
    let mut sync = LyricSync::new();
    assert_eq!(sync.update_lyric(&caps, 5), Some(String::from("b")));
    assert_eq!(sync.update_lyric(&caps, 6), None);
    assert_eq!(sync.update_lyric(&caps, 9), None);
    assert_eq!(sync.update_lyric(&caps, 10), Some(String::from("c")));
}

#[test]
fn a_track_without_captions_emits_the_marker_once() {
    let caps: Vec<Caption> = Vec::new();
    let mut sync = LyricSync::new();
    assert_eq!(sync.update_lyric(&caps, 0), Some(String::from(no_captions_marker())));
    assert_eq!(sync.update_lyric(&caps, 3), None);
    assert_eq!(sync.update_lyric(&caps, 100), None);
}

#[test]
fn the_marker_text_is_fixed() {
    assert_eq!(no_captions_marker(), "No lyrics available.");
}
