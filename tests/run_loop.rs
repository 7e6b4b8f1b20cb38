use orbital_backend::fontdata::font_data_checked;
use orbital_backend::font::TextFont;
use orbital_backend::runner::{LoopAction, LoopPhase, OrbitalBackendRunner};

#[test]
fn not_running_stops_without_steps() {
    let mut r = OrbitalBackendRunner::new();
    assert_eq!(r.next_action(false), LoopAction::Stop);
    assert!(r.is_stopped());
    assert_eq!(r.next_action(true), LoopAction::Stop);
    assert_eq!(r.phase(), LoopPhase::Stopped);
}

#[test]
fn running_alternates_step_and_drain() {
    let mut r = OrbitalBackendRunner::new();
    assert_eq!(r.next_action(true), LoopAction::StepWorld);
    assert_eq!(r.next_action(false), LoopAction::ClearUpdateAndDrain);
    assert_eq!(r.next_action(true), LoopAction::StepWorld);
    assert_eq!(r.next_action(true), LoopAction::ClearUpdateAndDrain);
    assert_eq!(r.next_action(false), LoopAction::Stop);
    assert!(r.is_stopped());
}

#[test]
fn font_rejects_garbage_and_short_data() {
    let short = TextFont::from_bytes(b"ab");
    assert_eq!(short.err(), Some(String::from("Could not load font from bytes")));
    let garbage = TextFont::from_bytes(b"not a font at all");
    assert_eq!(garbage.err(), Some(String::from("Could not load font from bytes")));
}

#[test]
fn font_signature_over_truncated_tables_is_rejected() {
    let bare = TextFont::from_bytes(&[0, 1, 0, 0]);
    assert_eq!(bare.err(), Some(String::from("Could not load font from bytes")));
    let one_table = TextFont::from_bytes(&[0, 1, 0, 0, 0, 1, 0, 0, 0, 0, 0, 0]);
    assert_eq!(one_table.err(), Some(String::from("Could not load font from bytes")));
    let empty_directory = TextFont::from_bytes(&[0, 1, 0, 0, 0, 0, 0, 0, 0, 0, 0, 0]);
    assert_eq!(empty_directory.err(), Some(String::from("Could not load font from bytes")));
    let collection = TextFont::from_bytes(b"ttcf\0\x01\0\0");
    assert_eq!(collection.err(), Some(String::from("Could not load font from bytes")));
}

#[test]
fn font_data_bounds_follow_the_directory() {
    assert!(!font_data_checked(&[0, 1, 0, 0]));
    assert!(font_data_checked(&[0, 1, 0, 0, 0, 0, 0, 0, 0, 0, 0, 0]));
    assert!(font_data_checked(b"abcd"));
    assert!(!font_data_checked(b"ab"));
}
