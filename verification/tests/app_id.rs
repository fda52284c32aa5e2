//! Application-identifier validation.

use myo::check_app_id;

#[test]
fn valid_reverse_dns_accepted() {
    assert!(check_app_id(b"com.example.hello-world"));
    assert!(check_app_id(b"rs.cterm2.myo.eventlog"));
    assert!(check_app_id(b"com.example.app_one"));
    assert!(check_app_id(b"a.b.c"));
}

#[test]
fn empty_identifier_accepted() {
    assert!(check_app_id(b""));
}

#[test]
fn too_few_segments_rejected() {
    assert!(!check_app_id(b"com.example"));
    assert!(!check_app_id(b"example"));
}

#[test]
fn mark_adjacent_to_dot_rejected() {
    assert!(!check_app_id(b"com.-example.app"));
    assert!(!check_app_id(b"com.example-.app"));
    assert!(!check_app_id(b"com._example.app"));
    assert!(!check_app_id(b"com.example_.app"));
}

#[test]
fn bad_character_rejected() {
    assert!(!check_app_id(b"com.exa mple.app"));
    assert!(!check_app_id(b"com.example.app!"));
    assert!(!check_app_id(b"com/example/app"));
}

#[test]
fn over_255_bytes_rejected() {
    let mut id: Vec<u8> = b"com.example.".to_vec();
    while id.len() < 256 {
        id.push(b'a');
    }
    assert!(id.len() == 256);
    assert!(!check_app_id(&id));
}

#[test]
fn exactly_255_bytes_accepted() {
    let mut id: Vec<u8> = b"com.example.".to_vec();
    while id.len() < 255 {
        id.push(b'a');
    }
    assert!(id.len() == 255);
    assert!(check_app_id(&id));
}
