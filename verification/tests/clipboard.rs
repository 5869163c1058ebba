use abylab_tui::clipboard::{base64, delivered, osc52_sequence, wants_osc52};

#[test]
fn base64_matches_rfc4648_vectors() {
    assert_eq!(base64(b""), "");
    assert_eq!(base64(b"f"), "Zg==");
    assert_eq!(base64(b"fo"), "Zm8=");
    assert_eq!(base64(b"foo"), "Zm9v");
    assert_eq!(base64(b"foob"), "Zm9vYg==");
    assert_eq!(base64(b"fooba"), "Zm9vYmE=");
    assert_eq!(base64(b"foobar"), "Zm9vYmFy");
    assert_eq!(base64("选中即复制".as_bytes()), "6YCJ5Lit5Y2z5aSN5Yi2");
}

#[test]
fn the_terminal_leg_is_taken_where_the_native_one_may_not_reach() {
    assert!(wants_osc52(true, false, false, true));
    assert!(wants_osc52(false, true, false, true));
    assert!(wants_osc52(false, false, true, true));
    assert!(wants_osc52(false, false, false, false));
    assert!(!wants_osc52(false, false, false, true));
}

#[test]
fn a_copy_counts_once_any_leg_took_it() {
    assert!(delivered(true, None, None));
    assert!(delivered(false, Some(true), None));
    assert!(delivered(false, Some(false), Some(true)));
    assert!(!delivered(false, Some(false), Some(false)));
    assert!(!delivered(false, None, None));
}

#[test]
fn the_sequence_is_wrapped_for_tmux() {
    let plain = osc52_sequence("foo", false);
    assert!(plain.contains("52;c;Zm9v"), "{plain:?}");
    let wrapped = osc52_sequence("foo", true);
    assert!(wrapped.contains("52;c;Zm9v"), "{wrapped:?}");
    assert!(wrapped.contains("tmux;"), "{wrapped:?}");
    assert_ne!(plain, wrapped);
}
