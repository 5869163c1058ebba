use abylab_tui::attachments::{Staged, MAX_STAGED};
use abylab_tui::locale::Locale;

fn staged_with(n: usize) -> Staged {
    let mut s = Staged::default();
    for i in 0..n {
        s.add(
            Locale::En,
            format!("img-{i}.png"),
            "clipboard".into(),
            "image/png".into(),
            vec![i as u8],
        )
        .unwrap();
    }
    s
}

#[test]
fn add_mints_stable_unique_tokens_and_caps() {
    let mut s = staged_with(MAX_STAGED);
    assert!(s
        .add(
            Locale::En,
            "x".into(),
            "p".into(),
            "image/png".into(),
            vec![]
        )
        .is_err());
    let tokens: Vec<&str> = s.iter().iter().map(|a| a.token.as_str()).collect();
    assert_eq!(tokens[0], "[image 1]");
    assert_eq!(tokens[7], "[image 8]");
    // Tokens never reindex after a removal.
    s.remove(0);
    assert_eq!(s.get(0).unwrap().token, "[image 2]");
}

#[test]
fn reconcile_drops_attachments_whose_token_left_the_text() {
    let mut s = staged_with(3);
    let dropped = s.reconcile("keep [image 1] and [image 3] only");
    assert_eq!(dropped, 1);
    let tokens: Vec<&str> = s.iter().iter().map(|a| a.token.as_str()).collect();
    assert_eq!(tokens, ["[image 1]", "[image 3]"]);
    // A broken token counts as gone.
    let dropped = s.reconcile("[image 1 …oops [image 3]");
    assert_eq!(dropped, 1);
    assert_eq!(s.len(), 1);
    assert_eq!(s.reconcile(""), 1);
    assert!(s.is_empty());
}

#[test]
fn png_sniffing_reads_the_magic() {
    let mut s = Staged::default();
    s.add(
        Locale::En,
        "a.png".into(),
        "p".into(),
        "image/png".into(),
        b"\x89PNG\r\n\x1a\nrest".to_vec(),
    )
    .unwrap();
    s.add(
        Locale::En,
        "b.jpg".into(),
        "p".into(),
        "image/jpeg".into(),
        vec![0xff, 0xd8],
    )
    .unwrap();
    assert!(s.get(0).unwrap().is_png());
    assert!(!s.get(1).unwrap().is_png());
}

#[test]
fn an_emptied_tray_keeps_counting() {
    let mut s = staged_with(2);
    let taken = s.drain();
    assert_eq!(taken.len(), 2);
    assert_eq!(taken[1].data, vec![1]);
    let token = s
        .add(Locale::En, "n".into(), "p".into(), "image/png".into(), vec![])
        .unwrap()
        .token
        .clone();
    assert_eq!(token, "[image 3]");
}
