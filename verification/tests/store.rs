use abylab_tui::credentials::{
    assert_owner_only, credentials_path, delete_key, load_refs, parse_document, redact, store_key,
    store_over, stored_key,
};

fn value(doc: &str, name: &str) -> Option<String> {
    stored_key(Some(doc), name).unwrap()
}

#[test]
fn a_stored_key_reads_back_and_the_others_stay() {
    let doc = "version: 1\n# mine\nrefs:\n  A: one\n  B: 'two' # note\n";
    let next = store_key(doc, "A", " new ").unwrap();
    assert_eq!(next, "version: 1\n# mine\nrefs:\n  A: new\n  B: 'two' # note\n");
    assert_eq!(value(&next, "A"), Some("new".to_string()));
    assert_eq!(value(&next, "B"), Some("two".to_string()));
    let next = store_key(doc, "C", "three").unwrap();
    assert_eq!(next, "version: 1\n# mine\nrefs:\n  A: one\n  B: 'two' # note\n  C: three\n");
    assert_eq!(value(&next, "C"), Some("three".to_string()));
    let next = store_key("version: 1\n", "A", "x").unwrap();
    assert_eq!(next, "version: 1\nrefs:\n  A: x\n");
}

#[test]
fn a_flat_document_moves_under_the_version_envelope() {
    let next = store_key("# mine\nA: one\n", "B", "two").unwrap();
    assert_eq!(next, "version: 1\nrefs:\n  # mine\n  A: one\n  B: two\n");
    assert_eq!(value(&next, "A"), Some("one".to_string()));
    assert_eq!(value(&next, "B"), Some("two".to_string()));
}

#[test]
fn a_deleted_key_is_gone_and_the_others_stay() {
    let doc = "version: 1\nrefs:\n  A: one\n  # kept\n  B: two\n";
    let next = delete_key(doc, "A").unwrap().unwrap();
    assert_eq!(next, "version: 1\nrefs:\n  # kept\n  B: two\n");
    assert_eq!(value(&next, "A"), None);
    assert_eq!(value(&next, "B"), Some("two".to_string()));
    assert_eq!(delete_key(doc, "Z"), Ok(None));
    assert!(delete_key("nonsense", "A").is_err());
}

#[test]
fn what_cannot_be_stored_is_refused() {
    assert_eq!(
        store_key("", "A", "  "),
        Err("empty keys are not stored; remove the key instead".to_string())
    );
    assert_eq!(
        store_key("", "1A", "x"),
        Err("\"1A\" is not an env-style reference name".to_string())
    );
    assert!(store_key("nonsense", "A", "x").is_err());
}

#[test]
fn what_is_not_understood_refuses_the_document() {
    for doc in [
        "version: 2\n",
        "version: x\n",
        "records:\n",
        "refs: inline\n",
        "  A: x\n",
        "A:\n",
        "A: x\nA: y\n",
        "version: 1\nrefs:\n  not an entry\n",
        "9: x\n",
    ] {
        assert!(parse_document(doc).is_err(), "{doc:?}");
    }
    assert_eq!(load_refs(None).unwrap().refs.len(), 0);
    assert_eq!(load_refs(Some("A: \"q\"\n")).unwrap().get("A"), Some("q"));
}

#[test]
fn only_the_owner_may_read_the_document() {
    assert_eq!(assert_owner_only(0o600, "p"), Ok(()));
    assert_eq!(assert_owner_only(0o100400, "p"), Ok(()));
    assert_eq!(
        assert_owner_only(0o100644, "p"),
        Err(
            "p is readable beyond its owner (mode 644); run \"chmod 600 p\" before starting again"
                .to_string()
        )
    );
    assert_eq!(credentials_path("/h"), "/h/.credentials.yaml");
    assert_eq!(redact("short"), "••••");
    assert_eq!(redact("sk-1234567890"), "sk-…7890");
}

#[test]
fn blank_lines_and_line_ends_survive_a_store() {
    let next = store_key("version: 1\nrefs:\n  A: x\n\n", "K", "v").unwrap();
    assert_eq!(next, "version: 1\nrefs:\n  A: x\n  K: v\n\n");
    let next = store_key("version: 1\r\n\r\nrefs:\r\n  A: x\r\n", "K", "v").unwrap();
    assert_eq!(next, "version: 1\r\n\r\nrefs:\r\n  A: x\r\n  K: v\n");
    assert_eq!(value(&next, "A"), Some("x".to_string()));
    let next = delete_key("version: 1\nrefs:\n  A: x\n\n", "A").unwrap().unwrap();
    assert_eq!(next, "version: 1\nrefs:\n\n");
}

#[test]
fn a_store_never_writes_a_name_twice() {
    let next = store_key("version: 1\nK: a\n", "K", "b").unwrap();
    assert_eq!(next, "version: 1\nK: b\n");
    assert_eq!(value(&next, "K"), Some("b".to_string()));
    let next = store_key("B: y\nrefs:\n  A: x\n", "K", "v").unwrap();
    assert_eq!(next, "version: 1\nB: y\nrefs:\n  A: x\n  K: v\n");
    for (name, stored) in [("A", "x"), ("B", "y"), ("K", "v")] {
        assert_eq!(value(&next, name), Some(stored.to_string()));
    }
    let next = store_key("B: y\nrefs:\n  A: x\n", "B", "z").unwrap();
    assert_eq!(next, "version: 1\nB: z\nrefs:\n  A: x\n");
}

#[test]
fn what_cannot_be_trusted_or_read_is_not_overwritten() {
    let doc = "version: 1\nrefs:\n  A: x\n".to_string();
    assert_eq!(
        store_over("p", Some(0o100600), Ok(Some(doc.clone())), "K", "v"),
        Ok("version: 1\nrefs:\n  A: x\n  K: v\n".to_string())
    );
    assert_eq!(
        store_over("p", None, Ok(None), "K", "v"),
        Ok("version: 1\nrefs:\n  K: v\n".to_string())
    );
    assert_eq!(
        store_over("p", Some(0o100600), Err("not text".to_string()), "K", "v"),
        Err("cannot read p: not text".to_string())
    );
    assert!(store_over("p", Some(0o100644), Ok(Some(doc.clone())), "K", "v").is_err());
    assert!(store_over("p", Some(0o100600), Ok(Some("nonsense".to_string())), "K", "v").is_err());
    assert_eq!(
        store_over("p", None, Err("gone".to_string()), "K", ""),
        Err("empty keys are not stored; remove the key instead".to_string())
    );
}

#[test]
fn the_layouts_own_names_are_not_deleted() {
    let doc = "version: 1\nrefs:\n  version: x\n";
    assert_eq!(delete_key(doc, "version"), Ok(None));
    assert_eq!(value(doc, "version"), Some("x".to_string()));
}

#[test]
fn blank_lines_and_comments_hold_nothing() {
    let plain = parse_document("version: 1\nrefs:\n  A: x\n").unwrap();
    let noted = parse_document("# a\nversion: 1\n\nrefs:\n  # b\n  A: x\n   \n").unwrap();
    assert_eq!(plain, noted);
}
