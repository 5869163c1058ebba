use abylab_tui::credentials::{
    assert_owner_only, credentials_path, delete_key, load_refs, parse_document, redact, store_key,
    stored_key, CredentialRefs, API_KEY_REF,
};

#[test]
fn store_then_read_round_trips() {
    let text = store_key("", API_KEY_REF, "sk-abc123").unwrap();
    assert_eq!(
        stored_key(Some(text.as_str()), API_KEY_REF).unwrap(),
        Some("sk-abc123".into())
    );
    // The document is exactly the version-1 layout.
    assert_eq!(text, "version: 1\nrefs:\n  DEEPSEEK_API_KEY: sk-abc123\n");
    assert!(assert_owner_only(0o100600, "/home/.credentials.yaml").is_ok());
}

#[test]
fn store_patches_only_its_own_entry() {
    let text = store_key(
        "# keys live here\nversion: 1\nrefs:\n  OTHER_TOKEN: keep-me\n",
        API_KEY_REF,
        "sk-new",
    )
    .unwrap();
    assert_eq!(
        text,
        "# keys live here\nversion: 1\nrefs:\n  OTHER_TOKEN: keep-me\n  DEEPSEEK_API_KEY: sk-new\n"
    );

    // Replacing keeps the sibling verbatim and drops the stale value.
    let text = store_key(&text, API_KEY_REF, "sk-newer").unwrap();
    assert!(text.contains("OTHER_TOKEN: keep-me"), "{text}");
    assert!(text.contains("DEEPSEEK_API_KEY: sk-newer"), "{text}");
    assert!(!text.contains("sk-new\n"), "{text}");
}

#[test]
fn store_migrates_a_flat_document_in_the_same_write() {
    let text = store_key(
        "# pre-release\nDEEPSEEK_API_KEY: sk-old\n",
        API_KEY_REF,
        "sk-migrated",
    )
    .unwrap();
    assert_eq!(
        text,
        "version: 1\nrefs:\n  # pre-release\n  DEEPSEEK_API_KEY: sk-migrated\n"
    );
    let refs = parse_document(&text).unwrap();
    assert_eq!(refs.get(API_KEY_REF), Some("sk-migrated"));
}

#[test]
fn parse_rejects_unknown_and_broken_documents() {
    assert!(parse_document("version: 2\nrefs:\n")
        .unwrap_err()
        .contains("declares version 2"));
    assert!(parse_document("bad-name: x\n")
        .unwrap_err()
        .contains("unknown top-level key"));
    assert!(parse_document("version: 1\nrefs:\n  KEY:\n")
        .unwrap_err()
        .contains("is empty"));
    assert!(parse_document("version: 1\nrefs:\n  KEY: a\n  KEY: b\n")
        .unwrap_err()
        .contains("duplicate"));
    assert!(parse_document("version: 1\n  KEY: stray\n")
        .unwrap_err()
        .contains("nested lines belong"));
    // An empty/comment-only document is the empty store.
    assert_eq!(
        parse_document("# nothing\n").unwrap(),
        CredentialRefs::default()
    );
    // A pre-release flat layout is admitted.
    assert_eq!(
        parse_document("DEEPSEEK_API_KEY: sk-flat\n")
            .unwrap()
            .get(API_KEY_REF),
        Some("sk-flat")
    );
}

#[test]
fn load_refuses_group_or_other_readable_documents() {
    let path = credentials_path("/home/me/.abylab");
    assert_eq!(path, "/home/me/.abylab/.credentials.yaml");
    let err = assert_owner_only(0o100644, &path).unwrap_err();
    assert!(err.contains("chmod 600"), "{err}");
    assert!(err.contains("(mode 644)"), "{err}");
    assert!(assert_owner_only(0o100640, &path).is_err());
    assert!(assert_owner_only(0o100604, &path).is_err());
    assert!(assert_owner_only(0o100600, &path).is_ok());
    assert!(assert_owner_only(0o100700, &path).is_ok());
}

#[test]
fn redact_never_carries_the_whole_key() {
    assert_eq!(redact("sk-abcdefgh1234"), "sk-…1234");
    assert_eq!(redact("short"), "••••");
    assert!(!redact("sk-abcdefgh1234").contains("abcdefgh"));
}

#[test]
fn delete_removes_only_the_named_entry() {
    let doc = "# keys live here\nversion: 1\nrefs:\n  OTHER_TOKEN: keep-me\n  DEEPSEEK_API_KEY: sk-gone\n";
    let text = delete_key(doc, API_KEY_REF).unwrap().unwrap();
    assert_eq!(
        text,
        "# keys live here\nversion: 1\nrefs:\n  OTHER_TOKEN: keep-me\n"
    );
    let refs = parse_document(&text).unwrap();
    assert_eq!(refs.get(API_KEY_REF), None);
    assert_eq!(refs.get("OTHER_TOKEN"), Some("keep-me"));

    // A second delete has nothing to remove.
    assert_eq!(delete_key(&text, API_KEY_REF), Ok(None));
}

#[test]
fn delete_on_an_absent_or_unparseable_document_is_safe() {
    // Absent: nothing is stored.
    assert_eq!(load_refs(None), Ok(CredentialRefs::default()));
    assert_eq!(stored_key(None, API_KEY_REF), Ok(None));
    assert_eq!(delete_key("", API_KEY_REF), Ok(None));

    // Unparseable: refused, never rewritten.
    assert!(delete_key("version: 9\nrefs:\n", API_KEY_REF).is_err());
    assert!(store_key("version: 9\nrefs:\n", API_KEY_REF, "sk").is_err());
}

#[test]
fn delete_also_clears_a_flat_entry() {
    let text = delete_key("DEEPSEEK_API_KEY: sk-flat\nOTHER: x\n", API_KEY_REF)
        .unwrap()
        .unwrap();
    assert_eq!(text, "OTHER: x\n");
    assert!(parse_document(&text).unwrap().get(API_KEY_REF).is_none());
}

#[test]
fn empty_keys_and_odd_names_are_not_stored() {
    assert_eq!(
        store_key("", API_KEY_REF, "  "),
        Err("empty keys are not stored; remove the key instead".into())
    );
    assert_eq!(
        store_key("", "BAD-NAME", "x"),
        Err("\"BAD-NAME\" is not an env-style reference name".into())
    );
}
