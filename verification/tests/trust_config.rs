use deployer::trustcfg::{apply, revert, TrustDoc};

fn entry() -> String {
    "localhost:6000".to_string()
}

#[test]
fn apply_on_absent_file_creates_single_entry() {
    let doc = apply(None);
    assert_eq!(doc.registries, Some(vec![entry()]));
    assert!(doc.others.is_empty());
}

#[test]
fn apply_then_revert_restores_absent_file() {
    let doc = apply(None);
    assert!(revert(doc).is_none());
}

#[test]
fn apply_then_revert_preserves_unrelated_keys() {
    let before = TrustDoc {
        registries: None,
        others: vec![
            ("log-driver".to_string(), "\"json-file\"".to_string()),
            ("dns".to_string(), "[\"8.8.8.8\"]".to_string()),
        ],
    };
    let after = apply(Some(before));
    assert_eq!(after.registries, Some(vec![entry()]));
    let restored = revert(after).expect("document with unrelated keys must survive");
    assert_eq!(restored.registries, None);
    assert_eq!(
        restored.others,
        vec![
            ("log-driver".to_string(), "\"json-file\"".to_string()),
            ("dns".to_string(), "[\"8.8.8.8\"]".to_string()),
        ]
    );
}

#[test]
fn apply_then_revert_preserves_existing_trust_list() {
    let before = TrustDoc {
        registries: Some(vec!["mirror.example:5000".to_string()]),
        others: Vec::new(),
    };
    let after = apply(Some(before));
    assert_eq!(
        after.registries,
        Some(vec!["mirror.example:5000".to_string(), entry()])
    );
    let restored = revert(after).expect("document with a foreign entry must survive");
    assert_eq!(
        restored.registries,
        Some(vec!["mirror.example:5000".to_string()])
    );
    assert!(restored.others.is_empty());
}

#[test]
fn apply_is_idempotent_on_present_entry() {
    let doc = apply(Some(apply(None)));
    assert_eq!(doc.registries, Some(vec![entry()]));
}

#[test]
fn revert_removes_only_own_entry_in_order() {
    let doc = TrustDoc {
        registries: Some(vec![
            "a.example:1".to_string(),
            entry(),
            "b.example:2".to_string(),
            "c.example:3".to_string(),
        ]),
        others: vec![("key".to_string(), "1".to_string())],
    };
    let reverted = revert(doc).expect("foreign entries must keep the document");
    assert_eq!(
        reverted.registries,
        Some(vec![
            "a.example:1".to_string(),
            "b.example:2".to_string(),
            "c.example:3".to_string(),
        ])
    );
    assert_eq!(reverted.others, vec![("key".to_string(), "1".to_string())]);
}

#[test]
fn revert_drops_emptied_list_but_keeps_other_keys() {
    let doc = TrustDoc {
        registries: Some(vec![entry()]),
        others: vec![("key".to_string(), "true".to_string())],
    };
    let reverted = revert(doc).expect("unrelated keys must keep the document");
    assert_eq!(reverted.registries, None);
    assert_eq!(reverted.others, vec![("key".to_string(), "true".to_string())]);
}

#[test]
fn revert_on_untouched_document_without_entry() {
    let doc = TrustDoc {
        registries: Some(vec!["other.example:9".to_string()]),
        others: Vec::new(),
    };
    let reverted = revert(doc).expect("a foreign entry must keep the document");
    assert_eq!(reverted.registries, Some(vec!["other.example:9".to_string()]));
}
