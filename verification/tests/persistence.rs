use hostboard::codec::STORAGE_TAG;
use hostboard::state::{default_host_toggles, TemplateApp};

#[test]
fn missing_blob_yields_defaults() {
    let app = TemplateApp::new(None);
    assert_eq!(app.label, "Hello World!");
    assert_eq!(app.value_milli, 2700);
    assert_eq!(app.host_toggles.len(), 59);
}

#[test]
fn empty_blob_yields_defaults() {
    let app = TemplateApp::new(Some(Vec::new()));
    assert_eq!(app.label, "Hello World!");
    assert_eq!(app.value_milli, 2700);
}

#[test]
fn untagged_blob_falls_back_to_defaults() {
    // A blob that does not start with the tag byte is rejected whole.
    let app = TemplateApp::new(Some(b"dashboard title".to_vec()));
    assert_eq!(app.label, "Hello World!");
    assert_eq!(app.value_milli, 2700);
}

#[test]
fn invalid_payload_falls_back_to_defaults() {
    let app = TemplateApp::new(Some(vec![STORAGE_TAG, 0xff, 0xfe, 0x80]));
    assert_eq!(app.label, "Hello World!");
    assert_eq!(app.value_milli, 2700);
}

#[test]
fn tagged_blob_restores_label() {
    let mut blob = vec![STORAGE_TAG];
    blob.extend_from_slice(b"dashboard title");
    let app = TemplateApp::new(Some(blob));
    assert_eq!(app.label, "dashboard title");
    // The value and the toggles are not persisted: they restart at defaults.
    assert_eq!(app.value_milli, 2700);
    assert_eq!(app.host_toggles.len(), 59);
    assert!(app.host_toggles[1].enabled);
}

#[test]
fn reserialize_after_deserialize_is_stable() {
    let mut original = vec![STORAGE_TAG];
    original.extend_from_slice("Grüße, 世界".as_bytes());
    let app = TemplateApp::new(Some(original.clone()));
    assert_eq!(app.encode(), original);
    let again = TemplateApp::new(Some(app.encode()));
    assert_eq!(again.encode(), original);
}

#[test]
fn encode_then_decode_keeps_label() {
    let app = TemplateApp {
        label: "non-ascii: é日本".to_string(),
        value_milli: 5,
        host_toggles: default_host_toggles(),
    };
    let blob = app.encode();
    let restored = TemplateApp::new(Some(blob));
    assert_eq!(restored.label, "non-ascii: é日本");
    // The numeric value is never persisted.
    assert_eq!(restored.value_milli, 2700);
}

#[test]
fn default_state_encodes_tag_then_label_bytes() {
    let app = TemplateApp::new(None);
    let mut expected = vec![STORAGE_TAG];
    expected.extend_from_slice(b"Hello World!");
    assert_eq!(app.encode(), expected);
}
