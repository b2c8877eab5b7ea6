use hostboard::state::{default_host_toggles, TemplateApp, HOST_COUNT};

#[test]
fn initial_toggles_alternate() {
    let toggles = default_host_toggles();
    assert_eq!(toggles.len(), 59);
    assert_eq!(toggles.len(), HOST_COUNT);
    for (i, t) in toggles.iter().enumerate() {
        let n = (i + 1) as u64;
        assert_eq!(t.id, n);
        assert_eq!(t.enabled, n % 2 == 0);
    }
}

#[test]
fn toggle_once_flips() {
    let mut app = TemplateApp::new(None);
    assert!(!app.host_toggles[0].enabled);
    app.toggle_host(0);
    assert!(app.host_toggles[0].enabled);
    assert!(app.host_toggles[1].enabled);
    app.toggle_host(1);
    assert!(!app.host_toggles[1].enabled);
}

#[test]
fn toggle_twice_restores() {
    let mut app = TemplateApp::new(None);
    let before = app.host_toggles.clone();
    app.toggle_host(16);
    assert_ne!(app.host_toggles[16].enabled, before[16].enabled);
    app.toggle_host(16);
    assert_eq!(app.host_toggles, before);
}

#[test]
fn toggle_leaves_other_entries_alone() {
    let mut app = TemplateApp::new(None);
    let before = app.host_toggles.clone();
    app.toggle_host(7);
    for i in 0..before.len() {
        if i != 7 {
            assert_eq!(app.host_toggles[i], before[i]);
        }
    }
    assert_eq!(app.label, "Hello World!");
    assert_eq!(app.value_milli, 2700);
}
