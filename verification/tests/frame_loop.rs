use hostboard::frame::{build_frame, FrameEvent, UiChrome};
use hostboard::state::TemplateApp;

#[test]
fn frame_mirrors_host_toggles() {
    let mut app = TemplateApp::new(None);
    let fd = build_frame(&app);
    assert_eq!(fd.host_rows.len(), 59);
    assert_eq!(fd.host_rows[0].label, "host1");
    assert!(!fd.host_rows[0].enabled);
    assert_eq!(fd.host_rows[1].label, "host2");
    assert!(fd.host_rows[1].enabled);
    assert_eq!(fd.host_rows[58].label, "host59");

    app.toggle_host(0);
    let fd2 = build_frame(&app);
    assert!(fd2.host_rows[0].enabled);
}

#[test]
fn frame_fixed_dimensions() {
    let app = TemplateApp::new(None);
    let fd = build_frame(&app);
    assert_eq!(fd.side_panel_width, 200);
    assert_eq!(fd.box_strip_height, 300);
    assert_eq!(fd.box_plot_height, 200);
    assert_eq!(fd.grid_strip_height, 500);
    assert_eq!(fd.grid_rows, 9);
    assert_eq!(fd.grid_columns.len(), 6);
    assert_eq!(fd.window_default_width, 750);
    assert_eq!(fd.window_default_height, 550);
    assert_eq!(fd.histogram_bar_width_milli, 95);
    assert_eq!(fd.stacked_bar_width_milli, 700);
    assert_eq!(fd.histogram_xs.len(), 80);
    assert_eq!(fd.stacked_heights.len(), 4);
    assert_eq!(fd.stacked_tops[1][0], 2000);
}

#[test]
fn events_update_state_and_chrome() {
    let mut app = TemplateApp::new(None);
    let mut chrome = UiChrome::start();
    assert!(!chrome.dark_mode);
    assert!(!chrome.file_menu_open);
    assert!(!chrome.areas_reset_pending);
    assert!(chrome.histogram_open);
    assert!(chrome.stacked_open);

    app.handle_event(&mut chrome, FrameEvent::ThemeSwitched);
    assert!(chrome.dark_mode);

    app.handle_event(&mut chrome, FrameEvent::FileMenuToggled);
    assert!(chrome.file_menu_open);

    app.handle_event(&mut chrome, FrameEvent::OrderClicked);
    assert!(!chrome.file_menu_open);
    assert!(chrome.areas_reset_pending);

    let enabled_before = app.host_toggles[4].enabled;
    app.handle_event(&mut chrome, FrameEvent::HostClicked(4));
    assert_ne!(app.host_toggles[4].enabled, enabled_before);
    assert_eq!(app.label, "Hello World!");
    assert_eq!(app.value_milli, 2700);
}
