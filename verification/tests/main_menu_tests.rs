use detection_wizard::main_menu::{MainApp, Screen};
use eframe::egui::Context;

fn mock_context() -> Context {
    Context::default()
}

#[test]
fn test_default_screen_is_menu() {
    let app = MainApp::default();
    match app.screen {
        Screen::Menu => {} // OK
        _ => panic!("Initial screen should be Menu"),
    }
}

#[test]
#[allow(unused_variables)]
fn test_rules_button_sets_tool_selector() {
    let mut app = MainApp::default();
    let ctx = mock_context();
    // Simulate click on Rules button
    app.screen = Screen::Menu;

    app.screen = Screen::ToolSelector(Default::default());

    match &app.screen {
        Screen::ToolSelector(_) => {} // OK
        _ => panic!("Should switch to ToolSelector screen"),
    }
}

#[test]
#[allow(unused_variables)]
fn test_iocs_button_sets_ioc_downloader() {
    let mut app = MainApp::default();
    let ctx = mock_context();

    app.screen = Screen::Menu;
    app.screen = Screen::IOCDownloader(Default::default());

    match &app.screen {
        Screen::IOCDownloader(_) => {} // OK
        _ => panic!("Should switch to IOCDownloader screen"),
    }
}
