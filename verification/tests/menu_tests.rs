use detection_wizard::ioc_menu::{IOCSelectorApp, OutputFormat};
use detection_wizard::main_menu::{MainApp, MenuEvent, Screen};
use detection_wizard::rules::rule_menu::ToolSelectorApp;
use detection_wizard::rules::ui_rule::{estimate_work, output_path, plan_tool, tool_sources, ToolPlan};
use detection_wizard::rules::{sigma, splunk, suricata, yara};

#[test]
fn the_tool_selector_starts_with_nothing_ticked() {
    let app = ToolSelectorApp::default();
    assert_eq!(app.tool_names, vec!["Yara", "Suricata", "Sigma", "Splunk", "QRadar", "All"]);
    assert_eq!(app.selected, vec![false; 6]);
    assert_eq!(app.custom_path, None);
    assert!(!app.any_selected());
    assert_eq!(app.find_all(), Some(5));
    assert_eq!(app.tools(), vec!["Yara", "Suricata", "Sigma", "Splunk", "QRadar"]);
    assert_eq!(app.selected_tools(), Vec::<&str>::new());
}

#[test]
fn a_click_on_all_sets_every_box() {
    let mut app = ToolSelectorApp::default();
    app.toggle(1);
    app.toggle(5);
    assert_eq!(app.selected, vec![true; 6]);
    app.toggle(5);
    assert_eq!(app.selected, vec![false; 6]);
}

#[test]
fn a_click_on_a_tool_unticks_all() {
    let mut app = ToolSelectorApp::default();
    app.toggle(5);
    app.toggle(2);
    assert_eq!(app.selected, vec![true, true, false, true, true, false]);
    assert!(app.any_selected());
    assert_eq!(app.selected_tools(), vec!["Yara", "Suricata", "Splunk", "QRadar"]);
}

#[test]
fn ticking_the_last_tool_ticks_all() {
    let mut app = ToolSelectorApp::default();
    for i in 0..4 {
        app.toggle(i);
        assert_eq!(app.selected[5], false);
    }
    app.toggle(4);
    assert_eq!(app.selected, vec![true; 6]);
    assert_eq!(app.selected_tools(), vec!["Yara", "Suricata", "Sigma", "Splunk", "QRadar"]);
}

#[test]
fn all_alone_selects_every_tool() {
    let mut app = ToolSelectorApp::default();
    app.selected[5] = true;
    assert_eq!(app.selected_tools(), vec!["Yara", "Suricata", "Sigma", "Splunk", "QRadar"]);
}

#[test]
fn a_selector_without_all_just_flips() {
    let mut app = ToolSelectorApp {
        tool_names: vec!["Yara", "Sigma"],
        selected: vec![false, true],
        custom_path: Some("out".to_string()),
    };
    assert_eq!(app.find_all(), None);
    app.toggle(0);
    assert_eq!(app.selected, vec![true, true]);
    app.toggle(1);
    assert_eq!(app.selected, vec![true, false]);
    assert_eq!(app.selected_tools(), vec!["Yara"]);
    assert_eq!(app.custom_path, Some("out".to_string()));
}

#[test]
fn the_indicator_selector_starts_empty() {
    let app = IOCSelectorApp::default();
    assert_eq!(
        app.ioc_types,
        vec!["Filename", "SHA256", "SHA1", "MD5", "IP", "Domain", "URL", "Email", "Registry"]
    );
    assert_eq!(app.selected, vec![false; 9]);
    assert_eq!(app.output_format, OutputFormat::Txt);
    assert_eq!(app.custom_path, None);
    assert!(!app.confirm_overwrite);
    assert!(app.pending_urls.is_none());
    assert!(app.overwrite_queue.is_empty());
    assert_eq!(app.overwrite_index, 0);
    assert!(!app.yes_all);
    assert!(!app.skip_all);
}

#[test]
fn the_menu_leads_to_the_selectors_and_back() {
    let mut app = MainApp::default();
    assert!(!app.handle(MenuEvent::Back));
    assert!(matches!(app.screen, Screen::Menu));
    assert!(!app.handle(MenuEvent::Rules));
    assert!(matches!(app.screen, Screen::ToolSelector(_)));
    assert!(!app.handle(MenuEvent::Iocs));
    assert!(matches!(app.screen, Screen::ToolSelector(_)));
    assert!(!app.handle(MenuEvent::Quit));
    assert!(!app.handle(MenuEvent::Back));
    assert!(matches!(app.screen, Screen::Menu));
    assert!(!app.handle(MenuEvent::Iocs));
    assert!(matches!(app.screen, Screen::IOCDownloader(_)));
    assert!(!app.handle(MenuEvent::Back));
    assert!(app.handle(MenuEvent::Quit));
    assert!(matches!(app.screen, Screen::Menu));
}

#[test]
fn a_selector_keeps_its_ticks_while_it_is_shown() {
    let mut app = MainApp::default();
    app.handle(MenuEvent::Rules);
    if let Screen::ToolSelector(tools) = &mut app.screen {
        tools.toggle(0);
    }
    app.handle(MenuEvent::Rules);
    match &app.screen {
        Screen::ToolSelector(tools) => assert!(tools.selected[0]),
        _ => panic!("the selector was left"),
    }
}

#[test]
fn the_window_is_put_in_place_once() {
    let mut app = MainApp::default();
    assert!(app.take_centering());
    assert!(!app.take_centering());
    assert!(!app.take_centering());
}

#[test]
fn the_work_of_a_run_is_the_sum_over_its_tools() {
    assert_eq!(tool_sources("Yara"), 69);
    assert_eq!(tool_sources("Suricata"), 38);
    assert_eq!(tool_sources("Sigma"), 10);
    assert_eq!(tool_sources("Splunk"), 4);
    assert_eq!(tool_sources("QRadar"), 1);
    assert_eq!(tool_sources("Sysmon"), 5);
    assert_eq!(tool_sources("All"), 0);
    assert_eq!(tool_sources("yara"), 0);
    assert_eq!(estimate_work(&["Yara", "Suricata", "Sigma", "Splunk", "QRadar"]), 122);
    assert_eq!(estimate_work(&["Sigma", "Nothing", "Sigma"]), 20);
    assert_eq!(estimate_work(&[]), 0);
}

#[test]
fn each_tool_has_its_plan() {
    match plan_tool("Yara", "out") {
        Some(ToolPlan::Jobs(jobs)) => assert_eq!(jobs, yara::process_yara("out")),
        other => panic!("{:?}", other),
    }
    match plan_tool("Suricata", "out") {
        Some(ToolPlan::Jobs(jobs)) => assert_eq!(jobs, suricata::process_suricata("out")),
        other => panic!("{:?}", other),
    }
    match plan_tool("Sigma", "out") {
        Some(ToolPlan::Jobs(jobs)) => assert_eq!(jobs, sigma::process_sigma("out")),
        other => panic!("{:?}", other),
    }
    match plan_tool("Splunk", "out") {
        Some(ToolPlan::Run(spec)) => assert_eq!(spec, splunk::splunk_spec()),
        other => panic!("{:?}", other),
    }
    assert!(matches!(plan_tool("QRadar", "out"), Some(ToolPlan::Run(_))));
    assert!(matches!(plan_tool("Sysmon", "out"), Some(ToolPlan::Run(_))));
    assert!(plan_tool("All", "out").is_none());
    assert!(plan_tool("", "out").is_none());
    assert_eq!(output_path(&None), "./rule_output");
    assert_eq!(output_path(&Some("/data".to_string())), "/data");
}
