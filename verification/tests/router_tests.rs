use sentinel_shell::ids::{menu_id_str, parse_menu_id, MenuId};
use sentinel_shell::menu::{build_menu, MenuNode, Platform};
use sentinel_shell::router::{route, route_id, MenuEffect};

const ALL_IDS: [MenuId; 19] = [
    MenuId::Settings,
    MenuId::NewTest,
    MenuId::Open,
    MenuId::Save,
    MenuId::SaveAs,
    MenuId::ExportYaml,
    MenuId::ImportYaml,
    MenuId::ToggleLeftPanel,
    MenuId::ToggleRightPanel,
    MenuId::ZoomIn,
    MenuId::ZoomOut,
    MenuId::ResetZoom,
    MenuId::FitCanvas,
    MenuId::ToggleMinimap,
    MenuId::Documentation,
    MenuId::KeyboardShortcuts,
    MenuId::ReportIssue,
    MenuId::CheckUpdates,
    MenuId::BringAllToFront,
];

fn expect_emit(e: &MenuEffect, channel: &str, payload: Option<&str>) {
    match e {
        MenuEffect::Emit { channel: c, payload: p } => {
            assert_eq!(c, channel);
            assert_eq!(p.as_deref(), payload);
        }
        _ => panic!("an emission was expected on {channel}"),
    }
}

#[test]
fn zoom_in_emits_exactly_one_zoom_event() {
    // One dispatch yields one effect; it is the zoom emission and nothing
    // else (in particular not an emission on any other channel).
    let e = route("zoom_in");
    expect_emit(&e, "menu:zoom", Some("in"));
}

#[test]
fn dispatch_table_rows() {
    expect_emit(&route("settings"), "menu:settings", None);
    expect_emit(&route("new_test"), "menu:file", Some("new"));
    expect_emit(&route("open"), "menu:file", Some("open"));
    expect_emit(&route("save"), "menu:file", Some("save"));
    expect_emit(&route("save_as"), "menu:file", Some("save-as"));
    expect_emit(&route("export_yaml"), "menu:file", Some("export"));
    expect_emit(&route("import_yaml"), "menu:file", Some("import"));
    expect_emit(&route("toggle_left_panel"), "menu:toggle-panel", Some("left"));
    expect_emit(&route("toggle_right_panel"), "menu:toggle-panel", Some("right"));
    expect_emit(&route("zoom_in"), "menu:zoom", Some("in"));
    expect_emit(&route("zoom_out"), "menu:zoom", Some("out"));
    expect_emit(&route("reset_zoom"), "menu:zoom", Some("reset"));
    expect_emit(&route("fit_canvas"), "menu:canvas", Some("fit"));
    expect_emit(&route("toggle_minimap"), "menu:canvas", Some("toggle-minimap"));
    expect_emit(&route("documentation"), "menu:help", Some("docs"));
    expect_emit(&route("keyboard_shortcuts"), "menu:help", Some("shortcuts"));
    expect_emit(&route("check_updates"), "menu:help", Some("check-updates"));
}

#[test]
fn report_issue_opens_the_tracker() {
    match route("report_issue") {
        MenuEffect::OpenUrl { url } => {
            assert_eq!(url, "https://github.com/navam/sentinel/issues");
        }
        _ => panic!("report_issue should open a URL"),
    }
}

#[test]
fn unknown_and_host_identifiers_do_nothing() {
    assert!(matches!(route("no_such_entry"), MenuEffect::NoOp));
    assert!(matches!(route(""), MenuEffect::NoOp));
    assert!(matches!(route("bring_all_to_front"), MenuEffect::NoOp));
}

#[test]
fn id_strings_round_trip() {
    for id in ALL_IDS {
        let s = menu_id_str(id);
        assert_eq!(parse_menu_id(&s), Some(id));
    }
    assert_eq!(parse_menu_id("zoom"), None);
}

#[test]
fn string_routing_agrees_with_id_routing() {
    for id in ALL_IDS {
        let by_string = route(&menu_id_str(id));
        let by_id = route_id(id);
        match (by_string, by_id) {
            (
                MenuEffect::Emit { channel: c1, payload: p1 },
                MenuEffect::Emit { channel: c2, payload: p2 },
            ) => {
                assert_eq!(c1, c2);
                assert_eq!(p1, p2);
            }
            (MenuEffect::OpenUrl { url: u1 }, MenuEffect::OpenUrl { url: u2 }) => {
                assert_eq!(u1, u2);
            }
            (MenuEffect::NoOp, MenuEffect::NoOp) => {}
            _ => panic!("string routing disagrees with identifier routing"),
        }
    }
}

fn assert_all_routed(nodes: &[MenuNode]) {
    for n in nodes {
        match n {
            MenuNode::Action { id, .. } => {
                let routed = !matches!(route_id(*id), MenuEffect::NoOp);
                assert!(routed || *id == MenuId::BringAllToFront);
            }
            MenuNode::Checkable { id, .. } => {
                assert!(!matches!(route_id(*id), MenuEffect::NoOp));
            }
            MenuNode::Submenu { children, .. } => assert_all_routed(children),
            _ => {}
        }
    }
}

#[test]
fn every_menu_identifier_is_routed() {
    for platform in [Platform::MacOs, Platform::Other] {
        let m = build_menu(platform);
        assert_all_routed(&m.nodes);
    }
}
