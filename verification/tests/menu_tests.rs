use sentinel_shell::ids::MenuId;
use sentinel_shell::menu::{build_menu, sync_menu_state, HostItem, MenuNode, Platform};

fn submenu_labels(m: &[MenuNode]) -> Vec<String> {
    m.iter()
        .filter_map(|n| match n {
            MenuNode::Submenu { label, .. } => Some(label.clone()),
            _ => None,
        })
        .collect()
}

fn collect_ids(nodes: &[MenuNode], out: &mut Vec<MenuId>) {
    for n in nodes {
        match n {
            MenuNode::Action { id, .. } => out.push(*id),
            MenuNode::Checkable { id, .. } => out.push(*id),
            MenuNode::Submenu { children, .. } => collect_ids(children, out),
            _ => {}
        }
    }
}

#[test]
fn unified_menu_bar_layout() {
    let m = build_menu(Platform::MacOs);
    assert_eq!(
        submenu_labels(&m.nodes),
        vec!["Sentinel", "File", "Edit", "View", "Window", "Help"]
    );
}

#[test]
fn folded_menu_bar_layout() {
    let m = build_menu(Platform::Other);
    assert_eq!(submenu_labels(&m.nodes), vec!["File", "Edit", "View", "Help"]);
}

#[test]
fn settings_placement_follows_platform() {
    let mut mac_ids = Vec::new();
    if let MenuNode::Submenu { children, .. } = &build_menu(Platform::MacOs).nodes[1] {
        collect_ids(children, &mut mac_ids);
    } else {
        panic!("File submenu expected");
    }
    assert!(!mac_ids.contains(&MenuId::Settings));

    let mut other_ids = Vec::new();
    if let MenuNode::Submenu { children, .. } = &build_menu(Platform::Other).nodes[0] {
        collect_ids(children, &mut other_ids);
    } else {
        panic!("File submenu expected");
    }
    assert!(other_ids.contains(&MenuId::Settings));
}

#[test]
fn quit_folded_into_file_elsewhere() {
    let m = build_menu(Platform::Other);
    let file = match &m.nodes[0] {
        MenuNode::Submenu { children, .. } => children,
        _ => panic!("File submenu expected"),
    };
    match file.last().expect("File submenu has items") {
        MenuNode::Host { item, label } => {
            assert_eq!(*item, HostItem::Quit);
            assert_eq!(label.as_deref(), Some("Exit"));
        }
        _ => panic!("quit entry expected at the end of File"),
    }
}

#[test]
fn ids_unique_within_tree() {
    for platform in [Platform::MacOs, Platform::Other] {
        let m = build_menu(platform);
        let mut ids = Vec::new();
        collect_ids(&m.nodes, &mut ids);
        for (i, a) in ids.iter().enumerate() {
            for b in &ids[i + 1..] {
                assert_ne!(a, b);
            }
        }
    }
}

#[test]
fn checkboxes_start_checked() {
    let m = build_menu(Platform::Other);
    assert_eq!(m.panel_checked(MenuId::ToggleLeftPanel), Some(true));
    assert_eq!(m.panel_checked(MenuId::ToggleRightPanel), Some(true));
}

#[test]
fn non_checkable_id_has_no_checkbox() {
    let m = build_menu(Platform::MacOs);
    assert_eq!(m.panel_checked(MenuId::Settings), None);
}

#[test]
fn sync_sets_both_checkboxes() {
    let mut m = build_menu(Platform::MacOs);
    sync_menu_state(&mut m, true, false);
    assert_eq!(m.panel_checked(MenuId::ToggleLeftPanel), Some(true));
    assert_eq!(m.panel_checked(MenuId::ToggleRightPanel), Some(false));
}

#[test]
fn sync_is_idempotent() {
    let mut m = build_menu(Platform::Other);
    sync_menu_state(&mut m, false, true);
    sync_menu_state(&mut m, false, true);
    sync_menu_state(&mut m, false, true);
    assert_eq!(m.panel_checked(MenuId::ToggleLeftPanel), Some(false));
    assert_eq!(m.panel_checked(MenuId::ToggleRightPanel), Some(true));
}

#[test]
fn sync_touches_nothing_else() {
    let mut m = build_menu(Platform::Other);
    let mut before = Vec::new();
    collect_ids(&m.nodes, &mut before);
    let labels_before = submenu_labels(&m.nodes);
    sync_menu_state(&mut m, false, false);
    let mut after = Vec::new();
    collect_ids(&m.nodes, &mut after);
    assert_eq!(before, after);
    assert_eq!(labels_before, submenu_labels(&m.nodes));
}
