//! Menu identifiers.
//!
//! Every actionable node of the menu carries a stable identifier; it is the
//! sole correlation key between a native menu interaction and the event
//! routed to the UI. Identifiers cross the native boundary as strings;
//! inside the library they are the `MenuId` enumeration, with
//! `menu_id_str` / `parse_menu_id` translating at the edge.

use vstd::prelude::*;

use crate::text::str_eq;

verus! {

/// An identifier carried by an actionable menu node.
#[derive(Clone, Copy, PartialEq, Eq, Structural, Debug)]
pub enum MenuId {
    Settings,
    NewTest,
    Open,
    Save,
    SaveAs,
    ExportYaml,
    ImportYaml,
    ToggleLeftPanel,
    ToggleRightPanel,
    ZoomIn,
    ZoomOut,
    ResetZoom,
    FitCanvas,
    ToggleMinimap,
    Documentation,
    KeyboardShortcuts,
    ReportIssue,
    CheckUpdates,
    BringAllToFront,
}

/// The string form of an identifier.
pub open spec fn spec_id_str(id: MenuId) -> Seq<char> {
    match id {
        MenuId::Settings => "settings"@,
        MenuId::NewTest => "new_test"@,
        MenuId::Open => "open"@,
        MenuId::Save => "save"@,
        MenuId::SaveAs => "save_as"@,
        MenuId::ExportYaml => "export_yaml"@,
        MenuId::ImportYaml => "import_yaml"@,
        MenuId::ToggleLeftPanel => "toggle_left_panel"@,
        MenuId::ToggleRightPanel => "toggle_right_panel"@,
        MenuId::ZoomIn => "zoom_in"@,
        MenuId::ZoomOut => "zoom_out"@,
        MenuId::ResetZoom => "reset_zoom"@,
        MenuId::FitCanvas => "fit_canvas"@,
        MenuId::ToggleMinimap => "toggle_minimap"@,
        MenuId::Documentation => "documentation"@,
        MenuId::KeyboardShortcuts => "keyboard_shortcuts"@,
        MenuId::ReportIssue => "report_issue"@,
        MenuId::CheckUpdates => "check_updates"@,
        MenuId::BringAllToFront => "bring_all_to_front"@,
    }
}

/// The identifier whose string form is `s`, if any.
pub open spec fn spec_parse_id(s: Seq<char>) -> Option<MenuId> {
    if s == "settings"@ {
        Some(MenuId::Settings)
    } else if s == "new_test"@ {
        Some(MenuId::NewTest)
    } else if s == "open"@ {
        Some(MenuId::Open)
    } else if s == "save"@ {
        Some(MenuId::Save)
    } else if s == "save_as"@ {
        Some(MenuId::SaveAs)
    } else if s == "export_yaml"@ {
        Some(MenuId::ExportYaml)
    } else if s == "import_yaml"@ {
        Some(MenuId::ImportYaml)
    } else if s == "toggle_left_panel"@ {
        Some(MenuId::ToggleLeftPanel)
    } else if s == "toggle_right_panel"@ {
        Some(MenuId::ToggleRightPanel)
    } else if s == "zoom_in"@ {
        Some(MenuId::ZoomIn)
    } else if s == "zoom_out"@ {
        Some(MenuId::ZoomOut)
    } else if s == "reset_zoom"@ {
        Some(MenuId::ResetZoom)
    } else if s == "fit_canvas"@ {
        Some(MenuId::FitCanvas)
    } else if s == "toggle_minimap"@ {
        Some(MenuId::ToggleMinimap)
    } else if s == "documentation"@ {
        Some(MenuId::Documentation)
    } else if s == "keyboard_shortcuts"@ {
        Some(MenuId::KeyboardShortcuts)
    } else if s == "report_issue"@ {
        Some(MenuId::ReportIssue)
    } else if s == "check_updates"@ {
        Some(MenuId::CheckUpdates)
    } else if s == "bring_all_to_front"@ {
        Some(MenuId::BringAllToFront)
    } else {
        None
    }
}

/// Renders an identifier as the string the native layer sees.
pub fn menu_id_str(id: MenuId) -> (s: String)
    ensures
        s@ == spec_id_str(id),
{
    match id {
        MenuId::Settings => String::from_str("settings"),
        MenuId::NewTest => String::from_str("new_test"),
        MenuId::Open => String::from_str("open"),
        MenuId::Save => String::from_str("save"),
        MenuId::SaveAs => String::from_str("save_as"),
        MenuId::ExportYaml => String::from_str("export_yaml"),
        MenuId::ImportYaml => String::from_str("import_yaml"),
        MenuId::ToggleLeftPanel => String::from_str("toggle_left_panel"),
        MenuId::ToggleRightPanel => String::from_str("toggle_right_panel"),
        MenuId::ZoomIn => String::from_str("zoom_in"),
        MenuId::ZoomOut => String::from_str("zoom_out"),
        MenuId::ResetZoom => String::from_str("reset_zoom"),
        MenuId::FitCanvas => String::from_str("fit_canvas"),
        MenuId::ToggleMinimap => String::from_str("toggle_minimap"),
        MenuId::Documentation => String::from_str("documentation"),
        MenuId::KeyboardShortcuts => String::from_str("keyboard_shortcuts"),
        MenuId::ReportIssue => String::from_str("report_issue"),
        MenuId::CheckUpdates => String::from_str("check_updates"),
        MenuId::BringAllToFront => String::from_str("bring_all_to_front"),
    }
}

/// Parses the string form of an identifier coming from the native layer.
pub fn parse_menu_id(s: &str) -> (r: Option<MenuId>)
    ensures
        r == spec_parse_id(s@),
{
    if str_eq(s, "settings") {
        Some(MenuId::Settings)
    } else if str_eq(s, "new_test") {
        Some(MenuId::NewTest)
    } else if str_eq(s, "open") {
        Some(MenuId::Open)
    } else if str_eq(s, "save") {
        Some(MenuId::Save)
    } else if str_eq(s, "save_as") {
        Some(MenuId::SaveAs)
    } else if str_eq(s, "export_yaml") {
        Some(MenuId::ExportYaml)
    } else if str_eq(s, "import_yaml") {
        Some(MenuId::ImportYaml)
    } else if str_eq(s, "toggle_left_panel") {
        Some(MenuId::ToggleLeftPanel)
    } else if str_eq(s, "toggle_right_panel") {
        Some(MenuId::ToggleRightPanel)
    } else if str_eq(s, "zoom_in") {
        Some(MenuId::ZoomIn)
    } else if str_eq(s, "zoom_out") {
        Some(MenuId::ZoomOut)
    } else if str_eq(s, "reset_zoom") {
        Some(MenuId::ResetZoom)
    } else if str_eq(s, "fit_canvas") {
        Some(MenuId::FitCanvas)
    } else if str_eq(s, "toggle_minimap") {
        Some(MenuId::ToggleMinimap)
    } else if str_eq(s, "documentation") {
        Some(MenuId::Documentation)
    } else if str_eq(s, "keyboard_shortcuts") {
        Some(MenuId::KeyboardShortcuts)
    } else if str_eq(s, "report_issue") {
        Some(MenuId::ReportIssue)
    } else if str_eq(s, "check_updates") {
        Some(MenuId::CheckUpdates)
    } else if str_eq(s, "bring_all_to_front") {
        Some(MenuId::BringAllToFront)
    } else {
        None
    }
}

/// Parsing the string form of an identifier gives that identifier back:
/// the string forms are pairwise distinct, so a string names at most one
/// identifier.
pub proof fn lemma_id_str_round_trip(id: MenuId)
    ensures
        spec_parse_id(spec_id_str(id)) == Some(id),
{
    reveal_strlit("settings");
    reveal_strlit("new_test");
    reveal_strlit("open");
    reveal_strlit("save");
    reveal_strlit("save_as");
    reveal_strlit("export_yaml");
    reveal_strlit("import_yaml");
    reveal_strlit("toggle_left_panel");
    reveal_strlit("toggle_right_panel");
    reveal_strlit("zoom_in");
    reveal_strlit("zoom_out");
    reveal_strlit("reset_zoom");
    reveal_strlit("fit_canvas");
    reveal_strlit("toggle_minimap");
    reveal_strlit("documentation");
    reveal_strlit("keyboard_shortcuts");
    reveal_strlit("report_issue");
    reveal_strlit("check_updates");
    reveal_strlit("bring_all_to_front");
    assert("settings"@.len() == 8 && "settings"@[0] == 's' && "settings"@[1] == 'e');
    assert("new_test"@.len() == 8 && "new_test"@[0] == 'n');
    assert("open"@.len() == 4 && "open"@[0] == 'o');
    assert("save"@.len() == 4 && "save"@[0] == 's');
    assert("save_as"@.len() == 7 && "save_as"@[0] == 's');
    assert("export_yaml"@.len() == 11 && "export_yaml"@[0] == 'e');
    assert("import_yaml"@.len() == 11 && "import_yaml"@[0] == 'i');
    assert("toggle_left_panel"@.len() == 17 && "toggle_left_panel"@[0] == 't');
    assert("toggle_right_panel"@.len() == 18 && "toggle_right_panel"@[0] == 't');
    assert("zoom_in"@.len() == 7 && "zoom_in"@[0] == 'z');
    assert("zoom_out"@.len() == 8 && "zoom_out"@[0] == 'z');
    assert("reset_zoom"@.len() == 10 && "reset_zoom"@[0] == 'r');
    assert("fit_canvas"@.len() == 10 && "fit_canvas"@[0] == 'f');
    assert("toggle_minimap"@.len() == 14 && "toggle_minimap"@[0] == 't');
    assert("documentation"@.len() == 13 && "documentation"@[0] == 'd');
    assert("keyboard_shortcuts"@.len() == 18 && "keyboard_shortcuts"@[0] == 'k');
    assert("report_issue"@.len() == 12 && "report_issue"@[0] == 'r');
    assert("check_updates"@.len() == 13 && "check_updates"@[0] == 'c');
    assert("bring_all_to_front"@.len() == 18 && "bring_all_to_front"@[0] == 'b');
}

/// String forms are injective: distinct identifiers never share one.
pub proof fn lemma_id_str_injective(a: MenuId, b: MenuId)
    requires
        spec_id_str(a) == spec_id_str(b),
    ensures
        a == b,
{
    lemma_id_str_round_trip(a);
    lemma_id_str_round_trip(b);
}

} // verus!
