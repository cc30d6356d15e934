//! Event routing: the dispatch table from menu identifiers to UI-facing
//! effects.
//!
//! A menu interaction arrives as an identifier string; routing turns it
//! into one tagged effect: an emission on a named channel with an optional
//! payload, the opening of one fixed external URL, or — for identifiers
//! that are intentionally left to the host or are unknown — no operation.
//! Dispatch is a pure function: one identifier, one effect.

use vstd::prelude::*;

use crate::ids::{lemma_id_str_round_trip, parse_menu_id, spec_id_str, spec_parse_id, MenuId};
use crate::menu::{
    spec_app_menu, spec_edit_menu, spec_file_menu, spec_help_menu, spec_menu, spec_panels_menu,
    spec_view_menu, spec_window_menu, NodeShape, Platform,
};

verus! {

broadcast use {vstd::seq::axiom_seq_index_decreases, vstd::seq::axiom_seq_subrange_decreases};

/// What routing decides a menu interaction should do.
pub enum MenuEffect {
    /// Fire-and-forget emission to the UI on a named channel.
    Emit { channel: String, payload: Option<String> },
    /// Side effect: open an external URL in the platform's default handler.
    OpenUrl { url: String },
    /// Intentionally nothing.
    NoOp,
}

/// The mathematical shape of a routed effect.
pub enum EffectView {
    Emit { channel: Seq<char>, payload: Option<Seq<char>> },
    OpenUrl { url: Seq<char> },
    NoOp,
}

impl View for MenuEffect {
    type V = EffectView;

    open spec fn view(&self) -> EffectView {
        match self {
            MenuEffect::Emit { channel, payload } => EffectView::Emit {
                channel: channel@,
                payload: match payload {
                    Some(p) => Some(p@),
                    None => None,
                },
            },
            MenuEffect::OpenUrl { url } => EffectView::OpenUrl { url: url@ },
            MenuEffect::NoOp => EffectView::NoOp,
        }
    }
}

/// The dispatch table. Identifiers the table does not name are
/// intentionally no-ops (the host handles them, or nothing is owed).
pub open spec fn spec_route(id: MenuId) -> EffectView {
    match id {
        MenuId::Settings => EffectView::Emit { channel: "menu:settings"@, payload: None },
        MenuId::NewTest => EffectView::Emit { channel: "menu:file"@, payload: Some("new"@) },
        MenuId::Open => EffectView::Emit { channel: "menu:file"@, payload: Some("open"@) },
        MenuId::Save => EffectView::Emit { channel: "menu:file"@, payload: Some("save"@) },
        MenuId::SaveAs => EffectView::Emit { channel: "menu:file"@, payload: Some("save-as"@) },
        MenuId::ExportYaml => EffectView::Emit { channel: "menu:file"@, payload: Some("export"@) },
        MenuId::ImportYaml => EffectView::Emit { channel: "menu:file"@, payload: Some("import"@) },
        MenuId::ToggleLeftPanel => EffectView::Emit {
            channel: "menu:toggle-panel"@,
            payload: Some("left"@),
        },
        MenuId::ToggleRightPanel => EffectView::Emit {
            channel: "menu:toggle-panel"@,
            payload: Some("right"@),
        },
        MenuId::ZoomIn => EffectView::Emit { channel: "menu:zoom"@, payload: Some("in"@) },
        MenuId::ZoomOut => EffectView::Emit { channel: "menu:zoom"@, payload: Some("out"@) },
        MenuId::ResetZoom => EffectView::Emit { channel: "menu:zoom"@, payload: Some("reset"@) },
        MenuId::FitCanvas => EffectView::Emit { channel: "menu:canvas"@, payload: Some("fit"@) },
        MenuId::ToggleMinimap => EffectView::Emit {
            channel: "menu:canvas"@,
            payload: Some("toggle-minimap"@),
        },
        MenuId::Documentation => EffectView::Emit { channel: "menu:help"@, payload: Some("docs"@) },
        MenuId::KeyboardShortcuts => EffectView::Emit {
            channel: "menu:help"@,
            payload: Some("shortcuts"@),
        },
        MenuId::ReportIssue => EffectView::OpenUrl {
            url: "https://github.com/navam/sentinel/issues"@,
        },
        MenuId::CheckUpdates => EffectView::Emit {
            channel: "menu:help"@,
            payload: Some("check-updates"@),
        },
        MenuId::BringAllToFront => EffectView::NoOp,
    }
}

/// What an identifier string dispatches to: unknown strings are no-ops.
pub open spec fn spec_route_str(s: Seq<char>) -> EffectView {
    match spec_parse_id(s) {
        Some(id) => spec_route(id),
        None => EffectView::NoOp,
    }
}

/// Routes one identifier to its effect.
pub fn route_id(id: MenuId) -> (e: MenuEffect)
    ensures
        e@ == spec_route(id),
{
    match id {
        MenuId::Settings => MenuEffect::Emit {
            channel: String::from_str("menu:settings"),
            payload: None,
        },
        MenuId::NewTest => MenuEffect::Emit {
            channel: String::from_str("menu:file"),
            payload: Some(String::from_str("new")),
        },
        MenuId::Open => MenuEffect::Emit {
            channel: String::from_str("menu:file"),
            payload: Some(String::from_str("open")),
        },
        MenuId::Save => MenuEffect::Emit {
            channel: String::from_str("menu:file"),
            payload: Some(String::from_str("save")),
        },
        MenuId::SaveAs => MenuEffect::Emit {
            channel: String::from_str("menu:file"),
            payload: Some(String::from_str("save-as")),
        },
        MenuId::ExportYaml => MenuEffect::Emit {
            channel: String::from_str("menu:file"),
            payload: Some(String::from_str("export")),
        },
        MenuId::ImportYaml => MenuEffect::Emit {
            channel: String::from_str("menu:file"),
            payload: Some(String::from_str("import")),
        },
        MenuId::ToggleLeftPanel => MenuEffect::Emit {
            channel: String::from_str("menu:toggle-panel"),
            payload: Some(String::from_str("left")),
        },
        MenuId::ToggleRightPanel => MenuEffect::Emit {
            channel: String::from_str("menu:toggle-panel"),
            payload: Some(String::from_str("right")),
        },
        MenuId::ZoomIn => MenuEffect::Emit {
            channel: String::from_str("menu:zoom"),
            payload: Some(String::from_str("in")),
        },
        MenuId::ZoomOut => MenuEffect::Emit {
            channel: String::from_str("menu:zoom"),
            payload: Some(String::from_str("out")),
        },
        MenuId::ResetZoom => MenuEffect::Emit {
            channel: String::from_str("menu:zoom"),
            payload: Some(String::from_str("reset")),
        },
        MenuId::FitCanvas => MenuEffect::Emit {
            channel: String::from_str("menu:canvas"),
            payload: Some(String::from_str("fit")),
        },
        MenuId::ToggleMinimap => MenuEffect::Emit {
            channel: String::from_str("menu:canvas"),
            payload: Some(String::from_str("toggle-minimap")),
        },
        MenuId::Documentation => MenuEffect::Emit {
            channel: String::from_str("menu:help"),
            payload: Some(String::from_str("docs")),
        },
        MenuId::KeyboardShortcuts => MenuEffect::Emit {
            channel: String::from_str("menu:help"),
            payload: Some(String::from_str("shortcuts")),
        },
        MenuId::ReportIssue => MenuEffect::OpenUrl {
            url: String::from_str("https://github.com/navam/sentinel/issues"),
        },
        MenuId::CheckUpdates => MenuEffect::Emit {
            channel: String::from_str("menu:help"),
            payload: Some(String::from_str("check-updates")),
        },
        MenuId::BringAllToFront => MenuEffect::NoOp,
    }
}

/// Routes an identifier string as it arrives from the native layer.
pub fn route(id: &str) -> (e: MenuEffect)
    ensures
        e@ == spec_route_str(id@),
{
    match parse_menu_id(id) {
        Some(parsed) => route_id(parsed),
        None => MenuEffect::NoOp,
    }
}

/// The table is total over the known identifiers: routing an identifier
/// does nothing only for the one identifier that is intentionally left to
/// the host.
pub proof fn lemma_route_total(id: MenuId)
    ensures
        (spec_route(id) is NoOp) <==> id == MenuId::BringAllToFront,
{
}

/// Routing through the string form agrees with routing the identifier
/// itself: no identifier's string is shadowed by another entry.
pub proof fn lemma_route_by_string(id: MenuId)
    ensures
        spec_route_str(spec_id_str(id)) == spec_route(id),
{
    lemma_id_str_round_trip(id);
}

/// An identifier routing to nothing is deliberate: the host owns that
/// item's behaviour.
pub open spec fn intentionally_unrouted(id: MenuId) -> bool {
    id == MenuId::BringAllToFront
}

/// Every identifier under this node routes to an effect, or is
/// intentionally a no-op.
pub open spec fn node_routed(n: NodeShape) -> bool
    decreases n,
{
    match n {
        NodeShape::Action { id, label, accelerator, enabled } => (spec_route(id) is NoOp)
            ==> intentionally_unrouted(id),
        NodeShape::Checkable { id, label, accelerator, checked } => (spec_route(id) is NoOp)
            ==> intentionally_unrouted(id),
        NodeShape::Submenu { label, children } => nodes_routed(children),
        _ => true,
    }
}

/// The same over a node list.
pub open spec fn nodes_routed(s: Seq<NodeShape>) -> bool
    decreases s,
{
    s.len() == 0 || (node_routed(s[0]) && nodes_routed(s.drop_first()))
}

/// A list is routed when each of its nodes is.
proof fn lemma_nodes_routed_all(s: Seq<NodeShape>)
    requires
        forall|t: int| 0 <= t < s.len() ==> node_routed(s[t]),
    ensures
        nodes_routed(s),
    decreases s,
{
    if s.len() > 0 {
        lemma_nodes_routed_all(s.drop_first());
    }
}

/// No identifier in the built menu is unrouted: every identifier the menu
/// carries, on either platform and in any checkbox state, has its entry in
/// the dispatch table or is intentionally left to the host.
pub proof fn lemma_menu_routed(platform: Platform, left: bool, right: bool)
    ensures
        nodes_routed(spec_menu(platform, left, right)),
{
    let app = spec_app_menu()->Submenu_children;
    assert forall|t: int| 0 <= t < app.len() implies node_routed(app[t]) by {}
    lemma_nodes_routed_all(app);

    let file = spec_file_menu(platform)->Submenu_children;
    assert forall|t: int| 0 <= t < file.len() implies node_routed(file[t]) by {}
    lemma_nodes_routed_all(file);

    let edit = spec_edit_menu()->Submenu_children;
    assert forall|t: int| 0 <= t < edit.len() implies node_routed(edit[t]) by {}
    lemma_nodes_routed_all(edit);

    let panels = spec_panels_menu(left, right)->Submenu_children;
    assert forall|t: int| 0 <= t < panels.len() implies node_routed(panels[t]) by {}
    lemma_nodes_routed_all(panels);

    let vw = spec_view_menu(left, right)->Submenu_children;
    assert forall|t: int| 0 <= t < vw.len() implies node_routed(vw[t]) by {}
    lemma_nodes_routed_all(vw);

    let win = spec_window_menu()->Submenu_children;
    assert forall|t: int| 0 <= t < win.len() implies node_routed(win[t]) by {}
    lemma_nodes_routed_all(win);

    let help = spec_help_menu(platform)->Submenu_children;
    assert forall|t: int| 0 <= t < help.len() implies node_routed(help[t]) by {}
    lemma_nodes_routed_all(help);

    let top = spec_menu(platform, left, right);
    assert forall|t: int| 0 <= t < top.len() implies node_routed(top[t]) by {}
    lemma_nodes_routed_all(top);
}

} // verus!
