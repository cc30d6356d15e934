//! The declarative menu model.
//!
//! A menu is an ordered tree of nodes: actions and checkable actions
//! carrying an identifier, separators, submenus, and items delegated
//! wholly to host-standard primitives (clipboard editing, window
//! management, quitting). The tree is assembled once at startup as a pure
//! function of the platform convention; the two panel-visibility
//! checkboxes start checked. The host layer walks the finished tree to
//! install the native menu bar.

use vstd::prelude::*;

use crate::ids::MenuId;

verus! {

broadcast use {
    vstd::seq::axiom_seq_index_decreases,
    vstd::seq::axiom_seq_subrange_decreases,
    vstd::std_specs::vec::axiom_vec_index_decreases,
    vstd::std_specs::vec::axiom_vec_decreases_to_view,
};

/// Which menu-bar convention the platform follows.
#[derive(Clone, Copy, PartialEq, Eq, Structural, Debug)]
pub enum Platform {
    /// A unified menu bar with an application-identity submenu and a
    /// window submenu.
    MacOs,
    /// Everything folded into File and Help.
    Other,
}

/// A menu item delegated entirely to a host-standard primitive. Such
/// items carry no identifier of ours and never reach the router.
#[derive(Clone, Copy, PartialEq, Eq, Structural, Debug)]
pub enum HostItem {
    About,
    Services,
    Hide,
    HideOthers,
    ShowAll,
    Quit,
    Undo,
    Redo,
    Cut,
    Copy,
    Paste,
    SelectAll,
    Minimize,
    Maximize,
    Fullscreen,
}

/// One node of the menu tree.
pub enum MenuNode {
    /// An actionable item: identifier, label, optional accelerator,
    /// enabled flag.
    Action { id: MenuId, label: String, accelerator: Option<String>, enabled: bool },
    /// An actionable item with a checkbox mirror of UI state.
    Checkable { id: MenuId, label: String, accelerator: Option<String>, checked: bool },
    /// A visual separator.
    Separator,
    /// A labelled submenu with an ordered list of children.
    Submenu { label: String, children: Vec<MenuNode> },
    /// A host-standard item, with an optional label override.
    Host { item: HostItem, label: Option<String> },
}

/// The mathematical shape of a menu node.
#[verifier::ext_equal]
pub enum NodeShape {
    Action { id: MenuId, label: Seq<char>, accelerator: Option<Seq<char>>, enabled: bool },
    Checkable { id: MenuId, label: Seq<char>, accelerator: Option<Seq<char>>, checked: bool },
    Separator,
    Submenu { label: Seq<char>, children: Seq<NodeShape> },
    Host { item: HostItem, label: Option<Seq<char>> },
}

/// The character sequence of an optional string.
pub open spec fn opt_view(o: Option<String>) -> Option<Seq<char>> {
    match o {
        Some(s) => Some(s@),
        None => None,
    }
}

/// The shape of a node.
pub open spec fn node_view(n: MenuNode) -> NodeShape
    decreases n,
{
    match n {
        MenuNode::Action { id, label, accelerator, enabled } => NodeShape::Action {
            id,
            label: label@,
            accelerator: opt_view(accelerator),
            enabled,
        },
        MenuNode::Checkable { id, label, accelerator, checked } => NodeShape::Checkable {
            id,
            label: label@,
            accelerator: opt_view(accelerator),
            checked,
        },
        MenuNode::Separator => NodeShape::Separator,
        MenuNode::Submenu { label, children } => NodeShape::Submenu {
            label: label@,
            children: nodes_view(children@),
        },
        MenuNode::Host { item, label } => NodeShape::Host { item, label: opt_view(label) },
    }
}

/// The shapes of a list of nodes.
pub open spec fn nodes_view(s: Seq<MenuNode>) -> Seq<NodeShape>
    decreases s,
{
    if s.len() == 0 {
        Seq::empty()
    } else {
        seq![node_view(s[0])] + nodes_view(s.drop_first())
    }
}

/// A list of nodes and its list of shapes have the same length.
pub proof fn lemma_nodes_view_len(s: Seq<MenuNode>)
    ensures
        nodes_view(s).len() == s.len(),
    decreases s,
{
    if s.len() > 0 {
        lemma_nodes_view_len(s.drop_first());
    }
}

/// The shape list is the shape of each node, in order.
pub proof fn lemma_nodes_view_index(s: Seq<MenuNode>, i: int)
    requires
        0 <= i < s.len(),
    ensures
        nodes_view(s).len() == s.len(),
        nodes_view(s)[i] == node_view(s[i]),
    decreases s,
{
    lemma_nodes_view_len(s);
    if i > 0 {
        lemma_nodes_view_index(s.drop_first(), i - 1);
    }
}

/// The whole menu: the ordered top-level submenus.
pub struct MenuModel {
    pub nodes: Vec<MenuNode>,
}

impl View for MenuModel {
    type V = Seq<NodeShape>;

    open spec fn view(&self) -> Seq<NodeShape> {
        nodes_view(self.nodes@)
    }
}

/// Builds an action node.
fn mk_action(id: MenuId, label: &str, accelerator: &str, enabled: bool) -> (n: MenuNode)
    ensures
        node_view(n) == (NodeShape::Action {
            id,
            label: label@,
            accelerator: Some(accelerator@),
            enabled,
        }),
{
    MenuNode::Action {
        id,
        label: String::from_str(label),
        accelerator: Some(String::from_str(accelerator)),
        enabled,
    }
}

/// Builds an action node without an accelerator.
fn mk_action_plain(id: MenuId, label: &str, enabled: bool) -> (n: MenuNode)
    ensures
        node_view(n) == (NodeShape::Action { id, label: label@, accelerator: None, enabled }),
{
    MenuNode::Action { id, label: String::from_str(label), accelerator: None, enabled }
}

/// Builds a checkable node.
fn mk_checkable(id: MenuId, label: &str, accelerator: &str, checked: bool) -> (n: MenuNode)
    ensures
        node_view(n) == (NodeShape::Checkable {
            id,
            label: label@,
            accelerator: Some(accelerator@),
            checked,
        }),
{
    MenuNode::Checkable {
        id,
        label: String::from_str(label),
        accelerator: Some(String::from_str(accelerator)),
        checked,
    }
}

/// Builds a host-standard item.
fn mk_host(item: HostItem) -> (n: MenuNode)
    ensures
        node_view(n) == (NodeShape::Host { item, label: None }),
{
    MenuNode::Host { item, label: None }
}

/// Builds a host-standard item with a label override.
fn mk_host_labeled(item: HostItem, label: &str) -> (n: MenuNode)
    ensures
        node_view(n) == (NodeShape::Host { item, label: Some(label@) }),
{
    MenuNode::Host { item, label: Some(String::from_str(label)) }
}

/// Builds a submenu node from finished children.
fn mk_submenu(label: &str, children: Vec<MenuNode>) -> (n: MenuNode)
    ensures
        node_view(n) == (NodeShape::Submenu { label: label@, children: nodes_view(children@) }),
{
    MenuNode::Submenu { label: String::from_str(label), children }
}

/// The Edit submenu: host-standard clipboard and undo primitives only.
pub open spec fn spec_edit_menu() -> NodeShape {
    NodeShape::Submenu {
        label: "Edit"@,
        children: seq![
            NodeShape::Host { item: HostItem::Undo, label: None },
            NodeShape::Host { item: HostItem::Redo, label: None },
            NodeShape::Separator,
            NodeShape::Host { item: HostItem::Cut, label: None },
            NodeShape::Host { item: HostItem::Copy, label: None },
            NodeShape::Host { item: HostItem::Paste, label: None },
            NodeShape::Separator,
            NodeShape::Host { item: HostItem::SelectAll, label: None },
        ],
    }
}

/// Builds the Edit submenu.
fn edit_menu() -> (n: MenuNode)
    ensures
        node_view(n) == spec_edit_menu(),
{
    let mut c: Vec<MenuNode> = Vec::new();
    c.push(mk_host(HostItem::Undo));
    c.push(mk_host(HostItem::Redo));
    c.push(MenuNode::Separator);
    c.push(mk_host(HostItem::Cut));
    c.push(mk_host(HostItem::Copy));
    c.push(mk_host(HostItem::Paste));
    c.push(MenuNode::Separator);
    c.push(mk_host(HostItem::SelectAll));
    proof {
        lemma_nodes_view_len(c@);
        assert forall|i: int| 0 <= i < c@.len() implies nodes_view(c@)[i] == node_view(c@[i]) by {
            lemma_nodes_view_index(c@, i);
        }
        assert(nodes_view(c@) =~= spec_edit_menu()->Submenu_children);
    }
    let n = mk_submenu("Edit", c);
    proof {
        assert(node_view(n) =~~= spec_edit_menu());
    }
    n
}

/// The application-identity submenu, present only under the unified
/// menu-bar convention.
pub open spec fn spec_app_menu() -> NodeShape {
    NodeShape::Submenu {
        label: "Sentinel"@,
        children: seq![
            NodeShape::Host { item: HostItem::About, label: None },
            NodeShape::Separator,
            NodeShape::Action {
                id: MenuId::Settings,
                label: "Settings..."@,
                accelerator: Some("CmdOrCtrl+,"@),
                enabled: true,
            },
            NodeShape::Separator,
            NodeShape::Host { item: HostItem::Services, label: None },
            NodeShape::Separator,
            NodeShape::Host { item: HostItem::Hide, label: None },
            NodeShape::Host { item: HostItem::HideOthers, label: None },
            NodeShape::Host { item: HostItem::ShowAll, label: None },
            NodeShape::Separator,
            NodeShape::Host { item: HostItem::Quit, label: None },
        ],
    }
}

/// Builds the application-identity submenu.
fn app_menu() -> (n: MenuNode)
    ensures
        node_view(n) == spec_app_menu(),
{
    let mut c: Vec<MenuNode> = Vec::new();
    c.push(mk_host(HostItem::About));
    c.push(MenuNode::Separator);
    c.push(mk_action(MenuId::Settings, "Settings...", "CmdOrCtrl+,", true));
    c.push(MenuNode::Separator);
    c.push(mk_host(HostItem::Services));
    c.push(MenuNode::Separator);
    c.push(mk_host(HostItem::Hide));
    c.push(mk_host(HostItem::HideOthers));
    c.push(mk_host(HostItem::ShowAll));
    c.push(MenuNode::Separator);
    c.push(mk_host(HostItem::Quit));
    proof {
        lemma_nodes_view_len(c@);
        assert forall|i: int| 0 <= i < c@.len() implies nodes_view(c@)[i] == node_view(c@[i]) by {
            lemma_nodes_view_index(c@, i);
        }
        assert(nodes_view(c@) =~= spec_app_menu()->Submenu_children);
    }
    let n = mk_submenu("Sentinel", c);
    proof {
        assert(node_view(n) =~~= spec_app_menu());
    }
    n
}

/// The File submenu. Under the unified convention settings and quitting
/// live in the application-identity submenu; elsewhere they are folded in
/// here.
pub open spec fn spec_file_menu(platform: Platform) -> NodeShape {
    NodeShape::Submenu {
        label: "File"@,
        children: if platform == Platform::MacOs {
            seq![
                NodeShape::Action {
                    id: MenuId::NewTest,
                    label: "New Test"@,
                    accelerator: Some("CmdOrCtrl+N"@),
                    enabled: true,
                },
                NodeShape::Action {
                    id: MenuId::Open,
                    label: "Open..."@,
                    accelerator: Some("CmdOrCtrl+O"@),
                    enabled: true,
                },
                NodeShape::Separator,
                NodeShape::Action {
                    id: MenuId::Save,
                    label: "Save"@,
                    accelerator: Some("CmdOrCtrl+S"@),
                    enabled: true,
                },
                NodeShape::Action {
                    id: MenuId::SaveAs,
                    label: "Save As..."@,
                    accelerator: Some("CmdOrCtrl+Shift+S"@),
                    enabled: true,
                },
                NodeShape::Separator,
                NodeShape::Action {
                    id: MenuId::ExportYaml,
                    label: "Export to YAML..."@,
                    accelerator: Some("CmdOrCtrl+E"@),
                    enabled: true,
                },
                NodeShape::Action {
                    id: MenuId::ImportYaml,
                    label: "Import from YAML..."@,
                    accelerator: Some("CmdOrCtrl+Shift+I"@),
                    enabled: true,
                },
            ]
        } else {
            seq![
                NodeShape::Action {
                    id: MenuId::NewTest,
                    label: "New Test"@,
                    accelerator: Some("CmdOrCtrl+N"@),
                    enabled: true,
                },
                NodeShape::Action {
                    id: MenuId::Open,
                    label: "Open..."@,
                    accelerator: Some("CmdOrCtrl+O"@),
                    enabled: true,
                },
                NodeShape::Separator,
                NodeShape::Action {
                    id: MenuId::Save,
                    label: "Save"@,
                    accelerator: Some("CmdOrCtrl+S"@),
                    enabled: true,
                },
                NodeShape::Action {
                    id: MenuId::SaveAs,
                    label: "Save As..."@,
                    accelerator: Some("CmdOrCtrl+Shift+S"@),
                    enabled: true,
                },
                NodeShape::Separator,
                NodeShape::Action {
                    id: MenuId::Settings,
                    label: "Settings..."@,
                    accelerator: Some("CmdOrCtrl+,"@),
                    enabled: true,
                },
                NodeShape::Separator,
                NodeShape::Action {
                    id: MenuId::ExportYaml,
                    label: "Export to YAML..."@,
                    accelerator: Some("CmdOrCtrl+E"@),
                    enabled: true,
                },
                NodeShape::Action {
                    id: MenuId::ImportYaml,
                    label: "Import from YAML..."@,
                    accelerator: Some("CmdOrCtrl+Shift+I"@),
                    enabled: true,
                },
                NodeShape::Separator,
                NodeShape::Host { item: HostItem::Quit, label: Some("Exit"@) },
            ]
        },
    }
}

/// Builds the File submenu.
fn file_menu(platform: Platform) -> (n: MenuNode)
    ensures
        node_view(n) == spec_file_menu(platform),
{
    let mut c: Vec<MenuNode> = Vec::new();
    c.push(mk_action(MenuId::NewTest, "New Test", "CmdOrCtrl+N", true));
    c.push(mk_action(MenuId::Open, "Open...", "CmdOrCtrl+O", true));
    c.push(MenuNode::Separator);
    c.push(mk_action(MenuId::Save, "Save", "CmdOrCtrl+S", true));
    c.push(mk_action(MenuId::SaveAs, "Save As...", "CmdOrCtrl+Shift+S", true));
    c.push(MenuNode::Separator);
    if platform == Platform::Other {
        c.push(mk_action(MenuId::Settings, "Settings...", "CmdOrCtrl+,", true));
        c.push(MenuNode::Separator);
    }
    c.push(mk_action(MenuId::ExportYaml, "Export to YAML...", "CmdOrCtrl+E", true));
    c.push(mk_action(MenuId::ImportYaml, "Import from YAML...", "CmdOrCtrl+Shift+I", true));
    if platform == Platform::Other {
        c.push(MenuNode::Separator);
        c.push(mk_host_labeled(HostItem::Quit, "Exit"));
    }
    proof {
        lemma_nodes_view_len(c@);
        assert forall|i: int| 0 <= i < c@.len() implies nodes_view(c@)[i] == node_view(c@[i]) by {
            lemma_nodes_view_index(c@, i);
        }
        assert(nodes_view(c@) =~= spec_file_menu(platform)->Submenu_children);
    }
    let n = mk_submenu("File", c);
    proof {
        assert(node_view(n) =~~= spec_file_menu(platform));
    }
    n
}

/// The Panels submenu: the two checkable mirrors of panel visibility.
pub open spec fn spec_panels_menu(left: bool, right: bool) -> NodeShape {
    NodeShape::Submenu {
        label: "Panels"@,
        children: seq![
            NodeShape::Checkable {
                id: MenuId::ToggleLeftPanel,
                label: "Left Panel"@,
                accelerator: Some("CmdOrCtrl+1"@),
                checked: left,
            },
            NodeShape::Checkable {
                id: MenuId::ToggleRightPanel,
                label: "Right Panel"@,
                accelerator: Some("CmdOrCtrl+2"@),
                checked: right,
            },
        ],
    }
}

/// The View submenu, with the panel checkboxes in the given states.
pub open spec fn spec_view_menu(left: bool, right: bool) -> NodeShape {
    NodeShape::Submenu {
        label: "View"@,
        children: seq![
            spec_panels_menu(left, right),
            NodeShape::Separator,
            NodeShape::Action {
                id: MenuId::ZoomIn,
                label: "Zoom In"@,
                accelerator: Some("CmdOrCtrl+Plus"@),
                enabled: true,
            },
            NodeShape::Action {
                id: MenuId::ZoomOut,
                label: "Zoom Out"@,
                accelerator: Some("CmdOrCtrl+Minus"@),
                enabled: true,
            },
            NodeShape::Action {
                id: MenuId::ResetZoom,
                label: "Reset Zoom"@,
                accelerator: Some("CmdOrCtrl+0"@),
                enabled: true,
            },
            NodeShape::Separator,
            NodeShape::Action {
                id: MenuId::FitCanvas,
                label: "Fit Canvas"@,
                accelerator: Some("CmdOrCtrl+Alt+F"@),
                enabled: true,
            },
            NodeShape::Action {
                id: MenuId::ToggleMinimap,
                label: "Toggle Minimap"@,
                accelerator: Some("CmdOrCtrl+M"@),
                enabled: true,
            },
        ],
    }
}

/// Builds the View submenu; both panel checkboxes start checked.
fn view_menu() -> (n: MenuNode)
    ensures
        node_view(n) == spec_view_menu(true, true),
{
    let mut p: Vec<MenuNode> = Vec::new();
    p.push(mk_checkable(MenuId::ToggleLeftPanel, "Left Panel", "CmdOrCtrl+1", true));
    p.push(mk_checkable(MenuId::ToggleRightPanel, "Right Panel", "CmdOrCtrl+2", true));
    proof {
        lemma_nodes_view_len(p@);
        assert forall|i: int| 0 <= i < p@.len() implies nodes_view(p@)[i] == node_view(p@[i]) by {
            lemma_nodes_view_index(p@, i);
        }
        assert(nodes_view(p@) =~= spec_panels_menu(true, true)->Submenu_children);
    }
    let panels = mk_submenu("Panels", p);
    proof {
        assert(node_view(panels) =~~= spec_panels_menu(true, true));
    }

    let mut c: Vec<MenuNode> = Vec::new();
    c.push(panels);
    c.push(MenuNode::Separator);
    c.push(mk_action(MenuId::ZoomIn, "Zoom In", "CmdOrCtrl+Plus", true));
    c.push(mk_action(MenuId::ZoomOut, "Zoom Out", "CmdOrCtrl+Minus", true));
    c.push(mk_action(MenuId::ResetZoom, "Reset Zoom", "CmdOrCtrl+0", true));
    c.push(MenuNode::Separator);
    c.push(mk_action(MenuId::FitCanvas, "Fit Canvas", "CmdOrCtrl+Alt+F", true));
    c.push(mk_action(MenuId::ToggleMinimap, "Toggle Minimap", "CmdOrCtrl+M", true));
    proof {
        lemma_nodes_view_len(c@);
        assert forall|i: int| 0 <= i < c@.len() implies nodes_view(c@)[i] == node_view(c@[i]) by {
            lemma_nodes_view_index(c@, i);
        }
        assert(nodes_view(c@) =~= spec_view_menu(true, true)->Submenu_children);
    }
    let n = mk_submenu("View", c);
    proof {
        assert(node_view(n) =~~= spec_view_menu(true, true));
    }
    n
}

/// The Window submenu, present only under the unified convention.
pub open spec fn spec_window_menu() -> NodeShape {
    NodeShape::Submenu {
        label: "Window"@,
        children: seq![
            NodeShape::Host { item: HostItem::Minimize, label: None },
            NodeShape::Host { item: HostItem::Maximize, label: Some("Zoom"@) },
            NodeShape::Separator,
            NodeShape::Host { item: HostItem::Fullscreen, label: None },
            NodeShape::Separator,
            NodeShape::Action {
                id: MenuId::BringAllToFront,
                label: "Bring All to Front"@,
                accelerator: None,
                enabled: true,
            },
        ],
    }
}

/// Builds the Window submenu.
fn window_menu() -> (n: MenuNode)
    ensures
        node_view(n) == spec_window_menu(),
{
    let mut c: Vec<MenuNode> = Vec::new();
    c.push(mk_host(HostItem::Minimize));
    c.push(mk_host_labeled(HostItem::Maximize, "Zoom"));
    c.push(MenuNode::Separator);
    c.push(mk_host(HostItem::Fullscreen));
    c.push(MenuNode::Separator);
    c.push(mk_action_plain(MenuId::BringAllToFront, "Bring All to Front", true));
    proof {
        lemma_nodes_view_len(c@);
        assert forall|i: int| 0 <= i < c@.len() implies nodes_view(c@)[i] == node_view(c@[i]) by {
            lemma_nodes_view_index(c@, i);
        }
        assert(nodes_view(c@) =~= spec_window_menu()->Submenu_children);
    }
    let n = mk_submenu("Window", c);
    proof {
        assert(node_view(n) =~~= spec_window_menu());
    }
    n
}

/// The Help submenu. Away from the unified convention the About entry is
/// folded in here.
pub open spec fn spec_help_menu(platform: Platform) -> NodeShape {
    NodeShape::Submenu {
        label: "Help"@,
        children: if platform == Platform::MacOs {
            seq![
                NodeShape::Action {
                    id: MenuId::Documentation,
                    label: "Sentinel Documentation"@,
                    accelerator: Some("F1"@),
                    enabled: true,
                },
                NodeShape::Action {
                    id: MenuId::KeyboardShortcuts,
                    label: "Keyboard Shortcuts"@,
                    accelerator: Some("CmdOrCtrl+/"@),
                    enabled: true,
                },
                NodeShape::Separator,
                NodeShape::Action {
                    id: MenuId::ReportIssue,
                    label: "Report Issue..."@,
                    accelerator: None,
                    enabled: true,
                },
                NodeShape::Action {
                    id: MenuId::CheckUpdates,
                    label: "Check for Updates..."@,
                    accelerator: None,
                    enabled: true,
                },
            ]
        } else {
            seq![
                NodeShape::Action {
                    id: MenuId::Documentation,
                    label: "Sentinel Documentation"@,
                    accelerator: Some("F1"@),
                    enabled: true,
                },
                NodeShape::Action {
                    id: MenuId::KeyboardShortcuts,
                    label: "Keyboard Shortcuts"@,
                    accelerator: Some("CmdOrCtrl+/"@),
                    enabled: true,
                },
                NodeShape::Separator,
                NodeShape::Host { item: HostItem::About, label: None },
                NodeShape::Separator,
                NodeShape::Action {
                    id: MenuId::ReportIssue,
                    label: "Report Issue..."@,
                    accelerator: None,
                    enabled: true,
                },
                NodeShape::Action {
                    id: MenuId::CheckUpdates,
                    label: "Check for Updates..."@,
                    accelerator: None,
                    enabled: true,
                },
            ]
        },
    }
}

/// Builds the Help submenu.
fn help_menu(platform: Platform) -> (n: MenuNode)
    ensures
        node_view(n) == spec_help_menu(platform),
{
    let mut c: Vec<MenuNode> = Vec::new();
    c.push(mk_action(MenuId::Documentation, "Sentinel Documentation", "F1", true));
    c.push(mk_action(MenuId::KeyboardShortcuts, "Keyboard Shortcuts", "CmdOrCtrl+/", true));
    c.push(MenuNode::Separator);
    if platform == Platform::Other {
        c.push(mk_host(HostItem::About));
        c.push(MenuNode::Separator);
    }
    c.push(mk_action_plain(MenuId::ReportIssue, "Report Issue...", true));
    c.push(mk_action_plain(MenuId::CheckUpdates, "Check for Updates...", true));
    proof {
        lemma_nodes_view_len(c@);
        assert forall|i: int| 0 <= i < c@.len() implies nodes_view(c@)[i] == node_view(c@[i]) by {
            lemma_nodes_view_index(c@, i);
        }
        assert(nodes_view(c@) =~= spec_help_menu(platform)->Submenu_children);
    }
    let n = mk_submenu("Help", c);
    proof {
        assert(node_view(n) =~~= spec_help_menu(platform));
    }
    n
}

/// The whole menu bar for a platform, with the panel checkboxes in the
/// given states.
pub open spec fn spec_menu(platform: Platform, left: bool, right: bool) -> Seq<NodeShape> {
    if platform == Platform::MacOs {
        seq![
            spec_app_menu(),
            spec_file_menu(platform),
            spec_edit_menu(),
            spec_view_menu(left, right),
            spec_window_menu(),
            spec_help_menu(platform),
        ]
    } else {
        seq![
            spec_file_menu(platform),
            spec_edit_menu(),
            spec_view_menu(left, right),
            spec_help_menu(platform),
        ]
    }
}

/// Builds the complete menu bar for a platform. Both panel checkboxes
/// start checked; the tree never changes afterwards except through
/// `sync_menu_state`.
pub fn build_menu(platform: Platform) -> (m: MenuModel)
    ensures
        m@ == spec_menu(platform, true, true),
{
    let mut top: Vec<MenuNode> = Vec::new();
    if platform == Platform::MacOs {
        top.push(app_menu());
    }
    top.push(file_menu(platform));
    top.push(edit_menu());
    top.push(view_menu());
    if platform == Platform::MacOs {
        top.push(window_menu());
    }
    top.push(help_menu(platform));
    proof {
        lemma_nodes_view_len(top@);
        assert forall|i: int|
            0 <= i < top@.len() implies nodes_view(top@)[i] == node_view(top@[i]) by {
            lemma_nodes_view_index(top@, i);
        }
        assert(nodes_view(top@) =~= spec_menu(platform, true, true));
    }
    MenuModel { nodes: top }
}

/// One node after a sync: the two panel checkboxes take the supplied
/// truth values, everything else is untouched.
pub open spec fn sync_node(n: NodeShape, left: bool, right: bool) -> NodeShape
    decreases n,
{
    match n {
        NodeShape::Checkable { id, label, accelerator, checked } => NodeShape::Checkable {
            id,
            label,
            accelerator,
            checked: if id == MenuId::ToggleLeftPanel {
                left
            } else if id == MenuId::ToggleRightPanel {
                right
            } else {
                checked
            },
        },
        NodeShape::Submenu { label, children } => NodeShape::Submenu {
            label,
            children: sync_nodes(children, left, right),
        },
        _ => n,
    }
}

/// A node list after a sync.
pub open spec fn sync_nodes(s: Seq<NodeShape>, left: bool, right: bool) -> Seq<NodeShape>
    decreases s,
{
    if s.len() == 0 {
        Seq::empty()
    } else {
        seq![sync_node(s[0], left, right)] + sync_nodes(s.drop_first(), left, right)
    }
}

/// A synced list has the same length, and each node is the sync of the
/// node in its place.
pub proof fn lemma_sync_nodes_index(s: Seq<NodeShape>, left: bool, right: bool, i: int)
    requires
        0 <= i < s.len(),
    ensures
        sync_nodes(s, left, right).len() == s.len(),
        sync_nodes(s, left, right)[i] == sync_node(s[i], left, right),
    decreases s,
{
    lemma_sync_nodes_len(s, left, right);
    if i > 0 {
        lemma_sync_nodes_index(s.drop_first(), left, right, i - 1);
    }
}

/// A sync never changes the length of a node list.
pub proof fn lemma_sync_nodes_len(s: Seq<NodeShape>, left: bool, right: bool)
    ensures
        sync_nodes(s, left, right).len() == s.len(),
    decreases s,
{
    if s.len() > 0 {
        lemma_sync_nodes_len(s.drop_first(), left, right);
    }
}

/// Copies an optional accelerator.
fn clone_opt(o: &Option<String>) -> (r: Option<String>)
    ensures
        r == *o,
{
    match o {
        Some(s) => Some(s.clone()),
        None => None,
    }
}

/// Rebuilds one node with the panel checkboxes set to the supplied truth
/// values.
#[verifier::loop_isolation(false)]
fn sync_one(n: &MenuNode, left: bool, right: bool) -> (m: MenuNode)
    ensures
        node_view(m) == sync_node(node_view(*n), left, right),
    decreases *n,
{
    match n {
        MenuNode::Action { id, label, accelerator, enabled } => MenuNode::Action {
            id: *id,
            label: label.clone(),
            accelerator: clone_opt(accelerator),
            enabled: *enabled,
        },
        MenuNode::Checkable { id, label, accelerator, checked } => MenuNode::Checkable {
            id: *id,
            label: label.clone(),
            accelerator: clone_opt(accelerator),
            checked: if *id == MenuId::ToggleLeftPanel {
                left
            } else if *id == MenuId::ToggleRightPanel {
                right
            } else {
                *checked
            },
        },
        MenuNode::Separator => MenuNode::Separator,
        MenuNode::Submenu { label, children } => {
            let k = children.len();
            let mut out: Vec<MenuNode> = Vec::new();
            for i in 0..k
                invariant
                    k == children@.len(),
                    out@.len() == i,
                    forall|t: int|
                        0 <= t < i ==> node_view(out@[t]) == sync_node(
                            node_view(children@[t]),
                            left,
                            right,
                        ),
            {
                proof {
                    assert(decreases_to!(*children => children@[i as int]));
                }
                out.push(sync_one(&children[i], left, right));
            }
            proof {
                lemma_nodes_view_len(out@);
                lemma_nodes_view_len(children@);
                assert forall|t: int|
                    0 <= t < out@.len() implies nodes_view(out@)[t] == sync_nodes(
                    nodes_view(children@),
                    left,
                    right,
                )[t] by {
                    lemma_nodes_view_index(out@, t);
                    lemma_nodes_view_index(children@, t);
                    lemma_sync_nodes_index(nodes_view(children@), left, right, t);
                }
                lemma_sync_nodes_len(nodes_view(children@), left, right);
                assert(nodes_view(out@) =~= sync_nodes(nodes_view(children@), left, right));
            }
            let m = MenuNode::Submenu { label: label.clone(), children: out };
            proof {
                assert(node_view(m) =~~= sync_node(node_view(*n), left, right));
            }
            m
        },
        MenuNode::Host { item, label } => MenuNode::Host {
            item: *item,
            label: clone_opt(label),
        },
    }
}

/// Sets the two panel checkboxes to match the UI's visibility state.
/// Push-only and never fails: the native tree is a non-authoritative
/// mirror of the UI's truth.
pub fn sync_menu_state(m: &mut MenuModel, left_visible: bool, right_visible: bool)
    ensures
        final(m)@ == sync_nodes(old(m)@, left_visible, right_visible),
{
    let k = m.nodes.len();
    let mut out: Vec<MenuNode> = Vec::new();
    for i in 0..k
        invariant
            k == m.nodes@.len(),
            m.nodes@ == old(m).nodes@,
            out@.len() == i,
            forall|t: int|
                0 <= t < i ==> node_view(out@[t]) == sync_node(
                    node_view(m.nodes@[t]),
                    left_visible,
                    right_visible,
                ),
    {
        out.push(sync_one(&m.nodes[i], left_visible, right_visible));
    }
    proof {
        lemma_nodes_view_len(out@);
        lemma_nodes_view_len(m.nodes@);
        assert forall|t: int|
            0 <= t < out@.len() implies nodes_view(out@)[t] == sync_nodes(
            nodes_view(m.nodes@),
            left_visible,
            right_visible,
        )[t] by {
            lemma_nodes_view_index(out@, t);
            lemma_nodes_view_index(m.nodes@, t);
            lemma_sync_nodes_index(nodes_view(m.nodes@), left_visible, right_visible, t);
        }
        lemma_sync_nodes_len(nodes_view(m.nodes@), left_visible, right_visible);
        assert(nodes_view(out@) =~= sync_nodes(nodes_view(m.nodes@), left_visible, right_visible));
    }
    m.nodes = out;
}

/// The checked state of the first checkable node carrying `id`, in
/// depth-first order; `None` when the tree has no such node.
pub open spec fn find_checked_node(n: NodeShape, id: MenuId) -> Option<bool>
    decreases n,
{
    match n {
        NodeShape::Checkable { id: nid, label, accelerator, checked } => if nid == id {
            Some(checked)
        } else {
            None
        },
        NodeShape::Submenu { label, children } => find_checked_nodes(children, id),
        _ => None,
    }
}

/// The same search over a node list.
pub open spec fn find_checked_nodes(s: Seq<NodeShape>, id: MenuId) -> Option<bool>
    decreases s,
{
    if s.len() == 0 {
        None
    } else {
        match find_checked_node(s[0], id) {
            Some(b) => Some(b),
            None => find_checked_nodes(s.drop_first(), id),
        }
    }
}

/// A prefix in which nothing is found can be skipped.
proof fn lemma_find_skip(s: Seq<NodeShape>, id: MenuId, i: int)
    requires
        0 <= i <= s.len(),
        forall|k: int| 0 <= k < i ==> find_checked_node(s[k], id) is None,
    ensures
        find_checked_nodes(s, id) == find_checked_nodes(s.subrange(i, s.len() as int), id),
    decreases i,
{
    if i == 0 {
        assert(s.subrange(0, s.len() as int) =~= s);
    } else {
        lemma_find_skip(s, id, i - 1);
        let rest = s.subrange(i - 1, s.len() as int);
        assert(rest[0] == s[i - 1]);
        assert(rest.drop_first() =~= s.subrange(i, s.len() as int));
    }
}

/// Finds the checked state of the first checkable node carrying `id`
/// under one node.
#[verifier::loop_isolation(false)]
fn find_in_node(n: &MenuNode, id: MenuId) -> (r: Option<bool>)
    ensures
        r == find_checked_node(node_view(*n), id),
    decreases *n,
{
    match n {
        MenuNode::Checkable { id: nid, label, accelerator, checked } => if *nid == id {
            Some(*checked)
        } else {
            None
        },
        MenuNode::Submenu { label, children } => find_in_nodes(children, id),
        _ => None,
    }
}

/// The same search over a list of nodes.
#[verifier::loop_isolation(false)]
fn find_in_nodes(nodes: &Vec<MenuNode>, id: MenuId) -> (r: Option<bool>)
    ensures
        r == find_checked_nodes(nodes_view(nodes@), id),
    decreases *nodes,
{
    let k = nodes.len();
    let mut i: usize = 0;
    while i < k
        invariant
            i <= k,
            k == nodes@.len(),
            forall|t: int|
                0 <= t < i ==> find_checked_node(node_view(nodes@[t]), id) is None,
        decreases k - i,
    {
        let r = find_in_node(&nodes[i], id);
        proof {
            lemma_nodes_view_len(nodes@);
            assert forall|t: int|
                0 <= t <= i implies find_checked_node(nodes_view(nodes@)[t], id) == find_checked_node(
                node_view(nodes@[t]),
                id,
            ) by {
                lemma_nodes_view_index(nodes@, t);
            }
        }
        if r.is_some() {
            proof {
                let s = nodes_view(nodes@);
                lemma_find_skip(s, id, i as int);
                let rest = s.subrange(i as int, s.len() as int);
                assert(rest[0] == s[i as int]);
            }
            return r;
        }
        i = i + 1;
    }
    proof {
        let s = nodes_view(nodes@);
        lemma_nodes_view_len(nodes@);
        assert forall|t: int|
            0 <= t < s.len() implies find_checked_node(s[t], id) is None by {
            lemma_nodes_view_index(nodes@, t);
        }
        lemma_find_skip(s, id, s.len() as int);
    }
    None
}

impl MenuModel {
    /// Reads the checkbox mirror of the first checkable node carrying
    /// `id`; `None` when the menu has no such node.
    pub fn panel_checked(&self, id: MenuId) -> (r: Option<bool>)
        ensures
            r == find_checked_nodes(self@, id),
    {
        find_in_nodes(&self.nodes, id)
    }
}

/// What a sync leaves in a panel checkbox: wherever a panel's checkable
/// node is found, its checked state afterwards is exactly the supplied
/// truth value for that panel — and syncing never creates or removes
/// checkable nodes.
pub proof fn lemma_sync_find_node(n: NodeShape, left: bool, right: bool, target: MenuId)
    requires
        target == MenuId::ToggleLeftPanel || target == MenuId::ToggleRightPanel,
    ensures
        find_checked_node(sync_node(n, left, right), target) == (match find_checked_node(
            n,
            target,
        ) {
            Some(b) => Some(
                if target == MenuId::ToggleLeftPanel {
                    left
                } else {
                    right
                },
            ),
            None => None,
        }),
    decreases n,
{
    match n {
        NodeShape::Submenu { label, children } => {
            lemma_sync_find_nodes(children, left, right, target);
        },
        _ => {},
    }
}

/// The same, over a node list.
pub proof fn lemma_sync_find_nodes(s: Seq<NodeShape>, left: bool, right: bool, target: MenuId)
    requires
        target == MenuId::ToggleLeftPanel || target == MenuId::ToggleRightPanel,
    ensures
        find_checked_nodes(sync_nodes(s, left, right), target) == (match find_checked_nodes(
            s,
            target,
        ) {
            Some(b) => Some(
                if target == MenuId::ToggleLeftPanel {
                    left
                } else {
                    right
                },
            ),
            None => None,
        }),
    decreases s,
{
    if s.len() > 0 {
        lemma_sync_find_node(s[0], left, right, target);
        lemma_sync_find_nodes(s.drop_first(), left, right, target);
        lemma_sync_nodes_len(s, left, right);
        let synced = sync_nodes(s, left, right);
        assert(synced[0] == sync_node(s[0], left, right));
        assert(synced.drop_first() =~= sync_nodes(s.drop_first(), left, right));
    }
}

/// Syncing is idempotent on a node: repeating a sync with the same
/// arguments changes nothing further.
pub proof fn lemma_sync_node_idempotent(n: NodeShape, left: bool, right: bool)
    ensures
        sync_node(sync_node(n, left, right), left, right) == sync_node(n, left, right),
    decreases n,
{
    match n {
        NodeShape::Submenu { label, children } => {
            lemma_sync_idempotent(children, left, right);
            assert(sync_node(sync_node(n, left, right), left, right) =~~= sync_node(
                n,
                left,
                right,
            ));
        },
        _ => {},
    }
}

/// Syncing a node list is idempotent.
pub proof fn lemma_sync_idempotent(s: Seq<NodeShape>, left: bool, right: bool)
    ensures
        sync_nodes(sync_nodes(s, left, right), left, right) == sync_nodes(s, left, right),
    decreases s,
{
    if s.len() > 0 {
        lemma_sync_node_idempotent(s[0], left, right);
        lemma_sync_idempotent(s.drop_first(), left, right);
        let once = sync_nodes(s, left, right);
        lemma_sync_nodes_len(s, left, right);
        assert(once[0] == sync_node(s[0], left, right));
        assert(once.drop_first() =~= sync_nodes(s.drop_first(), left, right));
        assert(sync_nodes(once, left, right) =~= once);
    }
}

/// The identifiers one node carries, in depth-first order.
pub open spec fn ids_of_node(n: NodeShape) -> Seq<MenuId>
    decreases n,
{
    match n {
        NodeShape::Action { id, label, accelerator, enabled } => seq![id],
        NodeShape::Checkable { id, label, accelerator, checked } => seq![id],
        NodeShape::Submenu { label, children } => ids_of_nodes(children),
        _ => Seq::empty(),
    }
}

/// The identifiers a node list carries, in depth-first order.
pub open spec fn ids_of_nodes(s: Seq<NodeShape>) -> Seq<MenuId>
    decreases s,
{
    if s.len() == 0 {
        Seq::empty()
    } else {
        ids_of_node(s[0]) + ids_of_nodes(s.drop_first())
    }
}

/// The built menu carries exactly these identifiers, in this order — each
/// one once, so an identifier correlates one native interaction with one
/// node.
#[verifier::rlimit(60)]
pub proof fn lemma_menu_ids(platform: Platform, left: bool, right: bool)
    ensures
        ids_of_nodes(spec_menu(platform, left, right)) == (if platform == Platform::MacOs {
            seq![
                MenuId::Settings,
                MenuId::NewTest,
                MenuId::Open,
                MenuId::Save,
                MenuId::SaveAs,
                MenuId::ExportYaml,
                MenuId::ImportYaml,
                MenuId::ToggleLeftPanel,
                MenuId::ToggleRightPanel,
                MenuId::ZoomIn,
                MenuId::ZoomOut,
                MenuId::ResetZoom,
                MenuId::FitCanvas,
                MenuId::ToggleMinimap,
                MenuId::BringAllToFront,
                MenuId::Documentation,
                MenuId::KeyboardShortcuts,
                MenuId::ReportIssue,
                MenuId::CheckUpdates,
            ]
        } else {
            seq![
                MenuId::NewTest,
                MenuId::Open,
                MenuId::Save,
                MenuId::SaveAs,
                MenuId::Settings,
                MenuId::ExportYaml,
                MenuId::ImportYaml,
                MenuId::ToggleLeftPanel,
                MenuId::ToggleRightPanel,
                MenuId::ZoomIn,
                MenuId::ZoomOut,
                MenuId::ResetZoom,
                MenuId::FitCanvas,
                MenuId::ToggleMinimap,
                MenuId::Documentation,
                MenuId::KeyboardShortcuts,
                MenuId::ReportIssue,
                MenuId::CheckUpdates,
            ]
        }),
{
    reveal_with_fuel(ids_of_nodes, 14);
    assert(ids_of_nodes(spec_app_menu()->Submenu_children) =~= seq![MenuId::Settings]);
    assert(ids_of_nodes(spec_file_menu(Platform::MacOs)->Submenu_children) =~= seq![
        MenuId::NewTest,
        MenuId::Open,
        MenuId::Save,
        MenuId::SaveAs,
        MenuId::ExportYaml,
        MenuId::ImportYaml,
    ]);
    assert(ids_of_nodes(spec_file_menu(Platform::Other)->Submenu_children) =~= seq![
        MenuId::NewTest,
        MenuId::Open,
        MenuId::Save,
        MenuId::SaveAs,
        MenuId::Settings,
        MenuId::ExportYaml,
        MenuId::ImportYaml,
    ]);
    assert(ids_of_nodes(spec_edit_menu()->Submenu_children) =~= Seq::<MenuId>::empty());
    assert(ids_of_nodes(spec_panels_menu(left, right)->Submenu_children) =~= seq![
        MenuId::ToggleLeftPanel,
        MenuId::ToggleRightPanel,
    ]);
    assert(ids_of_nodes(spec_view_menu(left, right)->Submenu_children) =~= seq![
        MenuId::ToggleLeftPanel,
        MenuId::ToggleRightPanel,
        MenuId::ZoomIn,
        MenuId::ZoomOut,
        MenuId::ResetZoom,
        MenuId::FitCanvas,
        MenuId::ToggleMinimap,
    ]);
    assert(ids_of_nodes(spec_window_menu()->Submenu_children) =~= seq![MenuId::BringAllToFront]);
    assert(ids_of_nodes(spec_help_menu(platform)->Submenu_children) =~= seq![
        MenuId::Documentation,
        MenuId::KeyboardShortcuts,
        MenuId::ReportIssue,
        MenuId::CheckUpdates,
    ]);
    if platform == Platform::MacOs {
        assert(ids_of_nodes(spec_menu(platform, left, right)) =~= seq![
            MenuId::Settings,
            MenuId::NewTest,
            MenuId::Open,
            MenuId::Save,
            MenuId::SaveAs,
            MenuId::ExportYaml,
            MenuId::ImportYaml,
            MenuId::ToggleLeftPanel,
            MenuId::ToggleRightPanel,
            MenuId::ZoomIn,
            MenuId::ZoomOut,
            MenuId::ResetZoom,
            MenuId::FitCanvas,
            MenuId::ToggleMinimap,
            MenuId::BringAllToFront,
            MenuId::Documentation,
            MenuId::KeyboardShortcuts,
            MenuId::ReportIssue,
            MenuId::CheckUpdates,
        ]);
    } else {
        assert(ids_of_nodes(spec_menu(platform, left, right)) =~= seq![
            MenuId::NewTest,
            MenuId::Open,
            MenuId::Save,
            MenuId::SaveAs,
            MenuId::Settings,
            MenuId::ExportYaml,
            MenuId::ImportYaml,
            MenuId::ToggleLeftPanel,
            MenuId::ToggleRightPanel,
            MenuId::ZoomIn,
            MenuId::ZoomOut,
            MenuId::ResetZoom,
            MenuId::FitCanvas,
            MenuId::ToggleMinimap,
            MenuId::Documentation,
            MenuId::KeyboardShortcuts,
            MenuId::ReportIssue,
            MenuId::CheckUpdates,
        ]);
    }
}

/// Identifiers are unique within the whole menu tree: the sole
/// correlation key between native interaction and routed event is
/// unambiguous.
#[verifier::rlimit(80)]
pub proof fn lemma_menu_ids_unique(platform: Platform, left: bool, right: bool)
    ensures
        ids_of_nodes(spec_menu(platform, left, right)).no_duplicates(),
{
    lemma_menu_ids(platform, left, right);
}

/// Syncing the freshly built menu gives exactly the menu with the panel
/// checkboxes in the supplied states: nothing else in the tree moves.
pub proof fn lemma_built_menu_sync(platform: Platform, left: bool, right: bool)
    ensures
        sync_nodes(spec_menu(platform, true, true), left, right) == spec_menu(
            platform,
            left,
            right,
        ),
{
    let app = spec_app_menu()->Submenu_children;
    assert forall|t: int| 0 <= t < app.len() implies sync_nodes(app, left, right)[t] == app[t] by {
        lemma_sync_nodes_index(app, left, right, t);
    }
    lemma_sync_nodes_len(app, left, right);
    assert(sync_nodes(app, left, right) =~= app);
    assert(sync_node(spec_app_menu(), left, right) =~~= spec_app_menu());

    let file = spec_file_menu(platform)->Submenu_children;
    assert forall|t: int|
        0 <= t < file.len() implies sync_nodes(file, left, right)[t] == file[t] by {
        lemma_sync_nodes_index(file, left, right, t);
    }
    lemma_sync_nodes_len(file, left, right);
    assert(sync_nodes(file, left, right) =~= file);
    assert(sync_node(spec_file_menu(platform), left, right) =~~= spec_file_menu(platform));

    let edit = spec_edit_menu()->Submenu_children;
    assert forall|t: int|
        0 <= t < edit.len() implies sync_nodes(edit, left, right)[t] == edit[t] by {
        lemma_sync_nodes_index(edit, left, right, t);
    }
    lemma_sync_nodes_len(edit, left, right);
    assert(sync_nodes(edit, left, right) =~= edit);
    assert(sync_node(spec_edit_menu(), left, right) =~~= spec_edit_menu());

    let panels = spec_panels_menu(true, true)->Submenu_children;
    let panels_after = spec_panels_menu(left, right)->Submenu_children;
    assert forall|t: int|
        0 <= t < panels.len() implies sync_nodes(panels, left, right)[t] == panels_after[t] by {
        lemma_sync_nodes_index(panels, left, right, t);
    }
    lemma_sync_nodes_len(panels, left, right);
    assert(sync_nodes(panels, left, right) =~= panels_after);
    assert(sync_node(spec_panels_menu(true, true), left, right) =~~= spec_panels_menu(
        left,
        right,
    ));

    let vw = spec_view_menu(true, true)->Submenu_children;
    let vw_after = spec_view_menu(left, right)->Submenu_children;
    assert forall|t: int|
        0 <= t < vw.len() implies sync_nodes(vw, left, right)[t] == vw_after[t] by {
        lemma_sync_nodes_index(vw, left, right, t);
    }
    lemma_sync_nodes_len(vw, left, right);
    assert(sync_nodes(vw, left, right) =~= vw_after);
    assert(sync_node(spec_view_menu(true, true), left, right) =~~= spec_view_menu(left, right));

    let win = spec_window_menu()->Submenu_children;
    assert forall|t: int| 0 <= t < win.len() implies sync_nodes(win, left, right)[t] == win[t] by {
        lemma_sync_nodes_index(win, left, right, t);
    }
    lemma_sync_nodes_len(win, left, right);
    assert(sync_nodes(win, left, right) =~= win);
    assert(sync_node(spec_window_menu(), left, right) =~~= spec_window_menu());

    let help = spec_help_menu(platform)->Submenu_children;
    assert forall|t: int|
        0 <= t < help.len() implies sync_nodes(help, left, right)[t] == help[t] by {
        lemma_sync_nodes_index(help, left, right, t);
    }
    lemma_sync_nodes_len(help, left, right);
    assert(sync_nodes(help, left, right) =~= help);
    assert(sync_node(spec_help_menu(platform), left, right) =~~= spec_help_menu(platform));

    let top = spec_menu(platform, true, true);
    let top_after = spec_menu(platform, left, right);
    assert forall|t: int|
        0 <= t < top.len() implies sync_nodes(top, left, right)[t] == top_after[t] by {
        lemma_sync_nodes_index(top, left, right, t);
    }
    lemma_sync_nodes_len(top, left, right);
    assert(sync_nodes(top, left, right) =~= top_after);
}

} // verus!
