//! The dockable panels around the graph canvas, and the short texts they show.

use vstd::prelude::*;
use vstd::string::*;
use crate::text::{decimal, decimal_string};

verus! {

/// The panels of the editor's docking workspace.
#[derive(Clone, Copy, Debug, PartialEq, Eq, Structural)]
pub enum WorkspacePanel {
    Variables,
    Macros,
    Compiler,
    Find,
    Properties,
    Palette,
    GraphCanvas,
}

/// The name under which a panel is docked.
pub open spec fn panel_name_of(p: WorkspacePanel) -> Seq<char> {
    match p {
        WorkspacePanel::Variables => "variables"@,
        WorkspacePanel::Macros => "macros"@,
        WorkspacePanel::Compiler => "compiler"@,
        WorkspacePanel::Find => "find"@,
        WorkspacePanel::Properties => "properties"@,
        WorkspacePanel::Palette => "palette"@,
        WorkspacePanel::GraphCanvas => "graph-canvas"@,
    }
}

/// The title on a panel's tab.
pub open spec fn panel_title_of(p: WorkspacePanel) -> Seq<char> {
    match p {
        WorkspacePanel::Variables => "Variables"@,
        WorkspacePanel::Macros => "Macros"@,
        WorkspacePanel::Compiler => "Compiler"@,
        WorkspacePanel::Find => "Find"@,
        WorkspacePanel::Properties => "Details"@,
        WorkspacePanel::Palette => "Palette"@,
        WorkspacePanel::GraphCanvas => "Event Graph"@,
    }
}

impl WorkspacePanel {
    /// The name under which the panel is docked.
    pub fn panel_name(&self) -> (n: &'static str)
        ensures
            n@ == panel_name_of(*self),
    {
        match self {
            WorkspacePanel::Variables => "variables",
            WorkspacePanel::Macros => "macros",
            WorkspacePanel::Compiler => "compiler",
            WorkspacePanel::Find => "find",
            WorkspacePanel::Properties => "properties",
            WorkspacePanel::Palette => "palette",
            WorkspacePanel::GraphCanvas => "graph-canvas",
        }
    }

    /// The title on the panel's tab.
    pub fn title(&self) -> (t: &'static str)
        ensures
            t@ == panel_title_of(*self),
    {
        match self {
            WorkspacePanel::Variables => "Variables",
            WorkspacePanel::Macros => "Macros",
            WorkspacePanel::Compiler => "Compiler",
            WorkspacePanel::Find => "Find",
            WorkspacePanel::Properties => "Details",
            WorkspacePanel::Palette => "Palette",
            WorkspacePanel::GraphCanvas => "Event Graph",
        }
    }
}

/// No two panels share a docking name, so the workspace can tell them apart.
pub proof fn law_panel_names_distinct(a: WorkspacePanel, b: WorkspacePanel)
    requires
        a != b,
    ensures
        panel_name_of(a) != panel_name_of(b),
{
    reveal_strlit("variables");
    reveal_strlit("macros");
    reveal_strlit("compiler");
    reveal_strlit("find");
    reveal_strlit("properties");
    reveal_strlit("palette");
    reveal_strlit("graph-canvas");
    let x = panel_name_of(a);
    let y = panel_name_of(b);
    if x.len() == y.len() {
        assert(x[0] != y[0] || x[1] != y[1]);
    }
}

/// The selection line of the Details panel.
pub open spec fn selection_summary_of(count: nat) -> Seq<char> {
    if count == 0 {
        "No node selected"@
    } else if count == 1 {
        "1 node selected"@
    } else {
        decimal(count) + " nodes selected"@
    }
}

/// The selection line of the Details panel: how many nodes are selected.
pub fn selection_summary(count: usize) -> (s: String)
    ensures
        s@ == selection_summary_of(count as nat),
{
    if count == 0 {
        String::from_str("No node selected")
    } else if count == 1 {
        String::from_str("1 node selected")
    } else {
        let mut s = decimal_string(count);
        s.append(" nodes selected");
        s
    }
}

/// The count line of the node library: how many categories it lists.
pub fn categories_label(count: usize) -> (s: String)
    ensures
        s@ == decimal(count as nat) + " categories"@,
{
    let mut s = decimal_string(count);
    s.append(" categories");
    s
}

} // verus!
