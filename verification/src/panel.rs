//! The Blueprint Editor panel's own state: its tab title, the file it edits,
//! whether there are unsaved changes, and the canvas gestures under way. The
//! decisions around saving, reloading and autosaving live here; reading and
//! writing files is left to the caller, which hands back the outcome.

use vstd::prelude::*;
use vstd::string::*;
use crate::interaction::CanvasState;
use crate::paths::{autosave_path, path_file_stem, is_slash_path, last_component, stem_of_name, autosave_name};
use crate::plugin::PluginError;

verus! {

/// The panel's state as values.
pub struct PanelModel {
    pub tab_title: Option<Seq<char>>,
    pub path: Option<Seq<char>>,
    pub dirty: bool,
}

/// The state of a fresh panel: no tab title, no file, no changes.
pub open spec fn fresh_panel() -> PanelModel {
    PanelModel { tab_title: None, path: None, dirty: false }
}

/// A save with the given outcome: success clears the unsaved-changes flag.
pub open spec fn after_save(m: PanelModel, write_ok: bool) -> PanelModel {
    if m.path is Some && write_ok {
        PanelModel { dirty: false, ..m }
    } else {
        m
    }
}

/// A reload with the given outcome: success discards the unsaved changes,
/// failure leaves the panel as it was.
pub open spec fn after_reload(m: PanelModel, load_ok: bool) -> PanelModel {
    if m.path is Some && load_ok {
        PanelModel { dirty: false, ..m }
    } else {
        m
    }
}

/// Marking the panel as changed.
pub open spec fn after_mark_dirty(m: PanelModel) -> PanelModel {
    PanelModel { dirty: true, ..m }
}

/// An autosave writes only when there are unsaved changes and a file to save beside.
pub open spec fn autosave_due(m: PanelModel) -> bool {
    m.dirty && m.path is Some
}

/// The main state container of the Blueprint Editor.
pub struct BlueprintEditorPanel {
    /// Title shown on the panel's tab, if one was set.
    pub tab_title: Option<String>,
    /// The gestures under way on the graph canvas.
    pub canvas: CanvasState,
    /// The file being edited, if one is set.
    pub current_class_path: Option<String>,
    /// Whether there are unsaved changes.
    pub is_dirty: bool,
}

impl View for BlueprintEditorPanel {
    type V = PanelModel;

    open spec fn view(&self) -> PanelModel {
        PanelModel {
            tab_title: match self.tab_title {
                Some(t) => Some(t@),
                None => None,
            },
            path: match self.current_class_path {
                Some(p) => Some(p@),
                None => None,
            },
            dirty: self.is_dirty,
        }
    }
}

/// The canvas of a fresh panel: nothing under way.
pub open spec fn idle_canvas(c: CanvasState) -> bool {
    !c.editing_comment && !c.variable_menu_open && !c.dragging_connection && !c.dragging_node
        && !c.dragging_comment && !c.resizing_comment && !c.dragging_variable && !c.selecting
        && !c.panning && !c.right_click_pending
}

impl BlueprintEditorPanel {
    /// A panel with no file, no tab title and no changes.
    pub fn new() -> (p: Self)
        ensures
            p@ == fresh_panel(),
            idle_canvas(p.canvas),
    {
        BlueprintEditorPanel {
            tab_title: None,
            canvas: CanvasState::idle(),
            current_class_path: None,
            is_dirty: false,
        }
    }

    /// A panel opened for a file. The panel does not record the path; the
    /// host sets it with `set_path`.
    pub fn new_with_path(_path: String) -> (r: Result<Self, String>)
        ensures
            r matches Ok(p) && p@ == fresh_panel() && idle_canvas(p.canvas),
    {
        Ok(Self::new())
    }

    /// The name under which the panel is docked.
    pub fn panel_name() -> (n: &'static str)
        ensures
            n@ == "Blueprint Editor"@,
    {
        "Blueprint Editor"
    }

    /// The text of the panel's tab and toolbar: the tab title if set, else "Blueprint Editor".
    pub fn title(&self) -> (t: String)
        ensures
            t@ == match self@.tab_title {
                Some(s) => s,
                None => "Blueprint Editor"@,
            },
    {
        match &self.tab_title {
            Some(t) => t.clone(),
            None => String::from_str("Blueprint Editor"),
        }
    }

    /// Whether there are unsaved changes.
    pub fn is_dirty(&self) -> (d: bool)
        ensures
            d == self@.dirty,
    {
        self.is_dirty
    }

    /// Marks the blueprint as changed; returns whether it was clean before,
    /// that is, whether the view needs refreshing.
    pub fn mark_dirty(&mut self) -> (changed: bool)
        ensures
            final(self)@ == after_mark_dirty(old(self)@),
            changed == !old(self)@.dirty,
            final(self).canvas == old(self).canvas,
            final(self).tab_title == old(self).tab_title,
    {
        if !self.is_dirty {
            self.is_dirty = true;
            true
        } else {
            false
        }
    }

    /// The full path of the file, if one is set.
    pub fn get_path_string(&self) -> (p: Option<String>)
        ensures
            match p {
                Some(s) => self@.path == Some(s@),
                None => self@.path is None,
            },
    {
        match &self.current_class_path {
            Some(p) => Some(p.clone()),
            None => None,
        }
    }

    /// Sets the file the panel edits.
    pub fn set_path(&mut self, path: String)
        ensures
            final(self)@ == (PanelModel { path: Some(path@), ..old(self)@ }),
            final(self).canvas == old(self).canvas,
            final(self).tab_title == old(self).tab_title,
    {
        self.current_class_path = Some(path);
    }

    /// The name to show for the blueprint: the file's stem, "Untitled" when
    /// the path has none, or "Untitled Blueprint" when no file is set.
    pub fn get_display_name(&self) -> (n: String)
        ensures
            self@.path is None ==> n@ == "Untitled Blueprint"@,
            self@.path matches Some(p) ==> (is_slash_path(p) ==> n@ == stem_of_name(last_component(p))),
    {
        match &self.current_class_path {
            Some(p) => match path_file_stem(p.as_str()) {
                Some(stem) => stem,
                None => String::from_str("Untitled"),
            },
            None => String::from_str("Untitled Blueprint"),
        }
    }

    /// Completes a save requested by the host. `write_outcome` is the result of
    /// writing the blueprint to the panel's file; it is not looked at when no
    /// file is set. A successful write clears the unsaved-changes flag; a
    /// failed one is reported with the path and the message.
    pub fn plugin_save(&mut self, write_outcome: Result<(), String>) -> (r: Result<(), PluginError>)
        ensures
            final(self)@ == after_save(old(self)@, write_outcome is Ok),
            final(self).canvas == old(self).canvas,
            final(self).tab_title == old(self).tab_title,
            old(self)@.path is None ==> (r matches Err(PluginError::Other { message })
                && message@ == "No file path set"@),
            old(self)@.path is Some && write_outcome is Ok ==> r is Ok,
            old(self)@.path matches Some(p) ==> (write_outcome matches Err(m) ==> (r matches Err(
                PluginError::FileSaveError { path, message },
            ) && path@ == p && message@ == m@)),
    {
        match &self.current_class_path {
            None => Err(PluginError::Other { message: String::from_str("No file path set") }),
            Some(p) => match write_outcome {
                Ok(()) => {
                    self.is_dirty = false;
                    Ok(())
                },
                Err(m) => Err(PluginError::FileSaveError { path: p.clone(), message: m }),
            },
        }
    }

    /// Completes a reload requested by the host. `load_outcome` is the result
    /// of reading the panel's file back into the editor; it is not looked at
    /// when no file is set. A successful load discards the unsaved changes; a
    /// failed one leaves the panel as it was and is reported with the message.
    pub fn plugin_reload(&mut self, load_outcome: Result<(), String>) -> (r: Result<(), PluginError>)
        ensures
            final(self)@ == after_reload(old(self)@, load_outcome is Ok),
            final(self).canvas == old(self).canvas,
            final(self).tab_title == old(self).tab_title,
            old(self)@.path is None ==> (r matches Err(PluginError::Other { message })
                && message@ == "No file path set - cannot reload blueprint"@),
            old(self)@.path is Some && load_outcome is Ok ==> r is Ok,
            old(self)@.path is Some ==> (load_outcome matches Err(m) ==> (r matches Err(
                PluginError::Other { message },
            ) && message@ == "Failed to reload blueprint: "@ + m@)),
    {
        if self.current_class_path.is_none() {
            return Err(
                PluginError::Other {
                    message: String::from_str("No file path set - cannot reload blueprint"),
                },
            );
        }
        match load_outcome {
            Ok(()) => {
                self.is_dirty = false;
                Ok(())
            },
            Err(m) => {
                let mut message = String::from_str("Failed to reload blueprint: ");
                message.append(m.as_str());
                Err(PluginError::Other { message })
            },
        }
    }

    /// Where an autosave should write now: beside the file, when there are
    /// unsaved changes; `None` when there is nothing to save or no file.
    pub fn autosave_target(&self) -> (t: Option<String>)
        ensures
            t is Some <==> autosave_due(self@),
            t matches Some(s) ==> (is_slash_path(self@.path->0) ==> s@ == autosave_name(
                self@.path->0,
            )),
    {
        if !self.is_dirty {
            return None;
        }
        match &self.current_class_path {
            Some(p) => Some(autosave_path(p.as_str())),
            None => None,
        }
    }

    /// The autosave copy that belongs to the panel's file, whether or not one
    /// exists on disk; an error when no file is set.
    pub fn autosave_source(&self) -> (r: Result<String, String>)
        ensures
            self@.path is None ==> (r matches Err(m) && m@
                == "No file path set - cannot load autosave"@),
            self@.path is Some ==> r is Ok,
            r matches Ok(s) ==> (is_slash_path(self@.path->0) ==> s@ == autosave_name(
                self@.path->0,
            )),
    {
        match &self.current_class_path {
            Some(p) => Ok(autosave_path(p.as_str())),
            None => Err(String::from_str("No file path set - cannot load autosave")),
        }
    }
}

/// After a successful save there is nothing left for autosave to write, and
/// marking the blueprint changed again makes an autosave due.
pub proof fn law_saved_panel_needs_no_autosave(m: PanelModel)
    requires
        m.path is Some,
    ensures
        !autosave_due(after_save(m, true)),
        autosave_due(after_mark_dirty(after_save(m, true))),
        after_save(m, false) == m,
{
}

/// Marking changes twice is the same as once: only the first mark refreshes the view.
pub proof fn law_mark_dirty_idempotent(m: PanelModel)
    ensures
        after_mark_dirty(after_mark_dirty(m)) == after_mark_dirty(m),
        after_mark_dirty(m).dirty,
{
}

} // verus!
