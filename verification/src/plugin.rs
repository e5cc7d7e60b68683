//! What the plugin announces to the host editor: its metadata, the file type
//! it opens and the editor it provides, and the errors it reports.

use vstd::prelude::*;
use crate::text::str_equal;

verus! {

/// An error reported to the host editor.
#[derive(Clone, Debug, PartialEq, Eq)]
pub enum PluginError {
    /// Writing the blueprint to `path` failed with `message`.
    FileSaveError { path: String, message: String },
    /// The host asked for an editor that this plugin does not provide.
    EditorNotFound { editor_id: String },
    /// Any other failure.
    Other { message: String },
}

/// The plugin's identity.
pub struct PluginInfo {
    pub id: String,
    pub name: String,
    pub version: String,
    pub author: String,
    pub description: String,
}

/// The editor the plugin provides and the file types it edits.
pub struct EditorInfo {
    pub id: String,
    pub display_name: String,
    pub supported_file_types: Vec<String>,
}

/// The icon shown for a file type.
#[derive(Clone, Copy, Debug, PartialEq, Eq, Structural)]
pub enum FileIconKind {
    Component,
}

/// A file type that is a folder on disk and shows as one file: it holds a
/// main file and the listed sub-folders.
pub struct FolderFileType {
    pub id: String,
    pub extension: String,
    pub display_name: String,
    pub icon: FileIconKind,
    pub main_file: String,
    pub folders: Vec<String>,
}

/// The id of the one editor this plugin provides.
pub open spec fn blueprint_editor_id() -> Seq<char> {
    "blueprint-editor"@
}

/// The id of the blueprint class file type.
pub open spec fn blueprint_class_id() -> Seq<char> {
    "blueprint-class"@
}

/// The plugin's identity as shown to the host.
pub fn metadata() -> (m: PluginInfo)
    ensures
        m.id@ == "com.pulsar.blueprint-editor"@,
        m.name@ == "Blueprint Editor"@,
        m.version@ == "0.1.0"@,
        m.author@ == "Pulsar Team"@,
        m.description@ == "Visual scripting editor for creating blueprint classes"@,
{
    PluginInfo {
        id: String::from_str("com.pulsar.blueprint-editor"),
        name: String::from_str("Blueprint Editor"),
        version: String::from_str("0.1.0"),
        author: String::from_str("Pulsar Team"),
        description: String::from_str("Visual scripting editor for creating blueprint classes"),
    }
}

/// The blueprint class file type: a `.class` folder holding
/// `graph_save.json` and an `events` folder.
pub fn blueprint_class_file_type() -> (f: FolderFileType)
    ensures
        f.id@ == blueprint_class_id(),
        f.extension@ == "class"@,
        f.display_name@ == "Blueprint Class"@,
        f.icon == FileIconKind::Component,
        f.main_file@ == "graph_save.json"@,
        f.folders@.len() == 1,
        f.folders@[0]@ == "events"@,
{
    let mut folders: Vec<String> = Vec::new();
    folders.push(String::from_str("events"));
    FolderFileType {
        id: String::from_str("blueprint-class"),
        extension: String::from_str("class"),
        display_name: String::from_str("Blueprint Class"),
        icon: FileIconKind::Component,
        main_file: String::from_str("graph_save.json"),
        folders,
    }
}

/// The editors the plugin provides: the Blueprint Editor, for blueprint classes.
pub fn editors() -> (es: Vec<EditorInfo>)
    ensures
        es@.len() == 1,
        es@[0].id@ == blueprint_editor_id(),
        es@[0].display_name@ == "Blueprint Editor"@,
        es@[0].supported_file_types@.len() == 1,
        es@[0].supported_file_types@[0]@ == blueprint_class_id(),
{
    let mut types: Vec<String> = Vec::new();
    types.push(String::from_str("blueprint-class"));
    let mut es: Vec<EditorInfo> = Vec::new();
    es.push(
        EditorInfo {
            id: String::from_str("blueprint-editor"),
            display_name: String::from_str("Blueprint Editor"),
            supported_file_types: types,
        },
    );
    es
}

/// Checks a request to open an editor: only the Blueprint Editor exists.
pub fn check_editor_id(editor_id: &str) -> (r: Result<(), PluginError>)
    ensures
        editor_id@ == blueprint_editor_id() ==> r is Ok,
        editor_id@ != blueprint_editor_id() ==> (r matches Err(PluginError::EditorNotFound {
            editor_id: e,
        }) && e@ == editor_id@),
{
    if str_equal(editor_id, "blueprint-editor") {
        Ok(())
    } else {
        Err(PluginError::EditorNotFound { editor_id: String::from_str(editor_id) })
    }
}

} // verus!
