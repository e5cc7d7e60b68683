use blueprint_editor::panel::BlueprintEditorPanel;
use blueprint_editor::paths::autosave_path;
use blueprint_editor::plugin::PluginError;

#[test]
fn test_autosave_path_generation() {
    let autosave = autosave_path("/path/to/test.blueprint");
    assert_eq!(autosave.as_str(), "/path/to/test.blueprint.autosave");
}

#[test]
fn autosave_path_of_plain_name_replaces_extension() {
    assert_eq!(autosave_path("graph.json"), "graph.blueprint.autosave");
    assert_eq!(autosave_path("graph"), "graph.blueprint.autosave");
    assert_eq!(autosave_path(".hidden"), ".hidden.blueprint.autosave");
}

#[test]
fn new_panel_is_clean_and_untitled() {
    let p = BlueprintEditorPanel::new();
    assert!(!p.is_dirty());
    assert_eq!(p.get_path_string(), None);
    assert_eq!(p.get_display_name(), "Untitled Blueprint");
    assert_eq!(p.title(), "Blueprint Editor");
    assert_eq!(BlueprintEditorPanel::panel_name(), "Blueprint Editor");
}

#[test]
fn new_with_path_gives_a_fresh_panel() {
    let p = BlueprintEditorPanel::new_with_path("/tmp/a.class".to_string()).unwrap();
    assert_eq!(p.get_path_string(), None);
    assert!(!p.is_dirty());
}

#[test]
fn tab_title_is_shown_when_set() {
    let mut p = BlueprintEditorPanel::new();
    p.tab_title = Some("Player".to_string());
    assert_eq!(p.title(), "Player");
}

#[test]
fn display_name_is_file_stem() {
    let mut p = BlueprintEditorPanel::new();
    p.set_path("/path/to/test.blueprint".to_string());
    assert_eq!(p.get_display_name(), "test");
    assert_eq!(p.get_path_string(), Some("/path/to/test.blueprint".to_string()));
    p.set_path("Character.class".to_string());
    assert_eq!(p.get_display_name(), "Character");
}

#[test]
fn display_name_without_stem_is_untitled() {
    let mut p = BlueprintEditorPanel::new();
    p.set_path("/".to_string());
    assert_eq!(p.get_display_name(), "Untitled");
}

#[test]
fn mark_dirty_notifies_once() {
    let mut p = BlueprintEditorPanel::new();
    assert!(p.mark_dirty());
    assert!(p.is_dirty());
    assert!(!p.mark_dirty());
    assert!(p.is_dirty());
}

#[test]
fn save_without_path_is_an_error() {
    let mut p = BlueprintEditorPanel::new();
    p.mark_dirty();
    let r = p.plugin_save(Ok(()));
    assert_eq!(r, Err(PluginError::Other { message: "No file path set".to_string() }));
    assert!(p.is_dirty());
}

#[test]
fn successful_save_clears_dirty_and_autosave() {
    let mut p = BlueprintEditorPanel::new();
    p.set_path("graph.class".to_string());
    p.mark_dirty();
    assert_eq!(p.autosave_target(), Some("graph.blueprint.autosave".to_string()));
    assert_eq!(p.plugin_save(Ok(())), Ok(()));
    assert!(!p.is_dirty());
    assert_eq!(p.autosave_target(), None);
}

#[test]
fn failed_save_reports_path_and_message() {
    let mut p = BlueprintEditorPanel::new();
    p.set_path("/x/graph.class".to_string());
    p.mark_dirty();
    let r = p.plugin_save(Err("disk full".to_string()));
    assert_eq!(
        r,
        Err(PluginError::FileSaveError {
            path: "/x/graph.class".to_string(),
            message: "disk full".to_string()
        })
    );
    assert!(p.is_dirty());
}

#[test]
fn reload_without_path_is_refused() {
    let mut p = BlueprintEditorPanel::new();
    p.mark_dirty();
    assert_eq!(
        p.plugin_reload(Ok(())),
        Err(PluginError::Other {
            message: "No file path set - cannot reload blueprint".to_string()
        })
    );
    assert!(p.is_dirty());
}

#[test]
fn successful_reload_discards_changes() {
    let mut p = BlueprintEditorPanel::new();
    p.set_path("/x/graph.class".to_string());
    p.mark_dirty();
    assert_eq!(p.plugin_reload(Ok(())), Ok(()));
    assert!(!p.is_dirty());
    assert_eq!(p.autosave_target(), None);
}

#[test]
fn failed_reload_keeps_changes() {
    let mut p = BlueprintEditorPanel::new();
    p.set_path("/x/graph.class".to_string());
    p.mark_dirty();
    assert_eq!(
        p.plugin_reload(Err("Failed to read file: missing".to_string())),
        Err(PluginError::Other {
            message: "Failed to reload blueprint: Failed to read file: missing".to_string()
        })
    );
    assert!(p.is_dirty());
    assert_eq!(p.get_path_string(), Some("/x/graph.class".to_string()));
}

#[test]
fn autosave_stays_in_the_directory() {
    assert_eq!(autosave_path("dir/sub/level.bp"), "dir/sub/level.blueprint.autosave");
    assert_eq!(autosave_path("/a.b/c.d.e"), "/a.b/c.d.blueprint.autosave");
    assert_eq!(autosave_path("/srv/.hidden"), "/srv/.hidden.blueprint.autosave");
    let mut p = BlueprintEditorPanel::new();
    p.set_path("/path/to/test.blueprint".to_string());
    assert_eq!(p.get_display_name(), "test");
    p.mark_dirty();
    assert_eq!(p.autosave_target(), Some("/path/to/test.blueprint.autosave".to_string()));
}

#[test]
fn autosave_needs_changes_and_path() {
    let mut p = BlueprintEditorPanel::new();
    assert_eq!(p.autosave_target(), None);
    p.mark_dirty();
    assert_eq!(p.autosave_target(), None);
    let mut q = BlueprintEditorPanel::new();
    q.set_path("a.class".to_string());
    assert_eq!(q.autosave_target(), None);
}

#[test]
fn autosave_source_requires_path() {
    let p = BlueprintEditorPanel::new();
    assert_eq!(
        p.autosave_source(),
        Err("No file path set - cannot load autosave".to_string())
    );
    let mut q = BlueprintEditorPanel::new();
    q.set_path("/path/to/test.blueprint".to_string());
    assert_eq!(q.autosave_source(), Ok("/path/to/test.blueprint.autosave".to_string()));
}
