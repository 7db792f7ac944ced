use truvis_app::debug_image::{
    selected_debug_source, DebugImageOption, DebugImageRegistry, DebugImageSelection, DebugImageSource,
};

#[test]
fn selection_defaults_and_visibility() {
    let mut selection = DebugImageSelection::default();
    assert!(selection.is_visible());
    assert_eq!(selection.selected_id(), None);
    selection.set_selected_id(Some("depth"));
    assert_eq!(selection.selected_id(), Some("depth"));
    selection.set_visible(false);
    assert_eq!(selection.selected_id(), None);
    assert_eq!(selection.selected_option_id(), Some("depth"));
    selection.set_visible(true);
    assert_eq!(selection.selected_id(), Some("depth"));
}

#[test]
fn normalize_keeps_valid_and_replaces_stale_selection() {
    let options = [DebugImageOption::new("color", "Color"), DebugImageOption::new("depth", "Depth")];
    let mut selection = DebugImageSelection::default();
    selection.normalize_options(&options);
    assert_eq!(selection.selected_option_id(), Some("color"));
    selection.set_selected_id(Some("depth"));
    selection.normalize_options(&options);
    assert_eq!(selection.selected_option_id(), Some("depth"));
    let owned = String::from("dep") + "th";
    let leaked: &'static str = Box::leak(owned.into_boxed_str());
    selection.set_selected_id(Some(leaked));
    selection.normalize_options(&options);
    assert_eq!(selection.selected_option_id(), Some("depth"));
    selection.set_selected_id(Some("gone"));
    selection.normalize_options(&options);
    assert_eq!(selection.selected_option_id(), Some("color"));
    selection.normalize_options(&[]);
    assert_eq!(selection.selected_option_id(), None);
    let option = DebugImageOption::new("a", "A");
    assert_eq!(option.id, "a");
    assert_eq!(option.label, "A");
}

#[test]
fn registry_skips_null_and_replaces_duplicates() {
    let mut registry: DebugImageRegistry<u32> = DebugImageRegistry::new();
    assert!(!registry.register("null", "Null", true, 0));
    assert_eq!(registry.len(), 0);
    assert!(registry.register("a", "A", false, 1));
    assert!(registry.register("b", "B", false, 2));
    assert!(registry.register("a", "A2", false, 3));
    assert_eq!(registry.len(), 2);
    assert_eq!(registry.entry(0).id, "b");
    assert_eq!(registry.entry(1).id, "a");
    assert_eq!(registry.entry(1).label, "A2");
    assert_eq!(registry.entry(1).payload, 3);
    assert_eq!(registry.selected_id(), Some("a"));
}

#[test]
fn registry_texture_ids_are_stable() {
    let mut registry: DebugImageRegistry<()> = DebugImageRegistry::new();
    let a = registry.debug_texture_id("a");
    let b = registry.debug_texture_id("b");
    assert_eq!(a, 1);
    assert_eq!(b, 2);
    registry.begin_frame();
    assert_eq!(registry.debug_texture_id("a"), 1);
    assert_eq!(registry.debug_texture_id("c"), 3);
    registry.clear();
    assert_eq!(registry.debug_texture_id("z"), 4);
}

#[test]
fn registry_selection_falls_back_to_first_entry() {
    let mut registry: DebugImageRegistry<u8> = DebugImageRegistry::new();
    assert_eq!(registry.selected_entry(), None);
    registry.register("x", "X", false, 0);
    registry.register("y", "Y", false, 0);
    assert_eq!(registry.selected_entry(), Some(0));
    registry.begin_frame();
    registry.register("y", "Y", false, 0);
    assert_eq!(registry.selected_entry(), Some(0));
    assert_eq!(registry.selected_id(), Some("y"));
}

#[test]
fn debug_source_prefers_imported_images() {
    let mut registry: DebugImageRegistry<u8> = DebugImageRegistry::new();
    assert_eq!(selected_debug_source(&registry, &["main-view-color"]), None);
    registry.register("depth", "Depth", false, 0);
    registry.register("main-view-color", "Main", false, 0);
    assert_eq!(selected_debug_source(&registry, &["main-view-color"]), Some(DebugImageSource::Registry(0)));
    registry.begin_frame();
    registry.register("main-view-color", "Main", false, 0);
    registry.ensure_selected();
    assert_eq!(selected_debug_source(&registry, &["other", "main-view-color"]), Some(DebugImageSource::AlreadyImported(1)));
}

#[test]
fn registry_replacement_keeps_other_records_and_new_payload() {
    let mut registry: DebugImageRegistry<u32> = DebugImageRegistry::new();
    registry.register("a", "A", false, 10);
    registry.register("b", "B", false, 20);
    registry.register("c", "C", false, 30);
    registry.register("b", "B2", false, 21);
    assert_eq!(registry.len(), 3);
    assert_eq!((registry.entry(0).id, registry.entry(0).label, registry.entry(0).payload), ("a", "A", 10));
    assert_eq!((registry.entry(1).id, registry.entry(1).label, registry.entry(1).payload), ("c", "C", 30));
    assert_eq!((registry.entry(2).id, registry.entry(2).label, registry.entry(2).payload), ("b", "B2", 21));
    assert_eq!(registry.debug_texture_id("b"), 2);
}

#[test]
fn registry_selected_entry_keeps_a_valid_user_selection() {
    let mut registry: DebugImageRegistry<u8> = DebugImageRegistry::new();
    registry.register("x", "X", false, 0);
    registry.register("y", "Y", false, 0);
    registry.register("z", "Z", false, 0);
    assert_eq!(registry.selected_id(), Some("x"));
    registry.begin_frame();
    registry.register("z", "Z", false, 0);
    registry.register("y", "Y", false, 0);
    registry.register("x", "X", false, 0);
    assert_eq!(registry.selected_entry(), Some(2));
    assert_eq!(registry.selected_id(), Some("x"));
}

#[test]
fn registry_texture_ids_distinct_and_not_font() {
    let mut registry: DebugImageRegistry<()> = DebugImageRegistry::new();
    let ids = ["a", "b", "c", "a", "d", "b"];
    let mut seen: Vec<(&str, usize)> = Vec::new();
    for id in ids {
        let t = registry.debug_texture_id(id);
        assert_ne!(t, 0);
        for (other, ot) in &seen {
            assert_eq!(*other == id, *ot == t);
        }
        seen.push((id, t));
    }
}

#[test]
fn registry_texture_bindings_follow_entries() {
    let mut registry: DebugImageRegistry<u8> = DebugImageRegistry::new();
    registry.debug_texture_id("b");
    registry.register("a", "A", false, 0);
    registry.register("b", "B", false, 0);
    registry.register("a", "A", false, 0);
    assert_eq!(registry.texture_bindings(), vec![(1, 0), (2, 1)]);
    registry.begin_frame();
    assert!(registry.texture_bindings().is_empty());
}
