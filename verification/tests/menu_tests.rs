use shell_core::menu::{
    command_event, command_id_str, command_label_str, dispatch, menu_entries, parse_command,
    MenuCommand,
};

#[test]
fn dispatch_sphere_emits_set_layout_once() {
    let event = dispatch("set_layout_sphere").expect("a recognized identifier emits an event");
    assert_eq!(event.name, "set-layout");
    assert_eq!(event.payload.as_deref(), Some("sphere"));
}

#[test]
fn dispatch_unknown_identifier_is_silent() {
    assert!(dispatch("nonexistent").is_none());
    assert!(dispatch("").is_none());
    assert!(dispatch("About").is_none());
    assert!(dispatch("set_layout_sphere ").is_none());
}

#[test]
fn dispatch_table_is_exact() {
    let expected: Vec<(&str, &str, Option<&str>)> = vec![
        ("about", "about", None),
        ("set_layout_concept", "set-layout", Some("concept-centric")),
        ("set_layout_sphere", "set-layout", Some("sphere")),
        ("set_layout_grid", "set-layout", Some("grid")),
        ("toggle_xray", "toggle-xray", None),
        ("reset_camera", "reset-camera", None),
        ("toggle_sidebar", "toggle-sidebar", None),
    ];
    for (id, name, payload) in expected {
        let event = dispatch(id).expect("every table identifier emits an event");
        assert_eq!(event.name, name);
        assert_eq!(event.payload.as_deref(), payload);
    }
}

#[test]
fn menu_has_exactly_the_seven_identifiers() {
    let entries = menu_entries();
    let ids: Vec<&str> = entries.iter().map(|e| e.id.as_str()).collect();
    assert_eq!(
        ids,
        vec![
            "about",
            "set_layout_concept",
            "set_layout_sphere",
            "set_layout_grid",
            "toggle_xray",
            "reset_camera",
            "toggle_sidebar",
        ]
    );
    // Every listed identifier is recognized, and only those are.
    for id in &ids {
        assert!(dispatch(id).is_some());
    }
    assert!(dispatch("set_layout").is_none());
    assert!(dispatch("toggle").is_none());
}

#[test]
fn menu_labels_match_commands() {
    let entries = menu_entries();
    let labels: Vec<&str> = entries.iter().map(|e| e.label.as_str()).collect();
    assert_eq!(
        labels,
        vec![
            "About",
            "Concept-Centric Layout",
            "Sphere Layout",
            "Grid Layout",
            "Toggle X-Ray",
            "Reset Camera",
            "Toggle Sidebar",
        ]
    );
}

#[test]
fn identifiers_parse_back_to_their_commands() {
    let entries = menu_entries();
    assert_eq!(entries.len(), 7);
    for entry in entries {
        assert_eq!(parse_command(&entry.id), Some(entry.command));
        assert_eq!(command_id_str(entry.command), entry.id);
        assert_eq!(command_label_str(entry.command), entry.label);
    }
}

#[test]
fn command_events_match_dispatch() {
    let commands = vec![
        MenuCommand::About,
        MenuCommand::SetLayoutConceptCentric,
        MenuCommand::SetLayoutSphere,
        MenuCommand::SetLayoutGrid,
        MenuCommand::ToggleXRay,
        MenuCommand::ResetCamera,
        MenuCommand::ToggleSidebar,
    ];
    for c in commands {
        let direct = command_event(c);
        let routed = dispatch(command_id_str(c)).expect("identifier is recognized");
        assert_eq!(direct.name, routed.name);
        assert_eq!(direct.payload, routed.payload);
    }
}
