use sound_pipewire::globals::{classify_global, GlobalAction, GlobalProps, NodeInfo, ObjectKind};
use sound_pipewire::kind::DeviceKind;

fn text(value: &str) -> Option<String> {
    Some(value.to_string())
}

fn node_props(media_class: Option<String>) -> GlobalProps {
    GlobalProps {
        media_class,
        node_name: text("alsa_output.pci"),
        node_description: text("Speakers"),
        metadata_name: None,
    }
}

fn bound(action: GlobalAction) -> NodeInfo {
    match action {
        GlobalAction::BindNode(node) => node,
        other => panic!("{other:?}"),
    }
}

#[test]
fn sinks_and_sources_are_bound() {
    let sink = bound(classify_global(41, ObjectKind::Node, Some(&node_props(text("Audio/Sink")))));
    assert_eq!(sink.id, 41);
    assert_eq!(sink.kind, DeviceKind::Sink);
    assert_eq!(sink.name, "alsa_output.pci");
    assert_eq!(sink.description, text("Speakers"));
    let source =
        bound(classify_global(42, ObjectKind::Node, Some(&node_props(text("Audio/Source")))));
    assert_eq!(source.kind, DeviceKind::Source);
}

#[test]
fn a_node_without_a_name_is_named_by_its_identifier() {
    let props = GlobalProps {
        media_class: text("Audio/Sink"),
        node_name: None,
        node_description: None,
        metadata_name: None,
    };
    let node = bound(classify_global(1045, ObjectKind::Node, Some(&props)));
    assert_eq!(node.name, "node_1045");
    assert_eq!(node.description, None);
}

#[test]
fn other_nodes_are_passed_over() {
    for class in [None, text(""), text("audio/sink"), text("Audio/Sink/Virtual"), text("Video/Source")]
    {
        let action = classify_global(1, ObjectKind::Node, Some(&node_props(class)));
        assert!(matches!(action, GlobalAction::Ignore));
    }
    assert!(matches!(classify_global(1, ObjectKind::Node, None), GlobalAction::Ignore));
}

#[test]
fn only_the_default_metadata_is_bound() {
    let named = |name: Option<String>| GlobalProps {
        media_class: text("Audio/Sink"),
        node_name: None,
        node_description: None,
        metadata_name: name,
    };
    let action = classify_global(1, ObjectKind::Metadata, Some(&named(text("default"))));
    assert!(matches!(action, GlobalAction::BindMetadata));
    for name in [None, text("settings"), text("Default")] {
        let action = classify_global(1, ObjectKind::Metadata, Some(&named(name)));
        assert!(matches!(action, GlobalAction::Ignore));
    }
    assert!(matches!(classify_global(1, ObjectKind::Metadata, None), GlobalAction::Ignore));
}

#[test]
fn other_objects_are_passed_over() {
    let props = GlobalProps {
        media_class: text("Audio/Sink"),
        node_name: None,
        node_description: None,
        metadata_name: text("default"),
    };
    assert!(matches!(classify_global(1, ObjectKind::Other, Some(&props)), GlobalAction::Ignore));
}
