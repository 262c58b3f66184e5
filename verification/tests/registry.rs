use sound_pipewire::client::ClientRequest;
use sound_pipewire::globals::NodeInfo;
use sound_pipewire::kind::DeviceKind;
use sound_pipewire::props::{PropValue, CHANNEL_VOLUMES_KEY, MUTE_KEY};
use sound_pipewire::registry::{Registry, VolInfo};

fn node(id: u32, kind: DeviceKind, name: &str) -> NodeInfo {
    NodeInfo { id, kind, name: name.to_string(), description: Some(format!("The {name}")) }
}

fn show(info: Option<VolInfo>) -> String {
    format!("{info:?}")
}

#[test]
fn a_bound_node_is_listed_as_silent() {
    let mut registry = Registry::new();
    assert!(registry.device(3).is_none());
    assert!(registry.node_bound(&node(3, DeviceKind::Sink, "speakers")));
    let info = registry.device(3).unwrap();
    assert_eq!(info.id, 3);
    assert_eq!(info.kind, DeviceKind::Sink);
    assert_eq!(info.name, "speakers");
    assert_eq!(info.description, Some("The speakers".to_string()));
    assert_eq!(info.volume_avg, 0);
    assert!(!info.mute);
    assert!(info.channel_volumes.is_empty());
}

#[test]
fn reported_properties_are_kept() {
    let mut registry = Registry::new();
    registry.node_bound(&node(3, DeviceKind::Sink, "speakers"));
    assert!(registry.props_changed(&node(3, DeviceKind::Sink, "renamed"), vec![5, 6], true, 40));
    let info = registry.device(3).unwrap();
    assert_eq!((info.volume_avg, info.mute), (40, true));
    assert_eq!(info.channel_volumes, vec![5, 6]);
    assert_eq!(info.name, "renamed");
    registry.props_changed(&node(3, DeviceKind::Sink, "renamed"), vec![], false, 40);
    let info = registry.device(3).unwrap();
    assert_eq!((info.volume_avg, info.mute), (0, false));
    assert!(info.channel_volumes.is_empty());
}

#[test]
fn binding_again_keeps_what_is_known() {
    let mut registry = Registry::new();
    registry.node_bound(&node(3, DeviceKind::Sink, "speakers"));
    registry.props_changed(&node(3, DeviceKind::Sink, "speakers"), vec![5], true, 40);
    let before = show(registry.device(3));
    assert!(registry.node_bound(&node(3, DeviceKind::Source, "other")));
    assert_eq!(show(registry.device(3)), before);
}

#[test]
fn a_listed_device_keeps_its_kind() {
    let mut registry = Registry::new();
    registry.node_bound(&node(3, DeviceKind::Sink, "speakers"));
    registry.props_changed(&node(3, DeviceKind::Source, "speakers"), vec![5], true, 40);
    assert_eq!(registry.device(3).unwrap().kind, DeviceKind::Sink);
}

#[test]
fn a_report_lists_an_unknown_device() {
    let mut registry = Registry::new();
    registry.props_changed(&node(3, DeviceKind::Source, "microphone"), vec![5], true, 40);
    let info = registry.device(3).unwrap();
    assert_eq!((info.id, info.kind, info.volume_avg), (3, DeviceKind::Source, 40));
    let request = ClientRequest::SetMute { id: 3, mute: true };
    assert!(registry.change_for_request(&request).is_none());
}

#[test]
fn report_and_binding_come_in_any_order() {
    let speakers = node(3, DeviceKind::Sink, "speakers");
    let mut bound_first = Registry::new();
    bound_first.node_bound(&speakers);
    bound_first.props_changed(&speakers, vec![5], true, 40);
    let mut reported_first = Registry::new();
    reported_first.props_changed(&speakers, vec![5], true, 40);
    reported_first.node_bound(&speakers);
    assert_eq!(show(bound_first.device(3)), show(reported_first.device(3)));
}

#[test]
fn a_removed_object_is_forgotten() {
    let mut registry = Registry::new();
    registry.node_bound(&node(3, DeviceKind::Sink, "speakers"));
    registry.node_bound(&node(4, DeviceKind::Sink, "headphones"));
    assert!(registry.removed(3));
    assert!(registry.device(3).is_none());
    assert!(registry.device(4).is_some());
    let request = ClientRequest::SetMute { id: 3, mute: true };
    assert!(registry.change_for_request(&request).is_none());
    assert!(registry.removed(99));
}

#[test]
fn everything_is_forgotten_at_once() {
    let mut registry = Registry::new();
    registry.node_bound(&node(3, DeviceKind::Sink, "speakers"));
    registry.property_changed(0, Some("default.audio.sink"), Some("speakers"));
    registry.clear();
    assert!(registry.device(3).is_none());
    assert_eq!(registry.default_device(DeviceKind::Sink), None);
    let request = ClientRequest::SetMute { id: 3, mute: true };
    assert!(registry.change_for_request(&request).is_none());
}

#[test]
fn metadata_names_the_default_devices() {
    let mut registry = Registry::new();
    let key = Some("default.audio.sink");
    assert!(!registry.property_changed(1, key, Some("speakers")));
    assert!(!registry.property_changed(0, key, None));
    assert_eq!(registry.default_device(DeviceKind::Sink), None);
    assert!(registry.property_changed(0, key, Some("{\"name\":\"speakers\"}")));
    assert_eq!(registry.default_device(DeviceKind::Sink), Some(&"speakers".to_string()));
    assert_eq!(registry.default_device(DeviceKind::Source), None);
    assert!(registry.property_changed(0, Some("clock.rate"), Some("48000")));
    assert!(registry.property_changed(0, None, Some("48000")));
    assert_eq!(registry.default_device(DeviceKind::Sink), Some(&"speakers".to_string()));
    assert!(registry.property_changed(0, Some("default.audio.source"), Some("microphone")));
    assert_eq!(registry.default_device(DeviceKind::Source), Some(&"microphone".to_string()));
}

#[test]
fn devices_are_found_by_kind_and_name() {
    let mut registry = Registry::new();
    registry.node_bound(&node(3, DeviceKind::Sink, "usb"));
    registry.node_bound(&node(4, DeviceKind::Source, "usb"));
    let usb = "usb".to_string();
    let pci = "pci".to_string();
    assert_eq!(registry.find(DeviceKind::Sink, Some(&usb)).unwrap().id, 3);
    assert_eq!(registry.find(DeviceKind::Source, Some(&usb)).unwrap().id, 4);
    assert_eq!(registry.find(DeviceKind::Source, None).unwrap().id, 4);
    assert!(registry.find(DeviceKind::Sink, Some(&pci)).is_none());
}

#[test]
fn available_devices_are_labelled() {
    let mut registry = Registry::new();
    assert!(registry.available(DeviceKind::Sink).is_empty());
    registry.node_bound(&node(30, DeviceKind::Sink, "usb"));
    registry.node_bound(&node(4, DeviceKind::Source, "microphone"));
    registry.node_bound(&node(5, DeviceKind::Sink, "usb"));
    let mut labels = registry.available(DeviceKind::Sink);
    labels.sort();
    assert_eq!(labels, vec!["30:usb".to_string(), "5:usb".to_string()]);
    assert_eq!(registry.device(4).unwrap().label(), "4:microphone");
}

#[test]
fn a_request_changes_a_bound_node() {
    let mut registry = Registry::new();
    registry.node_bound(&node(3, DeviceKind::Sink, "speakers"));
    let request = ClientRequest::SetVolume { id: 3, volumes: vec![8, 8], mute: None };
    let change = registry.change_for_request(&request).unwrap();
    assert_eq!(change.id, 3);
    assert_eq!(change.object.properties.len(), 1);
    assert_eq!(change.object.properties[0].key, CHANNEL_VOLUMES_KEY);
    assert!(matches!(&change.object.properties[0].value, PropValue::Floats(v) if *v == vec![8, 8]));
    let request = ClientRequest::SetMute { id: 3, mute: true };
    let change = registry.change_for_request(&request).unwrap();
    assert_eq!(change.object.properties.len(), 1);
    assert_eq!(change.object.properties[0].key, MUTE_KEY);
    assert!(matches!(change.object.properties[0].value, PropValue::Bool(true)));
    let request = ClientRequest::SetVolume { id: 4, volumes: vec![8], mute: None };
    assert!(registry.change_for_request(&request).is_none());
}

#[test]
fn averages_go_by_channel_volumes() {
    let mean_of = |volumes: &[u32]| volumes.iter().sum::<u32>();
    let mut registry = Registry::new();
    for (id, volumes) in [(3, vec![5, 6]), (4, vec![]), (3, vec![9]), (5, vec![1])] {
        let mean = mean_of(&volumes);
        registry.node_bound(&node(id, DeviceKind::Sink, "usb"));
        registry.props_changed(&node(id, DeviceKind::Sink, "usb"), volumes, false, mean);
    }
    registry.node_bound(&node(6, DeviceKind::Source, "microphone"));
    for id in 3..=6 {
        let info = registry.device(id).unwrap();
        assert_eq!(info.id, id);
        assert_eq!(info.volume_avg, mean_of(&info.channel_volumes));
    }
}
