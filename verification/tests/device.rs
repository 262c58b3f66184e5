use sound_pipewire::client::ClientRequest;
use sound_pipewire::device::{Device, DeviceTarget, Lookup};
use sound_pipewire::error::SoundError;
use sound_pipewire::globals::NodeInfo;
use sound_pipewire::kind::DeviceKind;
use sound_pipewire::registry::Registry;

fn node(id: u32, kind: DeviceKind, name: &str) -> NodeInfo {
    NodeInfo { id, kind, name: name.to_string(), description: Some(format!("The {name}")) }
}

fn device(kind: DeviceKind, name: Option<&str>) -> Device {
    Device::new(None, kind, name.map(str::to_string)).unwrap()
}

fn loaded(volumes: Vec<u32>, mute: bool, mean: u32) -> Device {
    let mut registry = Registry::new();
    let speakers = node(3, DeviceKind::Sink, "speakers");
    registry.node_bound(&speakers);
    registry.props_changed(&speakers, volumes, mute, mean);
    let mut device = device(DeviceKind::Sink, Some("3"));
    assert!(matches!(device.get_info(&registry, 0), Lookup::Found));
    device
}

#[test]
fn targets_go_by_name() {
    assert!(matches!(DeviceTarget::from_name(None), DeviceTarget::Default));
    let from = |name: &str| DeviceTarget::from_name(Some(name.to_string()));
    assert!(matches!(from("57"), DeviceTarget::ById(57)));
    assert!(matches!(from("+57"), DeviceTarget::ById(57)));
    assert!(matches!(from("4294967295"), DeviceTarget::ById(u32::MAX)));
    for name in ["", "usb", "57 ", "-57", "4294967296", "node_57"] {
        match from(name) {
            DeviceTarget::ByName(kept) => assert_eq!(kept, name),
            other => panic!("{other:?}"),
        }
    }
}

#[test]
fn a_device_needs_a_connection() {
    match Device::new(Some("no server"), DeviceKind::Sink, None) {
        Err(error) => assert_eq!(error.message(), "PipeWire not available: no server"),
        other => panic!("{other:?}"),
    }
}

#[test]
fn a_device_that_was_not_looked_up_is_blank() {
    let device = device(DeviceKind::Sink, None);
    assert_eq!(device.volume(), 0);
    assert!(!device.muted());
    assert_eq!(device.output_name(), "");
    assert_eq!(device.output_description(), None);
    assert_eq!(device.active_port(), None);
    assert_eq!(device.form_factor(), None);
}

#[test]
fn a_device_shows_what_was_looked_up() {
    let device = loaded(vec![5, 6], true, 40);
    assert_eq!(device.volume(), 40);
    assert!(device.muted());
    assert_eq!(device.output_name(), "speakers");
    assert_eq!(device.output_description(), Some("The speakers".to_string()));
    assert_eq!(device.active_port(), None);
    assert_eq!(device.form_factor(), None);
}

#[test]
fn an_identifier_means_a_device_of_either_kind() {
    let mut registry = Registry::new();
    registry.node_bound(&node(3, DeviceKind::Source, "microphone"));
    let by_id = device(DeviceKind::Sink, Some("3"));
    assert_eq!(by_id.resolve_info(&registry).unwrap().name, "microphone");
    registry.removed(3);
    assert!(by_id.resolve_info(&registry).is_none());
}

#[test]
fn a_name_means_a_device_of_the_kind() {
    let mut registry = Registry::new();
    registry.node_bound(&node(3, DeviceKind::Source, "usb"));
    let by_name = device(DeviceKind::Sink, Some("usb"));
    assert!(by_name.resolve_info(&registry).is_none());
    registry.node_bound(&node(4, DeviceKind::Sink, "usb"));
    assert_eq!(by_name.resolve_info(&registry).unwrap().id, 4);
}

#[test]
fn the_default_device_follows_the_metadata() {
    let mut registry = Registry::new();
    let sink = device(DeviceKind::Sink, None);
    assert!(sink.resolve_info(&registry).is_none());
    registry.node_bound(&node(3, DeviceKind::Source, "usb"));
    assert!(sink.resolve_info(&registry).is_none());
    registry.node_bound(&node(4, DeviceKind::Sink, "speakers"));
    assert_eq!(sink.resolve_info(&registry).unwrap().id, 4);
    registry.property_changed(0, Some("default.audio.sink"), Some("{\"name\":\"usb\"}"));
    assert!(sink.resolve_info(&registry).is_none());
    registry.node_bound(&node(5, DeviceKind::Sink, "usb"));
    assert_eq!(sink.resolve_info(&registry).unwrap().id, 5);
}

#[test]
fn a_lookup_gives_up_after_thirty_seconds() {
    let mut registry = Registry::new();
    registry.node_bound(&node(3, DeviceKind::Sink, "usb"));
    registry.node_bound(&node(4, DeviceKind::Source, "microphone"));
    let mut missing = device(DeviceKind::Sink, Some("speakers"));
    let mut retries = 0;
    let mut waited = 0;
    let error = loop {
        match missing.get_info(&registry, retries) {
            Lookup::Retry { retries: next, delay_ms } => {
                assert_eq!(delay_ms, 100);
                waited += delay_ms;
                retries = next;
            }
            Lookup::Failed(error) => break error,
            Lookup::Found => panic!("found"),
        }
    };
    assert_eq!(waited, 30_000);
    assert_eq!(retries, 300);
    assert_eq!(
        error.message(),
        "PipeWire device not found after 301 retries. Available devices: [\"3:usb\"]"
    );
    assert_eq!(missing.output_name(), "");
}

#[test]
fn a_device_that_turns_up_is_found() {
    let mut registry = Registry::new();
    let mut device = device(DeviceKind::Sink, Some("usb"));
    assert!(matches!(
        device.get_info(&registry, 299),
        Lookup::Retry { retries: 300, delay_ms: 100 }
    ));
    registry.node_bound(&node(3, DeviceKind::Sink, "usb"));
    assert!(matches!(device.get_info(&registry, 300), Lookup::Found));
    assert_eq!(device.output_name(), "usb");
}

#[test]
fn volume_moves_in_steps() {
    let device = loaded(vec![5, 6], false, 40);
    assert_eq!(device.target_volume(5, None).unwrap(), 45);
    assert_eq!(device.target_volume(-5, None).unwrap(), 35);
    assert_eq!(device.target_volume(-41, None).unwrap(), 0);
    assert_eq!(device.target_volume(5, Some(42)).unwrap(), 42);
    assert_eq!(device.target_volume(5, Some(45)).unwrap(), 45);
    assert_eq!(device.target_volume(-5, Some(42)).unwrap(), 35);
    assert_eq!(device.target_volume(0, Some(0)).unwrap(), 0);
    assert_eq!(device.target_volume(i32::MAX - 40, None).unwrap(), i32::MAX as u32);
    assert_eq!(loaded(vec![5], false, u32::MAX).target_volume(3, None).unwrap(), 2);
    assert_eq!(loaded(vec![5], false, u32::MAX).target_volume(0, None).unwrap(), 0);
}

#[test]
fn setting_the_volume_sets_every_channel() {
    let linear = 0.091125f32.to_bits();
    let mut device = loaded(vec![5, 6, 7], false, 40);
    match device.set_volume(5, None, linear) {
        Ok(ClientRequest::SetVolume { id, volumes, mute }) => {
            assert_eq!((id, volumes, mute), (3, vec![linear; 3], None));
        }
        other => panic!("{other:?}"),
    }
    assert_eq!(device.volume(), 45);
    match device.set_volume(-5, Some(100), 1) {
        Ok(ClientRequest::SetVolume { volumes, .. }) => assert_eq!(volumes, vec![1; 3]),
        other => panic!("{other:?}"),
    }
    assert_eq!(device.volume(), 40);
}

#[test]
fn without_known_channels_two_are_set() {
    let mut device = loaded(vec![], false, 40);
    assert_eq!(device.volume(), 0);
    match device.set_volume(10, Some(8), 1) {
        Ok(ClientRequest::SetVolume { volumes, .. }) => assert_eq!(volumes, vec![1, 1]),
        other => panic!("{other:?}"),
    }
    assert_eq!(device.volume(), 8);
}

#[test]
fn toggling_twice_changes_nothing() {
    let mut device = loaded(vec![5], false, 40);
    let before = format!("{device:?}");
    assert!(matches!(device.toggle(), Ok(ClientRequest::SetMute { id: 3, mute: true })));
    assert!(device.muted());
    assert!(matches!(device.toggle(), Ok(ClientRequest::SetMute { id: 3, mute: false })));
    assert_eq!(format!("{device:?}"), before);
}

#[test]
fn a_device_is_looked_up_before_it_is_changed() {
    let mut device = device(DeviceKind::Sink, None);
    assert!(matches!(device.target_volume(1, None), Err(SoundError::InfoNotLoaded)));
    assert!(matches!(device.set_volume(1, None, 0), Err(SoundError::InfoNotLoaded)));
    assert!(matches!(device.toggle(), Err(SoundError::InfoNotLoaded)));
    assert_eq!(device.volume(), 0);
}

#[test]
fn a_found_device_can_be_changed() {
    let mut registry = Registry::new();
    let speakers = node(3, DeviceKind::Sink, "speakers");
    registry.node_bound(&speakers);
    registry.props_changed(&speakers, vec![5], false, 40);
    let mut device = device(DeviceKind::Sink, None);
    assert!(matches!(device.get_info(&registry, 0), Lookup::Found));
    let request = device.toggle().unwrap();
    assert_eq!(registry.change_for_request(&request).unwrap().id, 3);
}
