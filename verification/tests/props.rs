use sound_pipewire::props::{
    accept_param, build_props, parse_props, volume_avg, Pod, PodObject, PropValue, Property,
    CHANNEL_VOLUMES_KEY, MUTE_KEY, PROPS_OBJECT_TYPE, PROPS_PARAM, VOLUME_KEY,
};

fn object(properties: Vec<Property>) -> Pod {
    Pod::Object(PodObject { type_: PROPS_OBJECT_TYPE, id: PROPS_PARAM, properties })
}

fn bits(volumes: &[f32]) -> Vec<u32> {
    volumes.iter().map(|volume| volume.to_bits()).collect()
}

#[test]
fn channel_volumes_and_mute_are_read() {
    let pod = object(vec![
        Property { key: MUTE_KEY, flags: 0, value: PropValue::Bool(true) },
        Property { key: CHANNEL_VOLUMES_KEY, flags: 0, value: PropValue::Floats(bits(&[0.5, 0.25])) },
        Property { key: 1, flags: 0, value: PropValue::Other },
    ]);
    assert_eq!(parse_props(&pod), Some((bits(&[0.5, 0.25]), true)));
}

#[test]
fn the_last_volume_property_counts() {
    let channels_last = object(vec![
        Property { key: VOLUME_KEY, flags: 0, value: PropValue::Float(1.0f32.to_bits()) },
        Property { key: CHANNEL_VOLUMES_KEY, flags: 0, value: PropValue::Floats(bits(&[0.5, 0.5])) },
    ]);
    assert_eq!(parse_props(&channels_last), Some((bits(&[0.5, 0.5]), false)));
    let single_last = object(vec![
        Property { key: CHANNEL_VOLUMES_KEY, flags: 0, value: PropValue::Floats(bits(&[0.5, 0.5])) },
        Property { key: VOLUME_KEY, flags: 0, value: PropValue::Float(1.0f32.to_bits()) },
    ]);
    assert_eq!(parse_props(&single_last), Some((bits(&[1.0]), false)));
    let mute_twice = object(vec![
        Property { key: MUTE_KEY, flags: 0, value: PropValue::Bool(true) },
        Property { key: MUTE_KEY, flags: 0, value: PropValue::Bool(false) },
    ]);
    assert_eq!(parse_props(&mute_twice), Some((vec![], false)));
}

#[test]
fn values_of_another_type_are_passed_over() {
    let pod = object(vec![
        Property { key: CHANNEL_VOLUMES_KEY, flags: 0, value: PropValue::Floats(bits(&[0.5])) },
        Property { key: CHANNEL_VOLUMES_KEY, flags: 0, value: PropValue::Float(1.0f32.to_bits()) },
        Property { key: VOLUME_KEY, flags: 0, value: PropValue::Floats(bits(&[1.0])) },
        Property { key: VOLUME_KEY, flags: 0, value: PropValue::Other },
        Property { key: MUTE_KEY, flags: 0, value: PropValue::Other },
    ]);
    assert_eq!(parse_props(&pod), Some((bits(&[0.5]), false)));
}

#[test]
fn nothing_is_read_where_nothing_is_set() {
    assert_eq!(parse_props(&Pod::Other), None);
    assert_eq!(parse_props(&object(vec![])), None);
    let pod = object(vec![
        Property { key: 3, flags: 0, value: PropValue::Bool(true) },
        Property { key: MUTE_KEY, flags: 0, value: PropValue::Float(0) },
    ]);
    assert_eq!(parse_props(&pod), None);
}

#[test]
fn only_the_props_parameter_is_read() {
    let pod = object(vec![Property { key: MUTE_KEY, flags: 0, value: PropValue::Bool(true) }]);
    assert_eq!(accept_param(PROPS_PARAM, Some(&pod)), Some((vec![], true)));
    assert_eq!(accept_param(PROPS_PARAM, None), None);
    assert_eq!(accept_param(PROPS_PARAM + 1, Some(&pod)), None);
    assert_eq!(accept_param(PROPS_PARAM, Some(&Pod::Other)), None);
}

#[test]
fn mute_is_built_before_the_volumes() {
    let built = build_props(&bits(&[0.5, 0.25]), Some(true));
    assert_eq!(built.type_, 0x40002);
    assert_eq!(built.id, 2);
    assert_eq!(built.properties.len(), 2);
    assert!(built.properties.iter().all(|property| property.flags == 0));
    assert_eq!(built.properties[0].key, 0x10004);
    assert!(matches!(built.properties[0].value, PropValue::Bool(true)));
    assert_eq!(built.properties[1].key, 0x10008);
    match &built.properties[1].value {
        PropValue::Floats(volumes) => assert_eq!(*volumes, bits(&[0.5, 0.25])),
        other => panic!("{other:?}"),
    }
    assert!(build_props(&vec![], None).properties.is_empty());
}

#[test]
fn built_properties_read_back() {
    let volumes = bits(&[0.1, 0.2, 0.3]);
    for mute in [None, Some(false), Some(true)] {
        let read = parse_props(&Pod::Object(build_props(&volumes, mute)));
        assert_eq!(read, Some((volumes.clone(), mute == Some(true))));
    }
    for mute in [false, true] {
        let read = parse_props(&Pod::Object(build_props(&vec![], Some(mute))));
        assert_eq!(read, Some((vec![], mute)));
    }
    assert_eq!(parse_props(&Pod::Object(build_props(&vec![], None))), None);
}

#[test]
fn without_channels_the_average_is_zero() {
    assert_eq!(volume_avg(&vec![], 40), 0);
    assert_eq!(volume_avg(&bits(&[0.064]), 40), 40);
}

#[test]
fn flags_do_not_matter_when_properties_are_read() {
    let pod = object(vec![
        Property { key: MUTE_KEY, flags: 1, value: PropValue::Bool(true) },
        Property { key: VOLUME_KEY, flags: u32::MAX, value: PropValue::Float(7) },
    ]);
    assert_eq!(parse_props(&pod), Some((vec![7], true)));
}
