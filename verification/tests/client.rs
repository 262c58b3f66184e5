use sound_pipewire::client::{Client, ClientRequest};
use sound_pipewire::error::{not_found_text, SoundError};
use sound_pipewire::props::{parse_props, Pod};

#[test]
fn requests_are_passed_on() {
    let request = ClientRequest::SetVolume { id: 9, volumes: vec![1, 2], mute: Some(true) };
    match Client::send(None, request) {
        Ok(ClientRequest::SetVolume { id, volumes, mute }) => {
            assert_eq!((id, volumes, mute), (9, vec![1, 2], Some(true)));
        }
        other => panic!("{other:?}"),
    }
}

#[test]
fn requests_fail_without_a_connection() {
    let failed = Client::send(Some("no thread"), ClientRequest::SetMute { id: 9, mute: true });
    match failed {
        Err(error) => {
            assert!(matches!(error, SoundError::ConnectionFailed(_)));
            assert_eq!(
                error.message(),
                "pipewire connection failed with error: no thread"
            );
        }
        other => panic!("{other:?}"),
    }
}

#[test]
fn requests_read_back_from_a_node() {
    let volume = ClientRequest::SetVolume { id: 9, volumes: vec![1, 2], mute: None };
    assert_eq!(volume.node(), 9);
    assert_eq!(parse_props(&Pod::Object(volume.object())), Some((vec![1, 2], false)));
    let mute = ClientRequest::SetMute { id: 8, mute: true };
    assert_eq!(mute.node(), 8);
    assert_eq!(parse_props(&Pod::Object(mute.object())), Some((vec![], true)));
}

#[test]
fn errors_have_messages() {
    assert_eq!(
        SoundError::NotAvailable("why".to_string()).message(),
        "PipeWire not available: why"
    );
    assert_eq!(SoundError::InfoNotLoaded.message(), "Device info not loaded");
    let available = vec!["3:usb".to_string(), "4:a\"b\n".to_string()];
    assert_eq!(
        SoundError::DeviceNotFound { retries: 301, available }.message(),
        "PipeWire device not found after 301 retries. Available devices: \
         [\"3:usb\", \"4:a\\\"b\\n\"]"
    );
    assert_eq!(
        not_found_text(7, "[]"),
        "PipeWire device not found after 7 retries. Available devices: []"
    );
}
