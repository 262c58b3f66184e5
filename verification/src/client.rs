//! Requests to change a device, and what becomes of them.

use vstd::prelude::*;

use crate::error::{SoundError, SoundErrorView};
use crate::props::{build_props, props_object, PodObject, PodObjectView};

verus! {

/// A change to a device. Volumes are the bits of single-precision numbers.
#[allow(inconsistent_fields)]
#[derive(Debug)]
pub enum ClientRequest {
    SetVolume { id: u32, volumes: Vec<u32>, mute: Option<bool> },
    SetMute { id: u32, mute: bool },
}

/// The model of a [`ClientRequest`].
#[allow(inconsistent_fields)]
pub enum ClientRequestView {
    SetVolume { id: u32, volumes: Seq<u32>, mute: Option<bool> },
    SetMute { id: u32, mute: bool },
}

impl View for ClientRequest {
    type V = ClientRequestView;

    open spec fn view(&self) -> ClientRequestView {
        match self {
            ClientRequest::SetVolume { id, volumes, mute } => ClientRequestView::SetVolume {
                id: *id,
                volumes: volumes@,
                mute: *mute,
            },
            ClientRequest::SetMute { id, mute } => ClientRequestView::SetMute {
                id: *id,
                mute: *mute,
            },
        }
    }
}

impl ClientRequestView {
    /// The identifier of the node to change.
    pub open spec fn node(self) -> u32 {
        match self {
            ClientRequestView::SetVolume { id, .. } => id,
            ClientRequestView::SetMute { id, .. } => id,
        }
    }

    /// The properties that the node is given.
    pub open spec fn object(self) -> PodObjectView {
        match self {
            ClientRequestView::SetVolume { volumes, mute, .. } => props_object(volumes, mute),
            ClientRequestView::SetMute { mute, .. } => props_object(Seq::empty(), Some(mute)),
        }
    }
}

impl ClientRequest {
    /// The identifier of the node to change.
    pub fn node(&self) -> (id: u32)
        ensures
            id == self@.node(),
    {
        match self {
            ClientRequest::SetVolume { id, .. } => *id,
            ClientRequest::SetMute { id, .. } => *id,
        }
    }

    /// The properties that the node is given: the volumes and the mute state of a volume change,
    /// the mute state alone of a mute change.
    pub fn object(&self) -> (object: PodObject)
        ensures
            object@ == self@.object(),
    {
        match self {
            ClientRequest::SetVolume { volumes, mute, .. } => build_props(volumes, *mute),
            ClientRequest::SetMute { mute, .. } => {
                let none: Vec<u32> = Vec::new();
                build_props(&none, Some(*mute))
            },
        }
    }
}

/// The connection to the sound server, which runs in a thread of its own.
pub struct Client;

impl Client {
    /// Decides what becomes of a request: it is passed on to the thread, unless the thread could
    /// not be started. `failure` is the reason why it could not.
    pub fn send(failure: Option<&str>, request: ClientRequest) -> (sent: Result<
        ClientRequest,
        SoundError,
    >)
        ensures
            match sent {
                Ok(passed_on) => failure is None && passed_on == request,
                Err(error) => match failure {
                    Some(reason) => error@ == SoundErrorView::ConnectionFailed(reason@),
                    None => false,
                },
            },
    {
        match failure {
            None => Ok(request),
            Some(reason) => Err(SoundError::ConnectionFailed(reason.to_string())),
        }
    }
}

} // verus!
