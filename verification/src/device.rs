//! A sound device, as its user sees it.

use vstd::prelude::*;

use crate::client::{ClientRequest, ClientRequestView};
use crate::defaults::{str_view, string_view};
use crate::error::{texts_view, SoundError, SoundErrorView};
use crate::globals::copy_text;
use crate::kind::DeviceKind;
use crate::props::copy_volumes;
use crate::registry::{opt_view, Registry, RegistryView, VolInfo, VolInfoView};
use crate::text::{parse_u32, u32_value};

verus! {

/// How many times a device that is not there is looked up again.
pub const MAX_RETRIES: u32 = 300;

/// How long to wait between two lookups, in milliseconds.
pub const RETRY_DELAY_MS: u64 = 100;

/// The number of channels that are set where the channels of a device are not known.
pub const DEFAULT_CHANNELS: usize = 2;

/// Which device is meant.
#[derive(Debug)]
pub enum DeviceTarget {
    /// The default device.
    Default,
    ById(u32),
    ByName(String),
}

/// The model of a [`DeviceTarget`].
pub enum DeviceTargetView {
    Default,
    ById(u32),
    ByName(Seq<char>),
}

impl View for DeviceTarget {
    type V = DeviceTargetView;

    open spec fn view(&self) -> DeviceTargetView {
        match self {
            DeviceTarget::Default => DeviceTargetView::Default,
            DeviceTarget::ById(id) => DeviceTargetView::ById(*id),
            DeviceTarget::ByName(name) => DeviceTargetView::ByName(name@),
        }
    }
}

impl DeviceTargetView {
    /// The device that a name in the configuration means: the default device without a name, a
    /// device by its identifier if the name is a number, and a device by its name otherwise.
    pub open spec fn named(name: Option<Seq<char>>) -> DeviceTargetView {
        match name {
            None => DeviceTargetView::Default,
            Some(name) => match u32_value(name) {
                Some(id) => DeviceTargetView::ById(id),
                None => DeviceTargetView::ByName(name),
            },
        }
    }
}

impl DeviceTarget {
    /// The device that a name in the configuration means.
    pub fn from_name(name: Option<String>) -> (target: DeviceTarget)
        ensures
            target@ == DeviceTargetView::named(string_view(name)),
    {
        match name {
            None => DeviceTarget::Default,
            Some(name) => match parse_u32(name.as_str()) {
                Some(id) => DeviceTarget::ById(id),
                None => DeviceTarget::ByName(name),
            },
        }
    }
}

/// A sound device, with what was known of it when it was last looked up.
#[derive(Debug)]
pub struct Device {
    target: DeviceTarget,
    device_kind: DeviceKind,
    cached_info: Option<VolInfo>,
}

/// The model of a [`Device`].
#[verifier::ext_equal]
pub struct DeviceView {
    pub target: DeviceTargetView,
    pub kind: DeviceKind,
    pub cached: Option<VolInfoView>,
}

/// The model of optional information on a device.
pub open spec fn info_view(info: Option<VolInfo>) -> Option<VolInfoView> {
    match info {
        Some(info) => Some(info@),
        None => None,
    }
}

impl View for Device {
    type V = DeviceView;

    closed spec fn view(&self) -> DeviceView {
        DeviceView {
            target: self.target@,
            kind: self.device_kind,
            cached: info_view(self.cached_info),
        }
    }
}

/// The value that a `u32` has when it is read as an `i32`.
pub open spec fn as_signed(value: u32) -> int {
    if value <= i32::MAX {
        value as int
    } else {
        value - 0x1_0000_0000
    }
}

/// Whether a volume can be changed by a step without leaving the range of an `i32`.
pub open spec fn step_fits(volume: u32, step: i32) -> bool {
    i32::MIN <= as_signed(volume) + step <= i32::MAX
}

/// The volume that is a step above or below another: at least zero, and at most the limit, where
/// there is one.
pub open spec fn stepped_volume(volume: u32, step: i32, max_vol: Option<u32>) -> int {
    let sum = as_signed(volume) + step;
    let raised = if sum < 0 { 0 } else { sum };
    match max_vol {
        Some(limit) => if limit < raised { limit as int } else { raised },
        None => raised,
    }
}

impl VolInfoView {
    /// The number of channels to set.
    pub open spec fn channels(self) -> nat {
        if self.channel_volumes.len() == 0 {
            DEFAULT_CHANNELS as nat
        } else {
            self.channel_volumes.len()
        }
    }

    /// The device with its mute state reversed.
    pub open spec fn toggled(self) -> VolInfoView {
        VolInfoView { mute: !self.mute, ..self }
    }

    /// The device at another volume, with the same volume on every channel.
    pub open spec fn at_volume(self, volume: u32, linear: u32) -> VolInfoView {
        VolInfoView {
            volume_avg: volume,
            channel_volumes: Seq::new(self.channels(), |i: int| linear),
            ..self
        }
    }
}

impl DeviceView {
    /// Whether a listed device is one that is meant. A device that is meant by its identifier
    /// may be of either kind. The default device is the one with the default name, if that is
    /// known, and otherwise any device of the kind.
    pub open spec fn means(self, registry: RegistryView, id: u32) -> bool {
        match self.target {
            DeviceTargetView::ById(wanted) => id == wanted && registry.devices.contains_key(id),
            DeviceTargetView::ByName(name) => registry.has(id, self.kind, Some(name)),
            DeviceTargetView::Default => registry.has(
                id,
                self.kind,
                registry.defaults.of_kind(self.kind),
            ),
        }
    }

    /// Whether a lookup may have this result: one of the devices that are meant, or none if there
    /// is none.
    pub open spec fn resolves_to(self, registry: RegistryView, info: Option<VolInfoView>) -> bool {
        match info {
            Some(info) => exists|id: u32| #[trigger]
                self.means(registry, id) && info == registry.devices[id],
            None => forall|id: u32| !#[trigger] self.means(registry, id),
        }
    }

    /// Whether an error reports that the device was not found: with the number of retries, and
    /// with the labels of all devices of the kind.
    pub open spec fn not_found(
        self,
        registry: RegistryView,
        retries: u32,
        error: SoundErrorView,
    ) -> bool {
        match error {
            SoundErrorView::DeviceNotFound { retries: reported, available } => {
                &&& reported == retries
                &&& exists|order: Seq<u32>| #[trigger]
                    registry.labelled(self.kind, order, available)
            },
            _ => false,
        }
    }
}

/// What follows a lookup that found nothing, after a number of retries: another lookup, with its
/// number of retries and the delay before it, or none.
pub open spec fn next_lookup(retries: u32) -> Option<(u32, u64)> {
    if retries < MAX_RETRIES {
        Some(((retries + 1) as u32, RETRY_DELAY_MS))
    } else {
        None
    }
}

/// What to do after a lookup.
#[derive(Debug)]
pub enum Lookup {
    /// The device was found.
    Found,
    /// Wait, and look it up again with this number of retries.
    Retry { retries: u32, delay_ms: u64 },
    /// Give up.
    Failed(SoundError),
}

impl Device {
    /// A device of a kind, by the name that the configuration gives it. `failure` is the reason
    /// why the connection to the server could not be set up, if it could not.
    pub fn new(failure: Option<&str>, device_kind: DeviceKind, name: Option<String>) -> (created:
        Result<Device, SoundError>)
        ensures
            match created {
                Ok(device) => failure is None && device@ == (DeviceView {
                    target: DeviceTargetView::named(string_view(name)),
                    kind: device_kind,
                    cached: None,
                }),
                Err(error) => failure is Some && error@ == SoundErrorView::NotAvailable(
                    failure->0@,
                ),
            },
    {
        match failure {
            Some(reason) => Err(SoundError::NotAvailable(reason.to_string())),
            None => Ok(
                Device { target: DeviceTarget::from_name(name), device_kind, cached_info: None },
            ),
        }
    }

    /// Looks the device up. Where several devices are meant, any of them may be the result.
    pub fn resolve_info(&self, registry: &Registry) -> (info: Option<VolInfo>)
        ensures
            self@.resolves_to(registry@, info_view(info)),
    {
        match &self.target {
            DeviceTarget::ById(id) => {
                let info = registry.device(*id);
                assert(self@.means(registry@, *id) == registry@.devices.contains_key(*id));
                info
            },
            DeviceTarget::ByName(name) => {
                let info = registry.find(self.device_kind, Some(name));
                assert(forall|id: u32| #[trigger]
                    registry@.has(id, self@.kind, Some(name@)) ==> self@.means(registry@, id));
                info
            },
            DeviceTarget::Default => {
                let name = registry.default_device(self.device_kind);
                let info = registry.find(self.device_kind, name);
                let ghost wanted = registry@.defaults.of_kind(self@.kind);
                assert(wanted == opt_view(name));
                assert(forall|id: u32| #[trigger]
                    registry@.has(id, self@.kind, wanted) ==> self@.means(registry@, id));
                info
            },
        }
    }

    /// The average volume in percent, which is zero for a device that was not looked up.
    pub fn volume(&self) -> (volume: u32)
        ensures
            volume == (match self@.cached {
                Some(info) => info.volume_avg,
                None => 0,
            }),
    {
        match &self.cached_info {
            Some(info) => info.volume_avg,
            None => 0,
        }
    }

    /// Whether the device is muted. One that was not looked up is not.
    pub fn muted(&self) -> (muted: bool)
        ensures
            muted == (match self@.cached {
                Some(info) => info.mute,
                None => false,
            }),
    {
        match &self.cached_info {
            Some(info) => info.mute,
            None => false,
        }
    }

    /// The name of the device, which is empty for one that was not looked up.
    pub fn output_name(&self) -> (name: String)
        ensures
            name@ == (match self@.cached {
                Some(info) => info.name,
                None => Seq::empty(),
            }),
    {
        match &self.cached_info {
            Some(info) => info.name.clone(),
            None => String::new(),
        }
    }

    /// The description of the device, if it was looked up and has one.
    pub fn output_description(&self) -> (description: Option<String>)
        ensures
            string_view(description) == (match self@.cached {
                Some(info) => info.description,
                None => None,
            }),
    {
        match &self.cached_info {
            Some(info) => copy_text(&info.description),
            None => None,
        }
    }

    /// The active port, which is not known.
    pub fn active_port(&self) -> (port: Option<String>)
        ensures
            port is None,
    {
        None
    }

    /// The form factor, which is not known.
    pub fn form_factor(&self) -> (form: Option<&str>)
        ensures
            form is None,
    {
        None
    }

    /// Looks the device up, after a number of retries, and remembers what is known of it. While
    /// it is not there, it is to be looked up again until the retries are used up.
    pub fn get_info(&mut self, registry: &Registry, retries: u32) -> (lookup: Lookup)
        requires
            retries < u32::MAX,
        ensures
            final(self)@.target == old(self)@.target,
            final(self)@.kind == old(self)@.kind,
            match lookup {
                Lookup::Found => final(self)@.cached is Some && old(self)@.resolves_to(
                    registry@,
                    final(self)@.cached,
                ),
                Lookup::Retry { retries: next, delay_ms } => {
                    &&& old(self)@.resolves_to(registry@, None)
                    &&& next_lookup(retries) == Some((next, delay_ms))
                    &&& final(self)@ == old(self)@
                },
                Lookup::Failed(error) => {
                    &&& old(self)@.resolves_to(registry@, None)
                    &&& next_lookup(retries) is None
                    &&& final(self)@ == old(self)@
                    &&& old(self)@.not_found(registry@, (retries + 1) as u32, error@)
                },
            },
    {
        match self.resolve_info(registry) {
            Some(info) => {
                self.cached_info = Some(info);
                Lookup::Found
            },
            None => {
                let next: u32 = retries + 1;
                if next > MAX_RETRIES {
                    let available = registry.available(self.device_kind);
                    let ghost labels = texts_view(available@);
                    let ghost order = choose|order: Seq<u32>| #[trigger]
                        registry@.labelled(self@.kind, order, labels);
                    let error = SoundError::DeviceNotFound { retries: next, available };
                    assert(registry@.labelled(self@.kind, order, error@->available));
                    assert(self@.not_found(registry@, next, error@));
                    Lookup::Failed(error)
                } else {
                    Lookup::Retry { retries: next, delay_ms: RETRY_DELAY_MS }
                }
            },
        }
    }

    /// The volume in percent that a step leads to: at least zero, and at most the limit, where
    /// there is one.
    pub fn target_volume(&self, step: i32, max_vol: Option<u32>) -> (target: Result<
        u32,
        SoundError,
    >)
        requires
            self@.cached matches Some(info) ==> step_fits(info.volume_avg, step),
        ensures
            match target {
                Ok(volume) => self@.cached matches Some(info) && volume == stepped_volume(
                    info.volume_avg,
                    step,
                    max_vol,
                ),
                Err(error) => self@.cached is None && error@ == SoundErrorView::InfoNotLoaded,
            },
    {
        let info = match &self.cached_info {
            Some(info) => info,
            None => {
                return Err(SoundError::InfoNotLoaded);
            },
        };
        let current: i64 = if info.volume_avg <= i32::MAX as u32 {
            info.volume_avg as i64
        } else {
            info.volume_avg as i64 - 0x1_0000_0000
        };
        let sum: i64 = current + step as i64;
        let raised: u32 = if sum < 0 {
            0
        } else {
            sum as u32
        };
        match max_vol {
            Some(limit) => if limit < raised {
                Ok(limit)
            } else {
                Ok(raised)
            },
            None => Ok(raised),
        }
    }

    /// Changes the volume by a step, at once in what is known of the device, and makes the request
    /// that changes it on the server. `linear` holds the bits of the linear volume that stands for
    /// the volume that the step leads to; every channel is set to it.
    pub fn set_volume(&mut self, step: i32, max_vol: Option<u32>, linear: u32) -> (request: Result<
        ClientRequest,
        SoundError,
    >)
        requires
            old(self)@.cached matches Some(info) ==> step_fits(info.volume_avg, step),
        ensures
            match request {
                Ok(request) => old(self)@.cached matches Some(info) && {
                    let changed = info.at_volume(
                        stepped_volume(info.volume_avg, step, max_vol) as u32,
                        linear,
                    );
                    &&& final(self)@ == (DeviceView { cached: Some(changed), ..old(self)@ })
                    &&& request@ == ClientRequestView::SetVolume {
                        id: info.id,
                        volumes: changed.channel_volumes,
                        mute: None,
                    }
                },
                Err(error) => {
                    &&& old(self)@.cached is None
                    &&& error@ == SoundErrorView::InfoNotLoaded
                    &&& final(self)@ == old(self)@
                },
            },
    {
        let volume: u32 = match self.target_volume(step, max_vol) {
            Ok(volume) => volume,
            Err(error) => {
                return Err(error);
            },
        };
        match self.cached_info.take() {
            Some(mut info) => {
                let count: usize = if info.channel_volumes.len() == 0 {
                    DEFAULT_CHANNELS
                } else {
                    info.channel_volumes.len()
                };
                let volumes: Vec<u32> = vec![linear; count];
                let id: u32 = info.id;
                info.volume_avg = volume;
                info.channel_volumes = copy_volumes(&volumes);
                self.cached_info = Some(info);
                Ok(ClientRequest::SetVolume { id, volumes, mute: None })
            },
            None => Err(SoundError::InfoNotLoaded),
        }
    }

    /// Changes whether the device is muted, at once in what is known of it, and makes the request
    /// that changes it on the server.
    pub fn toggle(&mut self) -> (request: Result<ClientRequest, SoundError>)
        ensures
            match request {
                Ok(request) => old(self)@.cached matches Some(info) && {
                    &&& final(self)@ == (DeviceView {
                        cached: Some(info.toggled()),
                        ..old(self)@
                    })
                    &&& request@ == ClientRequestView::SetMute {
                        id: info.id,
                        mute: info.toggled().mute,
                    }
                },
                Err(error) => {
                    &&& old(self)@.cached is None
                    &&& error@ == SoundErrorView::InfoNotLoaded
                    &&& final(self)@ == old(self)@
                },
            },
    {
        match self.cached_info.take() {
            Some(mut info) => {
                let id: u32 = info.id;
                let muted = !info.mute;
                info.mute = muted;
                self.cached_info = Some(info);
                Ok(ClientRequest::SetMute { id, mute: muted })
            },
            None => Err(SoundError::InfoNotLoaded),
        }
    }
}

} // verus!
