//! What is known of the devices of the server.

use std::collections::{HashMap, HashSet};
use vstd::prelude::*;

use crate::client::{ClientRequest, ClientRequestView};
use crate::defaults::{
    default_name, name_json, parse_default_name, str_view, string_view, Defaults, DefaultsView,
};
use crate::globals::{copy_text, NodeInfo, NodeInfoView};
use crate::error::texts_view;
use crate::kind::DeviceKind;
use crate::props::{copy_volumes, volume_avg, PodObject, PodObjectView};
use crate::text::{decimal_text, u32_text};

verus! {

broadcast use vstd::std_specs::hash::group_hash_axioms;

/// What is known of a device.
#[derive(Debug)]
pub struct VolInfo {
    pub id: u32,
    pub kind: DeviceKind,
    pub name: String,
    pub description: Option<String>,
    /// The average volume in percent.
    pub volume_avg: u32,
    pub mute: bool,
    /// The volume of each channel, as the bits of a single-precision number.
    pub channel_volumes: Vec<u32>,
}

/// The model of a [`VolInfo`].
#[verifier::ext_equal]
pub struct VolInfoView {
    pub id: u32,
    pub kind: DeviceKind,
    pub name: Seq<char>,
    pub description: Option<Seq<char>>,
    pub volume_avg: u32,
    pub mute: bool,
    pub channel_volumes: Seq<u32>,
}

impl VolInfoView {
    /// The device in a list of devices: its identifier and its name.
    pub open spec fn label(self) -> Seq<char> {
        decimal_text(self.id as nat) + ":"@ + self.name
    }
}

impl View for VolInfo {
    type V = VolInfoView;

    open spec fn view(&self) -> VolInfoView {
        VolInfoView {
            id: self.id,
            kind: self.kind,
            name: self.name@,
            description: string_view(self.description),
            volume_avg: self.volume_avg,
            mute: self.mute,
            channel_volumes: self.channel_volumes@,
        }
    }
}

impl Clone for VolInfo {
    fn clone(&self) -> (copy: VolInfo)
        ensures
            copy@ == self@,
    {
        VolInfo {
            id: self.id,
            kind: self.kind,
            name: self.name.clone(),
            description: copy_text(&self.description),
            volume_avg: self.volume_avg,
            mute: self.mute,
            channel_volumes: copy_volumes(&self.channel_volumes),
        }
    }
}

impl VolInfo {
    /// The device in a list of devices: its identifier and its name.
    pub fn label(&self) -> (label: String)
        ensures
            label@ == self@.label(),
    {
        let mut label = u32_text(self.id);
        label.append(":");
        label.append(self.name.as_str());
        label
    }
}

/// The devices of the server, the nodes that are bound, and the names of the default devices.
#[derive(Debug)]
pub struct Registry {
    devices: HashMap<u32, VolInfo>,
    nodes: HashSet<u32>,
    defaults: Defaults,
}

/// The model of a [`Registry`].
#[verifier::ext_equal]
pub struct RegistryView {
    pub devices: Map<u32, VolInfoView>,
    pub nodes: Set<u32>,
    pub defaults: DefaultsView,
}

impl View for Registry {
    type V = RegistryView;

    closed spec fn view(&self) -> RegistryView {
        RegistryView {
            devices: self.devices@.map_values(|info: VolInfo| info@),
            nodes: self.nodes@,
            defaults: self.defaults@,
        }
    }
}

/// Something that the server reports.
pub enum Event {
    /// A node was bound.
    Bound(NodeInfoView),
    /// A bound node reported its volumes and its mute state, with the percentage that the mean of
    /// the volumes stands for.
    Props { node: NodeInfoView, volumes: Seq<u32>, mute: bool, mean: u32 },
    /// A key of the metadata changed, for a subject.
    Property { subject: u32, key: Option<Seq<char>>, value: Option<Seq<char>> },
    /// An object went away.
    Removed(u32),
}

impl Event {
    /// Whether those who wait for changes are told of the event.
    pub open spec fn notifies(self) -> bool {
        match self {
            Event::Property { subject, value, .. } => subject == 0 && value is Some,
            _ => true,
        }
    }

    /// Whether the event makes a device known.
    pub open spec fn introduces(self, id: u32) -> bool {
        match self {
            Event::Bound(node) => node.id == id,
            Event::Props { node, .. } => node.id == id,
            _ => false,
        }
    }
}

impl RegistryView {
    /// Nothing is known.
    pub open spec fn empty() -> RegistryView {
        RegistryView {
            devices: Map::empty(),
            nodes: Set::empty(),
            defaults: DefaultsView::unknown(),
        }
    }

    /// Each device is listed under its own identifier, and each bound node is listed.
    pub open spec fn well_formed(self) -> bool {
        &&& forall|id: u32| #[trigger]
            self.devices.contains_key(id) ==> self.devices[id].id == id
        &&& forall|id: u32| #[trigger] self.nodes.contains(id) ==> self.devices.contains_key(id)
    }

    /// What is known after a node was bound. A device that is not listed yet is listed as silent,
    /// not muted and without channels; one that is keeps what was known of it.
    pub open spec fn bound(self, node: NodeInfoView) -> RegistryView {
        RegistryView {
            devices: if self.devices.contains_key(node.id) {
                self.devices
            } else {
                self.devices.insert(
                    node.id,
                    VolInfoView {
                        id: node.id,
                        kind: node.kind,
                        name: node.name,
                        description: node.description,
                        volume_avg: 0,
                        mute: false,
                        channel_volumes: Seq::empty(),
                    },
                )
            },
            nodes: self.nodes.insert(node.id),
            ..self
        }
    }

    /// What is known after a node reported its volumes and its mute state. A device that is
    /// listed keeps its identifier and its kind.
    pub open spec fn with_props(
        self,
        node: NodeInfoView,
        volumes: Seq<u32>,
        mute: bool,
        mean: u32,
    ) -> RegistryView {
        let known = self.devices.contains_key(node.id);
        RegistryView {
            devices: self.devices.insert(
                node.id,
                VolInfoView {
                    id: if known { self.devices[node.id].id } else { node.id },
                    kind: if known { self.devices[node.id].kind } else { node.kind },
                    name: node.name,
                    description: node.description,
                    volume_avg: if volumes.len() == 0 { 0 } else { mean },
                    mute,
                    channel_volumes: volumes,
                },
            ),
            ..self
        }
    }

    /// What is known after a key of the metadata changed. Only keys of the server itself, which
    /// is subject zero, count, and only those that have a value.
    pub open spec fn with_property(
        self,
        subject: u32,
        key: Option<Seq<char>>,
        value: Option<Seq<char>>,
    ) -> RegistryView {
        if subject == 0 && value is Some {
            RegistryView { defaults: self.defaults.with(key, default_name(value->0)), ..self }
        } else {
            self
        }
    }

    /// What is known after an object went away.
    pub open spec fn without(self, id: u32) -> RegistryView {
        RegistryView {
            devices: self.devices.remove(id),
            nodes: self.nodes.remove(id),
            ..self
        }
    }

    /// What is known after an event.
    pub open spec fn after(self, event: Event) -> RegistryView {
        match event {
            Event::Bound(node) => self.bound(node),
            Event::Props { node, volumes, mute, mean } => self.with_props(
                node,
                volumes,
                mute,
                mean,
            ),
            Event::Property { subject, key, value } => self.with_property(subject, key, value),
            Event::Removed(id) => self.without(id),
        }
    }

    /// What is known after a row of events.
    pub open spec fn after_all(self, events: Seq<Event>) -> RegistryView
        decreases events.len(),
    {
        if events.len() == 0 {
            self
        } else {
            self.after_all(events.drop_last()).after(events.last())
        }
    }

    /// Whether a device is of a kind and, where a name is asked for, has that name.
    pub open spec fn has(self, id: u32, kind: DeviceKind, name: Option<Seq<char>>) -> bool {
        &&& self.devices.contains_key(id)
        &&& self.devices[id].kind == kind
        &&& name is Some ==> self.devices[id].name == name->0
    }

    /// Whether a list of labels names each device of a kind once, in the order of the given
    /// identifiers.
    pub open spec fn labelled(
        self,
        kind: DeviceKind,
        order: Seq<u32>,
        labels: Seq<Seq<char>>,
    ) -> bool {
        &&& order.no_duplicates()
        &&& forall|id: u32| #[trigger] order.contains(id) <==> self.has(id, kind, None)
        &&& labels == order.map_values(|id: u32| self.devices[id].label())
    }

    /// The change that a request makes: the node and its new properties, if the node is bound.
    pub open spec fn change_for(self, request: ClientRequestView) -> Option<(u32, PodObjectView)> {
        if self.nodes.contains(request.node()) {
            Some((request.node(), request.object()))
        } else {
            None
        }
    }
}

/// A change to make to a node.
#[derive(Debug)]
pub struct NodeChange {
    pub id: u32,
    pub object: PodObject,
}

/// The model of an optional change.
pub open spec fn change_view(change: Option<NodeChange>) -> Option<(u32, PodObjectView)> {
    match change {
        Some(change) => Some((change.id, change.object@)),
        None => None,
    }
}

impl Registry {
    /// Nothing is known yet.
    pub fn new() -> (registry: Registry)
        ensures
            registry@ == RegistryView::empty(),
            registry@.well_formed(),
    {
        let registry = Registry {
            devices: HashMap::new(),
            nodes: HashSet::new(),
            defaults: Defaults::unknown(),
        };
        assert(registry@ =~= RegistryView::empty());
        registry
    }

    /// Forgets everything.
    pub fn clear(&mut self)
        ensures
            final(self)@ == RegistryView::empty(),
            final(self)@.well_formed(),
    {
        self.devices.clear();
        self.nodes.clear();
        self.defaults = Defaults::unknown();
        assert(self@ =~= RegistryView::empty());
    }

    /// Lists a node that was bound. The result tells whether those who wait for changes are to be
    /// told, as it does of every event.
    pub fn node_bound(&mut self, node: &NodeInfo) -> (notify: bool)
        ensures
            final(self)@ == old(self)@.after(Event::Bound(node@)),
            notify == Event::Bound(node@).notifies(),
            old(self)@.well_formed() ==> final(self)@.well_formed(),
    {
        self.nodes.insert(node.id);
        if !self.devices.contains_key(&node.id) {
            self.devices.insert(
                node.id,
                VolInfo {
                    id: node.id,
                    kind: node.kind,
                    name: node.name.clone(),
                    description: copy_text(&node.description),
                    volume_avg: 0,
                    mute: false,
                    channel_volumes: Vec::new(),
                },
            );
        }
        assert(self@ =~= old(self)@.bound(node@));
        true
    }

    /// Takes over the volumes and the mute state that a node reported. `mean` is the percentage
    /// that the mean of the volumes stands for.
    pub fn props_changed(&mut self, node: &NodeInfo, volumes: Vec<u32>, mute: bool, mean: u32) -> (
    notify: bool)
        ensures
            final(self)@ == old(self)@.after(
                Event::Props { node: node@, volumes: volumes@, mute, mean },
            ),
            notify == (Event::Props { node: node@, volumes: volumes@, mute, mean }).notifies(),
            old(self)@.well_formed() ==> final(self)@.well_formed(),
    {
        let average: u32 = volume_avg(&volumes, mean);
        let (id, kind) = match self.devices.get(&node.id) {
            Some(info) => (info.id, info.kind),
            None => (node.id, node.kind),
        };
        self.devices.insert(
            node.id,
            VolInfo {
                id,
                kind,
                name: node.name.clone(),
                description: copy_text(&node.description),
                volume_avg: average,
                mute,
                channel_volumes: volumes,
            },
        );
        assert(self@ =~= old(self)@.with_props(node@, volumes@, mute, mean));
        true
    }

    /// Takes over the change of a key of the metadata. A device name that the value holds as JSON
    /// is taken over as it was written.
    pub fn property_changed(&mut self, subject: u32, key: Option<&str>, value: Option<&str>) -> (
    notify: bool)
        ensures
            final(self)@ == old(self)@.after(
                Event::Property { subject, key: str_view(key), value: str_view(value) },
            ),
            notify == (Event::Property {
                subject,
                key: str_view(key),
                value: str_view(value),
            }).notifies(),
            forall|written: Seq<char>|
                subject == 0 && str_view(value) == Some(#[trigger] name_json(written))
                    ==> final(self)@.defaults == old(self)@.defaults.with(str_view(key), written),
            old(self)@.well_formed() ==> final(self)@.well_formed(),
    {
        if subject != 0 {
            return false;
        }
        match value {
            Some(value) => {
                let name = parse_default_name(value);
                self.defaults.set(key, name);
                true
            },
            None => false,
        }
    }

    /// Forgets an object that went away.
    pub fn removed(&mut self, id: u32) -> (notify: bool)
        ensures
            final(self)@ == old(self)@.after(Event::Removed(id)),
            notify == Event::Removed(id).notifies(),
            old(self)@.well_formed() ==> final(self)@.well_formed(),
    {
        self.devices.remove(&id);
        self.nodes.remove(&id);
        assert(self@ =~= old(self)@.without(id));
        true
    }

    /// Decides what becomes of a request: it changes the node that it names, if that is bound,
    /// and is dropped otherwise.
    pub fn change_for_request(&self, request: &ClientRequest) -> (change: Option<NodeChange>)
        ensures
            change_view(change) == self@.change_for(request@),
    {
        let id: u32 = request.node();
        if self.nodes.contains(&id) {
            Some(NodeChange { id, object: request.object() })
        } else {
            None
        }
    }

    /// The device with an identifier.
    pub fn device(&self, id: u32) -> (info: Option<VolInfo>)
        ensures
            match info {
                Some(info) => self@.devices.contains_key(id) && info@ == self@.devices[id],
                None => !self@.devices.contains_key(id),
            },
    {
        match self.devices.get(&id) {
            Some(info) => Some(info.clone()),
            None => None,
        }
    }

    /// The name of the default device of a kind.
    pub fn default_device(&self, kind: DeviceKind) -> (name: Option<&String>)
        ensures
            match name {
                Some(name) => self@.defaults.of_kind(kind) == Some(name@),
                None => self@.defaults.of_kind(kind) is None,
            },
    {
        self.defaults.of_kind(kind)
    }

    /// A device of a kind and, where a name is asked for, with that name. Where several fit, any
    /// of them may be the result.
    pub fn find(&self, kind: DeviceKind, name: Option<&String>) -> (info: Option<VolInfo>)
        ensures
            match info {
                Some(info) => exists|id: u32| #[trigger]
                    self@.has(id, kind, opt_view(name)) && info@ == self@.devices[id],
                None => forall|id: u32| !#[trigger] self@.has(id, kind, opt_view(name)),
            },
            info matches Some(info) ==> info.kind == kind && (name matches Some(name)
                ==> info.name@ == name@),
            info is None ==> forall|id: u32| #[trigger]
                self@.devices.contains_key(id) && self@.devices[id].kind == kind ==> (name
                    matches Some(name) && self@.devices[id].name != name@),
    {
        for entry in it: self.devices.iter()
            invariant
                forall|j: int|
                    #![trigger it.seq()[j]]
                    0 <= j < it.index() ==> !self@.has(*it.seq()[j].0, kind, opt_view(name)),
        {
            let (id, info) = entry;
            if info.kind == kind && match name {
                Some(name) => info.name == *name,
                None => true,
            } {
                assert(self@.has(*id, kind, opt_view(name)));
                return Some(info.clone());
            }
        }
        assert forall|id: u32| !#[trigger] self@.has(id, kind, opt_view(name)) by {
            if self@.devices.contains_key(id) {
                assert(self.devices@.contains_key(id));
            }
        }
        assert forall|id: u32| #[trigger]
            self@.devices.contains_key(id) && self@.devices[id].kind == kind implies name
            matches Some(name) && self@.devices[id].name != name@ by {
            assert(!self@.has(id, kind, opt_view(name)));
        }
        None
    }

    /// The labels of all devices of a kind, in no particular order.
    pub fn available(&self, kind: DeviceKind) -> (labels: Vec<String>)
        ensures
            exists|order: Seq<u32>| #[trigger]
                self@.labelled(kind, order, texts_view(labels@)),
    {
        let mut labels: Vec<String> = Vec::new();
        let ghost mut order: Seq<u32> = Seq::empty();
        for entry in it: self.devices.iter()
            invariant
                it.seq().no_duplicates(),
                order.no_duplicates(),
                texts_view(labels@) == order.map_values(|id: u32| self@.devices[id].label()),
                forall|j: int|
                    #![trigger it.seq()[j]]
                    0 <= j < it.index() && self@.has(*it.seq()[j].0, kind, None)
                        ==> order.contains(*it.seq()[j].0),
                forall|id: u32| #[trigger]
                    order.contains(id) ==> self@.has(id, kind, None) && exists|j: int|
                        0 <= j < it.index() && *(#[trigger] it.seq()[j]).0 == id,
        {
            let (id, info) = entry;
            assert(it.seq()[it.index() as int] == entry);
            assert(self@.devices[*id] == info@);
            if info.kind == kind {
                let ghost before = order;
                let ghost texts = texts_view(labels@);
                labels.push(info.label());
                proof {
                    assert(!before.contains(*id));
                    order = before.push(*id);
                    assert forall|other: u32| #[trigger] order.contains(other) <==> before.contains(
                        other,
                    ) || other == *id by {
                        assert(order[before.len() as int] == *id);
                        if before.contains(other) {
                            assert(order[before.index_of(other)] == other);
                        }
                    }
                    assert(texts_view(labels@) =~= texts.push(info@.label()));
                    assert(texts_view(labels@) =~= order.map_values(
                        |id: u32| self@.devices[id].label(),
                    ));
                }
            }
        }
        assert forall|id: u32| self@.has(id, kind, None) implies #[trigger] order.contains(id) by {
            assert(self.devices@.contains_key(id));
        }
        assert(self@.labelled(kind, order, texts_view(labels@)));
        labels
    }
}

/// The model of an optional name.
pub open spec fn opt_view(name: Option<&String>) -> Option<Seq<char>> {
    match name {
        Some(name) => Some(name@),
        None => None,
    }
}

} // verus!
