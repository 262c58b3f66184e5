//! What each operation does, stated over the plain fields of what goes in and comes out.

use vstd::arithmetic::power::pow;
use vstd::prelude::*;

use crate::client::{ClientRequest, ClientRequestView};
use crate::connection::{Action, ConnectionView, Outcome, Phase};
use crate::defaults::{
    default_name, json_document, name_member, name_or_value, str_view, string_view, Defaults,
    DefaultsView, Json,
};
use crate::device::{
    info_view, next_lookup, step_fits, stepped_volume, DeviceTarget, DeviceTargetView, DeviceView,
};
use crate::error::{debug_list, not_found_message, texts_view, SoundError, SoundErrorView};
use crate::globals::{
    action_for, global_props_view, GlobalAction, GlobalActionView, GlobalProps, GlobalPropsView,
    NodeInfo, NodeInfoView, ObjectKind,
};
use crate::kind::DeviceKind;
use crate::props::{
    last_mute, last_volumes, param_props, pod_view, props_object, props_view, reported_props, Pod,
    PodObject, PodObjectView, PodView, PropValue, PropValueView, Property, PropertyView,
};
use crate::registry::{
    change_view, opt_view, Event, NodeChange, RegistryView, VolInfo, VolInfoView,
};
use crate::text::{
    all_digits, decimal_text, decimal_value, is_digit, lemma_decimal_text, u32_value, without_plus,
};

verus! {

// Node properties.

/// The last mute property with a boolean value gives the mute state, whatever other properties
/// stand before or after it.
pub proof fn law_last_mute_property_counts(object: PodObjectView, i: int, mute: bool)
    requires
        0 <= i < object.properties.len(),
        object.properties[i].key == 0x10004,
        object.properties[i].value == PropValueView::Bool(mute),
        forall|j: int|
            i < j < object.properties.len() ==> !((#[trigger] object.properties[j]).key == 0x10004
                && object.properties[j].value is Bool),
    ensures
        reported_props(PodView::Object(object)) is Some,
        (reported_props(PodView::Object(object))->0).1 == mute,
{
    lemma_last_mute(object.properties, i);
}

/// The volumes are those of the last property that sets any with a value of the fitting type: the
/// channel volumes as they are, or the one volume. Other properties do not matter.
pub proof fn law_last_volume_property_counts(object: PodObjectView, i: int, volumes: Seq<u32>)
    requires
        0 <= i < object.properties.len(),
        (object.properties[i].key == 0x10008 && object.properties[i].value
            == PropValueView::Floats(volumes)) || (object.properties[i].key == 0x10003
            && volumes.len() == 1 && object.properties[i].value == PropValueView::Float(
            volumes[0],
        )),
        forall|j: int|
            i < j < object.properties.len() ==> !((#[trigger] object.properties[j]).key == 0x10008
                && object.properties[j].value is Floats) && !(object.properties[j].key == 0x10003
                && object.properties[j].value is Float),
    ensures
        reported_props(PodView::Object(object)) is Some,
        (reported_props(PodView::Object(object))->0).0 == volumes,
{
    lemma_last_volumes(object.properties, i);
    if object.properties[i].key == 0x10003 {
        assert(volumes =~= seq![volumes[0]]);
    }
}

/// Where no mute property has a boolean value, no mute is reported, and where no volume property
/// has a value of the fitting type, no volumes are. Where neither is there, nothing is reported.
pub proof fn law_unset_properties(object: PodObjectView)
    ensures
        (forall|i: int|
            0 <= i < object.properties.len() ==> !((#[trigger] object.properties[i]).key == 0x10004
                && object.properties[i].value is Bool)) ==> (reported_props(
            PodView::Object(object),
        ) matches Some(props) ==> !props.1),
        (forall|i: int|
            0 <= i < object.properties.len() ==> !((#[trigger] object.properties[i]).key == 0x10008
                && object.properties[i].value is Floats) && !(object.properties[i].key == 0x10003
                && object.properties[i].value is Float)) ==> (reported_props(
            PodView::Object(object),
        ) matches Some(props) ==> props.0.len() == 0),
        reported_props(PodView::Object(object)) is Some <==> exists|i: int|
            0 <= i < object.properties.len() && (((#[trigger] object.properties[i]).key == 0x10004
                && object.properties[i].value is Bool) || (object.properties[i].key == 0x10008
                && object.properties[i].value is Floats) || (object.properties[i].key == 0x10003
                && object.properties[i].value is Float)),
        reported_props(PodView::Other) is None,
{
    lemma_unset(object.properties);
}

/// Only the `Props` parameter is read, and only where it has a value.
pub proof fn law_only_props_parameter_is_read(param: u32, pod: Option<PodView>)
    ensures
        param != 2 ==> param_props(param, pod) is None,
        pod is None ==> param_props(param, pod) is None,
        pod matches Some(value) ==> param_props(2, pod) == reported_props(value),
{
}

proof fn lemma_last_mute(properties: Seq<PropertyView>, i: int)
    requires
        0 <= i < properties.len(),
        properties[i].key == 0x10004,
        properties[i].value is Bool,
        forall|j: int|
            i < j < properties.len() ==> !((#[trigger] properties[j]).key == 0x10004
                && properties[j].value is Bool),
    ensures
        last_mute(properties) == Some(properties[i].value->Bool_0),
    decreases properties.len(),
{
    let before = properties.drop_last();
    if i < before.len() {
        assert forall|j: int| i < j < before.len() implies !((#[trigger] before[j]).key == 0x10004
            && before[j].value is Bool) by {
            assert(properties[j] == before[j]);
        }
        assert(properties[properties.len() - 1] == properties.last());
        lemma_last_mute(before, i);
    }
}

proof fn lemma_last_volumes(properties: Seq<PropertyView>, i: int)
    requires
        0 <= i < properties.len(),
        properties[i].volumes() is Some,
        forall|j: int| i < j < properties.len() ==> (#[trigger] properties[j]).volumes() is None,
    ensures
        last_volumes(properties) == properties[i].volumes(),
    decreases properties.len(),
{
    let before = properties.drop_last();
    if i < before.len() {
        assert forall|j: int| i < j < before.len() implies (#[trigger] before[j]).volumes()
            is None by {
            assert(properties[j] == before[j]);
        }
        assert(properties[properties.len() - 1] == properties.last());
        lemma_last_volumes(before, i);
    }
}

proof fn lemma_unset(properties: Seq<PropertyView>)
    ensures
        last_mute(properties) is Some <==> exists|i: int|
            0 <= i < properties.len() && (#[trigger] properties[i]).mute() is Some,
        last_volumes(properties) is Some <==> exists|i: int|
            0 <= i < properties.len() && (#[trigger] properties[i]).volumes() is Some,
    decreases properties.len(),
{
    if properties.len() > 0 {
        let before = properties.drop_last();
        lemma_unset(before);
        assert(properties[properties.len() - 1] == properties.last());
        assert forall|i: int|
            0 <= i < properties.len() && (#[trigger] properties[i]).mute()
                is Some implies last_mute(properties) is Some by {
            assert(i < before.len() ==> before[i] == properties[i]);
        }
        assert forall|i: int|
            0 <= i < properties.len() && (#[trigger] properties[i]).volumes()
                is Some implies last_volumes(properties) is Some by {
            assert(i < before.len() ==> before[i] == properties[i]);
        }
        assert forall|i: int| 0 <= i < before.len() implies #[trigger] before[i]
            == properties[i] by {}
    }
}

/// A built object sets the mute state exactly if one is given, to that state, and the channel
/// volumes exactly if there are any, to those. It holds nothing else, and no flags.
pub proof fn law_built_object(volumes: Seq<u32>, mute: Option<bool>)
    ensures
        props_object(volumes, mute).type_ == 0x40002,
        props_object(volumes, mute).id == 2,
        forall|state: bool|
            mute == Some(state) <==> exists|i: int|
                0 <= i < props_object(volumes, mute).properties.len() && (
                #[trigger] props_object(volumes, mute).properties[i]).key == 0x10004
                    && props_object(volumes, mute).properties[i].value == PropValueView::Bool(
                    state,
                ),
        volumes.len() > 0 <==> exists|i: int|
            0 <= i < props_object(volumes, mute).properties.len() && (#[trigger] props_object(
                volumes,
                mute,
            ).properties[i]).key == 0x10008,
        forall|i: int|
            0 <= i < props_object(volumes, mute).properties.len() ==> {
                let property = #[trigger] props_object(volumes, mute).properties[i];
                &&& property.flags == 0
                &&& property.key == 0x10004 || property.key == 0x10008
                &&& property.key == 0x10004 ==> property.value is Bool
                &&& property.key == 0x10008 ==> property.value == PropValueView::Floats(volumes)
            },
        forall|i: int, j: int|
            0 <= i < j < props_object(volumes, mute).properties.len() ==> (
            #[trigger] props_object(volumes, mute).properties[i]).key == 0x10004 && (
            #[trigger] props_object(volumes, mute).properties[j]).key == 0x10008,
{
    let properties = props_object(volumes, mute).properties;
    if mute is Some {
        assert(properties[0].key == 0x10004);
        if volumes.len() > 0 {
            assert(properties[1].key == 0x10008);
        }
    } else if volumes.len() > 0 {
        assert(properties[0].key == 0x10008);
    }
}

// Announced objects.

/// A node is bound exactly if its media class is `Audio/Sink` or `Audio/Source`, as a device of
/// that kind, under its own identifier, with the name and the description that it was announced
/// with. Every other node is passed over.
pub proof fn law_only_sinks_and_sources_are_bound(id: u32, props: GlobalPropsView)
    ensures
        props.media_class == Some("Audio/Sink"@) ==> (action_for(
            id,
            ObjectKind::Node,
            Some(props),
        ) matches GlobalActionView::BindNode(node) && node.kind == DeviceKind::Sink),
        props.media_class == Some("Audio/Source"@) ==> (action_for(
            id,
            ObjectKind::Node,
            Some(props),
        ) matches GlobalActionView::BindNode(node) && node.kind == DeviceKind::Source),
        props.media_class != Some("Audio/Sink"@) && props.media_class != Some("Audio/Source"@)
            ==> action_for(id, ObjectKind::Node, Some(props)) == GlobalActionView::Ignore,
        action_for(id, ObjectKind::Node, Some(props)) matches GlobalActionView::BindNode(node)
            ==> {
            &&& node.id == id
            &&& node.description == props.node_description
            &&& props.node_name matches Some(name) ==> node.name == name
            &&& props.node_name is None ==> node.name == "node_"@ + decimal_text(id as nat)
        },
{
    reveal_strlit("Audio/Sink");
    reveal_strlit("Audio/Source");
    assert("Audio/Sink"@.len() != "Audio/Source"@.len());
}

/// Of the metadata objects only the one named `default` is bound, and objects of other types, or
/// without properties, are passed over.
pub proof fn law_only_default_metadata_is_bound(
    id: u32,
    object: ObjectKind,
    props: GlobalPropsView,
)
    ensures
        props.metadata_name == Some("default"@) ==> action_for(
            id,
            ObjectKind::Metadata,
            Some(props),
        ) == GlobalActionView::BindMetadata,
        props.metadata_name != Some("default"@) ==> action_for(
            id,
            ObjectKind::Metadata,
            Some(props),
        ) == GlobalActionView::Ignore,
        action_for(id, ObjectKind::Other, Some(props)) == GlobalActionView::Ignore,
        action_for(id, object, None) == GlobalActionView::Ignore,
{
}

// The registry.

/// Nothing is known at first: no device, no node, no default.
pub proof fn law_nothing_is_known_at_first(id: u32)
    ensures
        !RegistryView::empty().devices.contains_key(id),
        !RegistryView::empty().nodes.contains(id),
        RegistryView::empty().defaults.sink is None,
        RegistryView::empty().defaults.source is None,
{
}

/// A registry is well formed exactly if each device is listed under its own identifier and each
/// bound node is listed.
pub proof fn law_well_formed(registry: RegistryView)
    ensures
        registry.well_formed() <==> (forall|id: u32|
            registry.devices.contains_key(id) ==> (#[trigger] registry.devices[id]).id == id) && (
        forall|id: u32| #[trigger]
            registry.nodes.contains(id) ==> registry.devices.contains_key(id)),
{
    if forall|id: u32|
        registry.devices.contains_key(id) ==> (#[trigger] registry.devices[id]).id == id {
        assert forall|id: u32| #[trigger]
            registry.devices.contains_key(id) implies registry.devices[id].id == id by {
            assert(registry.devices[id].id == id);
        }
    }
}

/// Binding a node marks it as bound and lists it, if it is not listed yet, as silent, not muted
/// and without channels. It touches no other device, nothing that is known of a listed one, and
/// no default.
pub proof fn law_binding(registry: RegistryView, node: NodeInfoView, other: u32)
    ensures
        ({
            let after = registry.after(Event::Bound(node));
            &&& after.nodes.contains(other) <==> registry.nodes.contains(other) || other == node.id
            &&& after.defaults == registry.defaults
            &&& registry.devices.contains_key(other) ==> after.devices.contains_key(other)
                && after.devices[other] == registry.devices[other]
            &&& after.devices.contains_key(other) ==> registry.devices.contains_key(other) || other
                == node.id
            &&& after.devices.contains_key(node.id)
            &&& !registry.devices.contains_key(node.id) ==> {
                let info = after.devices[node.id];
                &&& info.id == node.id
                &&& info.kind == node.kind
                &&& info.name == node.name
                &&& info.description == node.description
                &&& info.volume_avg == 0
                &&& !info.mute
                &&& info.channel_volumes.len() == 0
            }
        }),
{
}

/// A report replaces the name, the description, the volumes, the average and the mute state of
/// the device. It touches no other device, no bound node and no default, and leaves a listed
/// device its kind.
pub proof fn law_report(
    registry: RegistryView,
    node: NodeInfoView,
    volumes: Seq<u32>,
    mute: bool,
    mean: u32,
    other: u32,
)
    ensures
        ({
            let after = registry.after(Event::Props { node, volumes, mute, mean });
            &&& after.nodes == registry.nodes
            &&& after.defaults == registry.defaults
            &&& other != node.id ==> after.devices.contains_key(other)
                == registry.devices.contains_key(other)
            &&& other != node.id && registry.devices.contains_key(other) ==> after.devices[other]
                == registry.devices[other]
            &&& after.devices.contains_key(node.id)
            &&& {
                let info = after.devices[node.id];
                &&& info.name == node.name
                &&& info.description == node.description
                &&& info.channel_volumes == volumes
                &&& info.mute == mute
                &&& volumes.len() == 0 ==> info.volume_avg == 0
                &&& volumes.len() > 0 ==> info.volume_avg == mean
                &&& registry.devices.contains_key(node.id) ==> info.id
                    == registry.devices[node.id].id && info.kind == registry.devices[node.id].kind
                &&& !registry.devices.contains_key(node.id) ==> info.id == node.id && info.kind
                    == node.kind
            }
        }),
{
}

/// Removing an object takes it out of the devices and the bound nodes, and touches nothing else.
pub proof fn law_removal(registry: RegistryView, id: u32, other: u32)
    ensures
        ({
            let after = registry.after(Event::Removed(id));
            &&& !after.devices.contains_key(id)
            &&& !after.nodes.contains(id)
            &&& after.defaults == registry.defaults
            &&& other != id ==> after.devices.contains_key(other) == registry.devices.contains_key(
                other,
            )
            &&& other != id && registry.devices.contains_key(other) ==> after.devices[other]
                == registry.devices[other]
            &&& other != id ==> after.nodes.contains(other) == registry.nodes.contains(other)
        }),
{
}

/// A metadata key of the server itself that has a value names a default device if it is one of
/// the two that do so. No other change of the metadata changes anything, and none changes a
/// device or a bound node.
pub proof fn law_metadata(
    registry: RegistryView,
    subject: u32,
    key: Option<Seq<char>>,
    value: Option<Seq<char>>,
)
    ensures
        ({
            let after = registry.after(Event::Property { subject, key, value });
            &&& after.devices == registry.devices
            &&& after.nodes == registry.nodes
            &&& subject != 0 || value is None ==> after.defaults == registry.defaults
            &&& key != Some("default.audio.sink"@) ==> after.defaults.sink
                == registry.defaults.sink
            &&& key != Some("default.audio.source"@) ==> after.defaults.source
                == registry.defaults.source
            &&& subject == 0 && value is Some && key == Some("default.audio.sink"@)
                ==> after.defaults.sink == Some(default_name(value->0))
            &&& subject == 0 && value is Some && key == Some("default.audio.source"@)
                ==> after.defaults.source == Some(default_name(value->0))
        }),
{
    reveal_strlit("default.audio.sink");
    reveal_strlit("default.audio.source");
    assert("default.audio.sink"@.len() != "default.audio.source"@.len());
}

/// A metadata value that is a JSON object with a string as its member `name` gives that string,
/// and any other value gives itself.
pub proof fn law_default_name(value: Seq<char>)
    ensures
        (json_document(value) matches Some(Json::Object(members)) && members.contains_key("name"@)
            && members["name"@] is Text) ==> default_name(value) == json_document(
            value,
        )->0->Object_0["name"@]->Text_0,
        !(json_document(value) matches Some(Json::Object(members)) && members.contains_key(
            "name"@,
        ) && members["name"@] is Text) ==> default_name(value) == value,
{
}

/// The name in a JSON value is its member `name`, if it is an object in which that is a string.
pub proof fn law_name_in_json(json: Json)
    ensures
        name_member(json) is Some <==> (json matches Json::Object(members)
            && members.contains_key("name"@) && members["name"@] is Text),
        name_member(json) matches Some(name) ==> json->Object_0["name"@] == Json::Text(name),
{
}

/// A name that was found is the name, and otherwise the whole value is.
pub proof fn law_name_or_value(name: Seq<char>, value: Seq<char>)
    ensures
        name_or_value(Some(name), value) == name,
        name_or_value(None, value) == value,
{
}

/// A name for one of the two keys that stand for a default device replaces that default and
/// leaves the other, and a name for any other key, or for none, leaves both.
pub proof fn law_naming_a_default(
    defaults: DefaultsView,
    key: Option<Seq<char>>,
    name: Seq<char>,
)
    ensures
        defaults.with(Some("default.audio.sink"@), name).sink == Some(name),
        defaults.with(Some("default.audio.source"@), name).source == Some(name),
        key != Some("default.audio.sink"@) ==> defaults.with(key, name).sink == defaults.sink,
        key != Some("default.audio.source"@) ==> defaults.with(key, name).source
            == defaults.source,
{
    reveal_strlit("default.audio.sink");
    reveal_strlit("default.audio.source");
    assert("default.audio.sink"@.len() != "default.audio.source"@.len());
}

/// The default sink is the default device of the sinks, and the default source that of the
/// sources.
pub proof fn law_defaults_of_kinds(defaults: DefaultsView)
    ensures
        defaults.of_kind(DeviceKind::Sink) == defaults.sink,
        defaults.of_kind(DeviceKind::Source) == defaults.source,
{
}

/// Those who wait are told of every bound node, every report and every removal, and of a change
/// of the metadata exactly if it is one of the server itself and there is a value.
pub proof fn law_who_is_told(
    node: NodeInfoView,
    volumes: Seq<u32>,
    mute: bool,
    mean: u32,
    subject: u32,
    key: Option<Seq<char>>,
    value: Option<Seq<char>>,
    id: u32,
)
    ensures
        Event::Bound(node).notifies(),
        (Event::Props { node, volumes, mute, mean }).notifies(),
        Event::Removed(id).notifies(),
        (Event::Property { subject, key, value }).notifies() <==> subject == 0 && value is Some,
{
}

/// The events that make a device known are those that bind its node and its reports.
pub proof fn law_what_introduces(
    node: NodeInfoView,
    volumes: Seq<u32>,
    mute: bool,
    mean: u32,
    subject: u32,
    key: Option<Seq<char>>,
    value: Option<Seq<char>>,
    id: u32,
    removed: u32,
)
    ensures
        Event::Bound(node).introduces(id) <==> id == node.id,
        (Event::Props { node, volumes, mute, mean }).introduces(id) <==> id == node.id,
        !(Event::Property { subject, key, value }).introduces(id),
        !Event::Removed(removed).introduces(id),
{
}

/// A row of events takes effect one after the other.
pub proof fn law_events_in_order(registry: RegistryView, events: Seq<Event>, event: Event)
    ensures
        registry.after_all(Seq::empty()) == registry,
        registry.after_all(events.push(event)) == registry.after_all(events).after(event),
{
    assert(events.push(event).drop_last() =~= events);
}

/// A device fits what is asked for exactly if it is listed, is of the kind and, where a name is
/// asked for, has that name: nothing else about it matters.
pub proof fn law_what_fits(
    registry: RegistryView,
    id: u32,
    kind: DeviceKind,
    name: Option<Seq<char>>,
)
    ensures
        registry.has(id, kind, name) <==> registry.devices.contains_key(id)
            && registry.devices[id].kind == kind && (name is None || name == Some(
            registry.devices[id].name,
        )),
{
}

/// The label of a device is its identifier, a colon and its name.
pub proof fn law_label(info: VolInfoView)
    ensures
        info.label() == decimal_text(info.id as nat) + ":"@ + info.name,
{
}

/// The list of available devices names each listed device of the kind once, by its identifier, a
/// colon and its name, and nothing else.
pub proof fn law_available_devices(
    registry: RegistryView,
    kind: DeviceKind,
    order: Seq<u32>,
    labels: Seq<Seq<char>>,
)
    requires
        registry.labelled(kind, order, labels),
    ensures
        labels.len() == order.len(),
        forall|i: int, j: int| 0 <= i < j < order.len() ==> order[i] != order[j],
        forall|i: int|
            0 <= i < order.len() ==> registry.devices.contains_key(#[trigger] order[i])
                && registry.devices[order[i]].kind == kind && labels[i] == decimal_text(
                registry.devices[order[i]].id as nat,
            ) + ":"@ + registry.devices[order[i]].name,
        forall|id: u32| #[trigger]
            registry.devices.contains_key(id) && registry.devices[id].kind == kind ==> exists|i: int|
                0 <= i < order.len() && #[trigger] order[i] == id,
{
    assert forall|i: int| 0 <= i < order.len() implies registry.devices.contains_key(
        #[trigger] order[i],
    ) && registry.devices[order[i]].kind == kind && labels[i] == decimal_text(
        registry.devices[order[i]].id as nat,
    ) + ":"@ + registry.devices[order[i]].name by {
        assert(order.contains(order[i]));
        assert(registry.has(order[i], kind, None));
    }
    assert forall|id: u32| #[trigger]
        registry.devices.contains_key(id) && registry.devices[id].kind == kind implies exists|
        i: int,
    | 0 <= i < order.len() && #[trigger] order[i] == id by {
        assert(registry.has(id, kind, None));
        assert(order.contains(id));
    }
}

// Requests.

/// A request to change the volume of a bound node gives it the volumes, and the mute state where
/// there is one; a request to change the mute state gives it that state alone, be it muted or
/// not. A request for a node that is not bound changes nothing.
pub proof fn law_what_requests_change(
    registry: RegistryView,
    id: u32,
    volumes: Seq<u32>,
    state: Option<bool>,
    mute: bool,
)
    ensures
        ({
            let volume_change = registry.change_for(
                ClientRequestView::SetVolume { id, volumes, mute: state },
            );
            let mute_change = registry.change_for(ClientRequestView::SetMute { id, mute });
            &&& volume_change is Some <==> registry.nodes.contains(id)
            &&& mute_change is Some <==> registry.nodes.contains(id)
            &&& volume_change matches Some(change) ==> {
                &&& change.0 == id
                &&& change.1.type_ == 0x40002
                &&& change.1.id == 2
                &&& state is None && volumes.len() > 0 ==> change.1.properties == seq![
                    PropertyView {
                        key: 0x10008,
                        flags: 0,
                        value: PropValueView::Floats(volumes),
                    },
                ]
                &&& state is Some && volumes.len() == 0 ==> change.1.properties == seq![
                    PropertyView { key: 0x10004, flags: 0, value: PropValueView::Bool(state->0) },
                ]
                &&& state is Some && volumes.len() > 0 ==> change.1.properties == seq![
                    PropertyView { key: 0x10004, flags: 0, value: PropValueView::Bool(state->0) },
                    PropertyView {
                        key: 0x10008,
                        flags: 0,
                        value: PropValueView::Floats(volumes),
                    },
                ]
                &&& state is None && volumes.len() == 0 ==> change.1.properties.len() == 0
            }
            &&& mute_change matches Some(change) ==> {
                &&& change.0 == id
                &&& change.1.type_ == 0x40002
                &&& change.1.id == 2
                &&& change.1.properties == seq![
                    PropertyView { key: 0x10004, flags: 0, value: PropValueView::Bool(mute) },
                ]
            }
        }),
{
    let mute_property = PropertyView {
        key: 0x10004,
        flags: 0,
        value: PropValueView::Bool(mute),
    };
    assert(props_object(Seq::empty(), Some(mute)).properties =~= seq![mute_property]);
    let volume_properties = props_object(volumes, state).properties;
    if state is Some {
        let first = PropertyView { key: 0x10004, flags: 0, value: PropValueView::Bool(state->0) };
        let second = PropertyView {
            key: 0x10008,
            flags: 0,
            value: PropValueView::Floats(volumes),
        };
        if volumes.len() > 0 {
            assert(volume_properties =~= seq![first, second]);
        } else {
            assert(volume_properties =~= seq![first]);
        }
    } else if volumes.len() > 0 {
        assert(volume_properties =~= seq![
            PropertyView { key: 0x10008, flags: 0, value: PropValueView::Floats(volumes) },
        ]);
    }
}

// Devices.

/// A lookup by identifier gives the device that is listed under it, whatever its kind, volumes,
/// mute state, name and description, and nothing exactly if none is.
pub proof fn law_lookup_by_identifier(
    device: DeviceView,
    registry: RegistryView,
    id: u32,
    info: Option<VolInfoView>,
)
    requires
        device.target == DeviceTargetView::ById(id),
        device.resolves_to(registry, info),
    ensures
        registry.devices.contains_key(id) ==> info == Some(registry.devices[id]),
        !registry.devices.contains_key(id) ==> info is None,
{
    if registry.devices.contains_key(id) {
        assert(device.means(registry, id));
    }
}

/// A lookup by name gives a listed device of the kind with that name, and gives one whenever
/// there is one, whatever its volumes, mute state and description.
pub proof fn law_lookup_by_name(
    device: DeviceView,
    registry: RegistryView,
    name: Seq<char>,
    id: u32,
    info: Option<VolInfoView>,
)
    requires
        device.target == DeviceTargetView::ByName(name),
        device.resolves_to(registry, info),
    ensures
        registry.devices.contains_key(id) && registry.devices[id].kind == device.kind
            && registry.devices[id].name == name ==> info is Some,
        info matches Some(found) ==> found.kind == device.kind && found.name == name && exists|
            listed: u32,
        | #[trigger] registry.devices.contains_key(listed) && registry.devices[listed] == found,
{
    if registry.devices.contains_key(id) && registry.devices[id].kind == device.kind
        && registry.devices[id].name == name {
        assert(device.means(registry, id));
    }
    if info is Some {
        let listed = choose|listed: u32| #[trigger]
            device.means(registry, listed) && info->0 == registry.devices[listed];
        assert(registry.devices.contains_key(listed));
    }
}

/// A lookup of the default device gives a listed device of the kind that has the default name, if
/// that is known, and any listed device of the kind otherwise. It gives one whenever there is one,
/// whatever its volumes, mute state and description.
pub proof fn law_lookup_of_default(
    device: DeviceView,
    registry: RegistryView,
    wanted: Option<Seq<char>>,
    id: u32,
    info: Option<VolInfoView>,
)
    requires
        device.target == DeviceTargetView::Default,
        device.kind == DeviceKind::Sink ==> wanted == registry.defaults.sink,
        device.kind == DeviceKind::Source ==> wanted == registry.defaults.source,
        device.resolves_to(registry, info),
    ensures
        registry.devices.contains_key(id) && registry.devices[id].kind == device.kind && (wanted
            matches Some(name) ==> registry.devices[id].name == name) ==> info is Some,
        info matches Some(found) ==> found.kind == device.kind && (wanted matches Some(name)
            ==> found.name == name) && exists|listed: u32| #[trigger]
            registry.devices.contains_key(listed) && registry.devices[listed] == found,
{
    if registry.devices.contains_key(id) && registry.devices[id].kind == device.kind && (wanted
        matches Some(name) ==> registry.devices[id].name == name) {
        assert(device.means(registry, id));
    }
    if info is Some {
        let listed = choose|listed: u32| #[trigger]
            device.means(registry, listed) && info->0 == registry.devices[listed];
        assert(registry.devices.contains_key(listed));
    }
}

/// Without a name the default device is meant. A name of digits, with or without a plus sign, that
/// a `u32` can hold, means the device with that identifier; any other name means the device with
/// that name.
pub proof fn law_what_a_name_means(name: Seq<char>)
    ensures
        DeviceTargetView::named(None) == DeviceTargetView::Default,
        name.len() > 0 && (forall|i: int| 0 <= i < name.len() ==> 48 <= #[trigger] name[i] as int
            <= 57) && decimal_value(name) <= u32::MAX ==> DeviceTargetView::named(Some(name))
            == DeviceTargetView::ById(decimal_value(name) as u32),
        name.len() > 0 && (forall|i: int| 0 <= i < name.len() ==> 48 <= #[trigger] name[i] as int
            <= 57) && decimal_value(name) <= u32::MAX ==> DeviceTargetView::named(
            Some(seq!['+'] + name),
        ) == DeviceTargetView::ById(decimal_value(name) as u32),
        name.len() > 0 && (forall|i: int| 0 <= i < name.len() ==> 48 <= #[trigger] name[i] as int
            <= 57) && decimal_value(name) > u32::MAX ==> DeviceTargetView::named(Some(name))
            == DeviceTargetView::ByName(name) && DeviceTargetView::named(Some(seq!['+'] + name))
            == DeviceTargetView::ByName(seq!['+'] + name),
        (exists|i: int|
            0 <= i < name.len() && !(48 <= #[trigger] name[i] as int <= 57) && !(i == 0 && name[i]
                == '+')) ==> DeviceTargetView::named(Some(name)) == DeviceTargetView::ByName(name),
        name.len() == 0 ==> DeviceTargetView::named(Some(name)) == DeviceTargetView::ByName(name),
        name.len() == 1 && name[0] == '+' ==> DeviceTargetView::named(Some(name))
            == DeviceTargetView::ByName(name),
{
    law_reading_numbers(name);
}

/// A text is read as a number exactly if it is a row of at least one digit, after at most one plus
/// sign, and a `u32` can hold the number.
pub proof fn law_reading_numbers(text: Seq<char>)
    ensures
        text.len() > 0 && (forall|i: int| 0 <= i < text.len() ==> 48 <= #[trigger] text[i] as int
            <= 57) && decimal_value(text) <= u32::MAX ==> u32_value(text) == Some(
            decimal_value(text) as u32,
        ) && u32_value(seq!['+'] + text) == Some(decimal_value(text) as u32),
        (forall|i: int| 0 <= i < text.len() ==> 48 <= #[trigger] text[i] as int <= 57)
            && decimal_value(text) > u32::MAX ==> u32_value(text) is None && u32_value(
            seq!['+'] + text,
        ) is None,
        (exists|i: int|
            0 <= i < text.len() && !(48 <= #[trigger] text[i] as int <= 57) && !(i == 0 && text[i]
                == '+')) ==> u32_value(text) is None,
        text.len() == 0 ==> u32_value(text) is None,
        text.len() == 1 && text[0] == '+' ==> u32_value(text) is None,
{
    lemma_digits(text);
}

proof fn lemma_digits(text: Seq<char>)
    ensures
        (forall|i: int| 0 <= i < text.len() ==> 48 <= #[trigger] text[i] as int <= 57) ==> (
        all_digits(text) && without_plus(text) == text),
        without_plus(seq!['+'] + text) == text,
        (exists|i: int|
            0 <= i < text.len() && !(48 <= #[trigger] text[i] as int <= 57) && !(i == 0 && text[i]
                == '+')) ==> !all_digits(without_plus(text)),
{
    assert((seq!['+'] + text).drop_first() =~= text);
    if exists|i: int|
        0 <= i < text.len() && !(48 <= #[trigger] text[i] as int <= 57) && !(i == 0 && text[i]
            == '+') {
        let i = choose|i: int|
            0 <= i < text.len() && !(48 <= #[trigger] text[i] as int <= 57) && !(i == 0 && text[i]
                == '+');
        let digits = without_plus(text);
        if text[0] == '+' {
            assert(digits[i - 1] == text[i]);
            assert(!is_digit(digits[i - 1]));
        } else {
            assert(!is_digit(digits[i]));
        }
    }
    if forall|i: int| 0 <= i < text.len() ==> 48 <= #[trigger] text[i] as int <= 57 {
        if text.len() > 0 {
            assert(48 <= text[0] as int);
        }
    }
}

/// Digits stand for powers of ten: the digits before others count for more by one power for each
/// of those, and a digit alone for itself.
pub proof fn law_decimal_places(high: Seq<char>, low: Seq<char>)
    ensures
        decimal_value(Seq::empty()) == 0,
        low.len() == 1 && 48 <= low[0] as int <= 57 ==> decimal_value(low) == low[0] as int - 48,
        decimal_value(high + low) == decimal_value(high) * pow(10, low.len()) + decimal_value(low),
    decreases low.len(),
{
    reveal(pow);
    if low.len() == 0 {
        assert(high + low =~= high);
    } else {
        let front = low.drop_last();
        law_decimal_places(high, front);
        assert((high + low).drop_last() =~= high + front);
        assert((high + low).last() == low.last());
        assert(pow(10, low.len()) == 10 * pow(10, front.len()));
        let h = decimal_value(high) as int;
        let p = pow(10, front.len());
        assert(10 * (h * p) == h * (10 * p)) by (nonlinear_arith);
        if low.len() == 1 {
            assert(front =~= Seq::empty());
            assert(decimal_value(front) == 0);
        }
    }
}

/// The text of a number is made of digits that stand for it, without a zero in front.
pub proof fn law_writing_numbers(n: nat)
    ensures
        decimal_text(n).len() > 0,
        forall|i: int|
            0 <= i < decimal_text(n).len() ==> 48 <= #[trigger] decimal_text(n)[i] as int <= 57,
        decimal_value(decimal_text(n)) == n,
        n > 0 ==> decimal_text(n)[0] != '0',
        n == 0 ==> decimal_text(n).len() == 1,
    decreases n,
{
    lemma_decimal_text(n);
    assert forall|i: int| 0 <= i < decimal_text(n).len() implies 48 <= #[trigger] decimal_text(
        n,
    )[i] as int <= 57 by {
        assert(is_digit(decimal_text(n)[i]));
    }
    if n >= 10 {
        law_writing_numbers(n / 10);
    }
}

/// A step is exact as long as it stays between zero and the limit; below zero the result is zero,
/// and above the limit it is the limit.
pub proof fn law_steps_are_exact(volume: u32, step: i32, limit: u32)
    requires
        volume <= 0x7fff_ffff,
    ensures
        0 <= volume + step <= limit ==> stepped_volume(volume, step, Some(limit)) == volume + step,
        0 <= volume + step ==> stepped_volume(volume, step, None) == volume + step,
        volume + step < 0 ==> stepped_volume(volume, step, Some(limit)) == 0,
        volume + step < 0 ==> stepped_volume(volume, step, None) == 0,
        volume + step > limit ==> stepped_volume(volume, step, Some(limit)) == limit,
        step_fits(volume, step) <==> volume + step <= 0x7fff_ffff,
{
}

/// A volume that an `i32` cannot hold counts as the negative number with the same bits.
pub proof fn law_steps_from_huge_volumes(volume: u32, step: i32, limit: u32)
    requires
        volume > 0x7fff_ffff,
    ensures
        step_fits(volume, step) <==> volume + step >= 0x8000_0000,
        volume + step >= 0x1_0000_0000 ==> stepped_volume(volume, step, None) == volume + step
            - 0x1_0000_0000,
        volume + step < 0x1_0000_0000 ==> stepped_volume(volume, step, None) == 0,
        volume + step < 0x1_0000_0000 ==> stepped_volume(volume, step, Some(limit)) == 0,
        0x1_0000_0000 <= volume + step <= limit + 0x1_0000_0000 ==> stepped_volume(
            volume,
            step,
            Some(limit),
        ) == volume + step - 0x1_0000_0000,
        volume + step > limit + 0x1_0000_0000 ==> stepped_volume(volume, step, Some(limit))
            == limit,
{
}

/// A limit that is not reached makes no difference, one that is passed is the result, and a larger
/// step never leads to a lower volume.
pub proof fn law_limits(volume: u32, step: i32, larger: i32, limit: u32)
    ensures
        stepped_volume(volume, step, None) <= limit ==> stepped_volume(volume, step, Some(limit))
            == stepped_volume(volume, step, None),
        stepped_volume(volume, step, None) > limit ==> stepped_volume(volume, step, Some(limit))
            == limit,
        step <= larger ==> stepped_volume(volume, step, None) <= stepped_volume(
            volume,
            larger,
            None,
        ),
        step <= larger ==> stepped_volume(volume, step, Some(limit)) <= stepped_volume(
            volume,
            larger,
            Some(limit),
        ),
{
}

/// A change of volume sets the average and every channel, two of them where none are known, and
/// leaves everything else as it was.
pub proof fn law_what_a_volume_change_sets(info: VolInfoView, volume: u32, linear: u32)
    ensures
        ({
            let changed = info.at_volume(volume, linear);
            &&& changed.volume_avg == volume
            &&& info.channel_volumes.len() == 0 ==> changed.channel_volumes.len() == 2
            &&& info.channel_volumes.len() > 0 ==> changed.channel_volumes.len()
                == info.channel_volumes.len()
            &&& forall|i: int|
                0 <= i < changed.channel_volumes.len() ==> #[trigger] changed.channel_volumes[i]
                    == linear
            &&& changed.id == info.id
            &&& changed.kind == info.kind
            &&& changed.name == info.name
            &&& changed.description == info.description
            &&& changed.mute == info.mute
        }),
{
}

/// Toggling reverses the mute state and leaves everything else as it was.
pub proof fn law_what_toggling_changes(info: VolInfoView)
    ensures
        info.toggled().mute == !info.mute,
        info.toggled().id == info.id,
        info.toggled().kind == info.kind,
        info.toggled().name == info.name,
        info.toggled().description == info.description,
        info.toggled().volume_avg == info.volume_avg,
        info.toggled().channel_volumes == info.channel_volumes,
{
}

/// A lookup that found nothing is followed by another after a tenth of a second, three hundred
/// times over, and by none after that.
pub proof fn law_what_follows_a_lookup(retries: u32)
    ensures
        retries < 300 ==> next_lookup(retries) == Some(((retries + 1) as u32, 100u64)),
        retries >= 300 ==> next_lookup(retries) is None,
{
}

/// The error of a lookup that is given up holds the number of retries and the label of every
/// listed device of the kind, each once.
pub proof fn law_what_is_reported_missing(
    device: DeviceView,
    registry: RegistryView,
    retries: u32,
    error: SoundErrorView,
)
    requires
        device.not_found(registry, retries, error),
    ensures
        error matches SoundErrorView::DeviceNotFound { retries: reported, available } && reported
            == retries && exists|order: Seq<u32>|
            {
                &&& order.len() == available.len()
                &&& forall|i: int, j: int| 0 <= i < j < order.len() ==> order[i] != order[j]
                &&& forall|i: int|
                    0 <= i < order.len() ==> registry.devices.contains_key(#[trigger] order[i])
                        && registry.devices[order[i]].kind == device.kind && available[i]
                        == decimal_text(registry.devices[order[i]].id as nat) + ":"@
                        + registry.devices[order[i]].name
                &&& forall|id: u32| #[trigger]
                    registry.devices.contains_key(id) && registry.devices[id].kind == device.kind
                        ==> order.contains(id)
            },
{
    let available = error->available;
    let order = choose|order: Seq<u32>| #[trigger]
        registry.labelled(device.kind, order, available);
    law_available_devices(registry, device.kind, order, available);
    assert forall|id: u32| #[trigger]
        registry.devices.contains_key(id) && registry.devices[id].kind
            == device.kind implies order.contains(id) by {
        assert(registry.has(id, device.kind, None));
    }
}

/// Each error says what went wrong.
pub proof fn law_messages(reason: Seq<char>, retries: u32, available: Seq<Seq<char>>)
    ensures
        SoundErrorView::NotAvailable(reason).message() == "PipeWire not available: "@ + reason,
        SoundErrorView::ConnectionFailed(reason).message()
            == "pipewire connection failed with error: "@ + reason,
        SoundErrorView::InfoNotLoaded.message() == "Device info not loaded"@,
        (SoundErrorView::DeviceNotFound { retries, available }).message()
            == "PipeWire device not found after "@ + decimal_text(retries as nat)
            + " retries. Available devices: "@ + debug_list(available),
{
}

/// The message that no device was found holds the number of retries and the list as it is.
pub proof fn law_not_found_message(retries: u32, available: Seq<char>)
    ensures
        not_found_message(retries, available) == "PipeWire device not found after "@
            + decimal_text(retries as nat) + " retries. Available devices: "@ + available,
{
}

// The connection.

/// Every attempt is counted when it starts, with the creation of a main loop, and the count starts
/// anew when there is a connection. Nothing else changes it.
pub proof fn law_attempts_are_counted(connection: ConnectionView, outcome: Outcome)
    ensures
        ({
            let (next, action) = connection.next(outcome);
            &&& action == Action::CreateMainLoop ==> next.tries == connection.tries + 1
            &&& action == Action::Listen ==> next.tries == 0
            &&& action != Action::CreateMainLoop && action != Action::Listen ==> next.tries
                == connection.tries
        }),
{
}

/// What is asked for is what the connection is waiting for afterwards.
pub proof fn law_actions_and_phases(connection: ConnectionView, outcome: Outcome)
    ensures
        ({
            let (next, action) = connection.next(outcome);
            &&& action is Sleep <==> next.phase == Phase::Idle
            &&& action == Action::CreateMainLoop <==> next.phase == Phase::MainLoop
            &&& action == Action::CreateContext <==> next.phase == Phase::Context
            &&& action == Action::Connect <==> next.phase == Phase::Core
            &&& action == Action::Listen <==> next.phase == Phase::Listening
            &&& action == (Action::RunRound { ms: 50 }) <==> next.phase == Phase::Round
            &&& action == Action::HandleRequests <==> next.phase == Phase::Requests
        }),
{
}

/// A delay follows exactly the failure to create the main loop or the context or to connect. It is
/// a tenth of a second after each of the first ten attempts, and five seconds after later ones.
pub proof fn law_delays_after_failures(connection: ConnectionView, outcome: Outcome)
    ensures
        ({
            let action = connection.next(outcome).1;
            &&& action is Sleep <==> outcome == Outcome::Failed && (connection.phase
                == Phase::MainLoop || connection.phase == Phase::Context || connection.phase
                == Phase::Core)
            &&& action is Sleep && connection.tries <= 10 ==> action == (Action::Sleep { ms: 100 })
            &&& action is Sleep && connection.tries > 10 ==> action == (Action::Sleep {
                ms: 5000,
            })
        }),
{
}

/// An attempt starts after a delay, and when a round finds the connection lost. The steps of an
/// attempt come in order, and so does what follows a connection.
pub proof fn law_steps_come_in_order(connection: ConnectionView, outcome: Outcome)
    ensures
        ({
            let action = connection.next(outcome).1;
            &&& action == Action::CreateMainLoop <==> connection.phase == Phase::Idle || (
            connection.phase == Phase::Round && outcome == Outcome::Failed)
            &&& action == Action::CreateContext <==> connection.phase == Phase::MainLoop && outcome
                == Outcome::Done
            &&& action == Action::Connect <==> connection.phase == Phase::Context && outcome
                == Outcome::Done
            &&& action == Action::Listen <==> connection.phase == Phase::Core && outcome
                == Outcome::Done
            &&& action is RunRound <==> connection.phase == Phase::Listening || connection.phase
                == Phase::Requests
            &&& action == Action::HandleRequests <==> connection.phase == Phase::Round && outcome
                == Outcome::Done
        }),
{
}

/// What is known of the devices is forgotten exactly when the listeners are to be registered, that
/// is at the start of a connection.
pub proof fn law_when_everything_is_forgotten(
    connection: ConnectionView,
    outcome: Outcome,
    registry: RegistryView,
    id: u32,
)
    ensures
        ({
            let action = connection.next(outcome).1;
            let after = connection.registry_after(outcome, registry);
            &&& action != Action::Listen ==> after == registry
            &&& action == Action::Listen ==> {
                &&& !after.devices.contains_key(id)
                &&& !after.nodes.contains(id)
                &&& after.defaults.sink is None
                &&& after.defaults.source is None
            }
        }),
{
}

/// A new connection has made no attempt and waits for nothing.
pub proof fn law_new_connection()
    ensures
        ConnectionView::initial().phase == Phase::Idle,
        ConnectionView::initial().tries == 0,
{
}

// Models.

/// The models of texts are their characters, and an absent text is an absent model.
pub proof fn law_models_of_texts(text: String, slice: &str, owned: &String, texts: Seq<String>)
    ensures
        string_view(Some(text)) == Some(text@),
        string_view(None) is None,
        str_view(Some(slice)) == Some(slice@),
        str_view(None) is None,
        opt_view(Some(owned)) == Some(owned@),
        opt_view(None) is None,
        texts_view(texts).len() == texts.len(),
        forall|i: int| 0 <= i < texts.len() ==> #[trigger] texts_view(texts)[i] == texts[i]@,
{
}

/// The models of devices, nodes and announced properties hold what these hold.
pub proof fn law_models_of_devices(
    info: VolInfo,
    node: NodeInfo,
    props: GlobalProps,
    defaults: Defaults,
)
    ensures
        info@.id == info.id,
        info@.kind == info.kind,
        info@.name == info.name@,
        info.description matches Some(text) ==> info@.description == Some(text@),
        info.description is None ==> info@.description is None,
        info@.volume_avg == info.volume_avg,
        info@.mute == info.mute,
        info@.channel_volumes == info.channel_volumes@,
        node@.id == node.id,
        node@.kind == node.kind,
        node@.name == node.name@,
        node.description matches Some(text) ==> node@.description == Some(text@),
        node.description is None ==> node@.description is None,
        props.media_class matches Some(text) ==> props@.media_class == Some(text@),
        props.media_class is None ==> props@.media_class is None,
        props.node_name matches Some(text) ==> props@.node_name == Some(text@),
        props.node_name is None ==> props@.node_name is None,
        props.node_description matches Some(text) ==> props@.node_description == Some(text@),
        props.node_description is None ==> props@.node_description is None,
        props.metadata_name matches Some(text) ==> props@.metadata_name == Some(text@),
        props.metadata_name is None ==> props@.metadata_name is None,
        defaults.sink matches Some(text) ==> defaults@.sink == Some(text@),
        defaults.sink is None ==> defaults@.sink is None,
        defaults.source matches Some(text) ==> defaults@.source == Some(text@),
        defaults.source is None ==> defaults@.source is None,
{
}

/// The models of values, properties and objects hold what these hold.
pub proof fn law_models_of_properties(value: PropValue, property: Property, object: PodObject)
    ensures
        value matches PropValue::Bool(state) ==> value@ == PropValueView::Bool(state),
        value matches PropValue::Float(bits) ==> value@ == PropValueView::Float(bits),
        value matches PropValue::Floats(bits) ==> value@ == PropValueView::Floats(bits@),
        value is Other ==> value@ is Other,
        property@.key == property.key,
        property@.flags == property.flags,
        property@.value == property.value@,
        object@.type_ == object.type_,
        object@.id == object.id,
        object@.properties.len() == object.properties@.len(),
        forall|i: int|
            0 <= i < object.properties@.len() ==> #[trigger] object@.properties[i]
                == object.properties@[i]@,
{
}

/// The models of what may be absent are absent if it is, and those of what is there otherwise.
pub proof fn law_models_of_optional_values(
    info: VolInfo,
    volumes: Vec<u32>,
    mute: bool,
    pod: &Pod,
    change: NodeChange,
    props: &GlobalProps,
)
    ensures
        info_view(Some(info)) == Some(info@),
        info_view(None) is None,
        props_view(Some((volumes, mute))) == Some((volumes@, mute)),
        props_view(None) is None,
        pod_view(Some(pod)) == Some(pod@),
        pod_view(None) is None,
        change_view(Some(change)) == Some((change.id, change.object@)),
        change_view(None) is None,
        global_props_view(Some(props)) == Some(props@),
        global_props_view(None) is None,
{
}

/// The models of values, targets and actions tell the same cases apart as these do.
pub proof fn law_models_of_cases(pod: Pod, target: DeviceTarget, action: GlobalAction)
    ensures
        pod matches Pod::Object(object) ==> pod@ == PodView::Object(object@),
        pod is Other ==> pod@ is Other,
        target is Default ==> target@ is Default,
        target matches DeviceTarget::ById(id) ==> target@ == DeviceTargetView::ById(id),
        target matches DeviceTarget::ByName(name) ==> target@ == DeviceTargetView::ByName(name@),
        action is Ignore ==> action@ is Ignore,
        action matches GlobalAction::BindNode(node) ==> action@ == GlobalActionView::BindNode(
            node@,
        ),
        action is BindMetadata ==> action@ is BindMetadata,
{
}

/// The models of requests and errors hold what these hold.
pub proof fn law_models_of_requests_and_errors(request: ClientRequest, error: SoundError)
    ensures
        request matches ClientRequest::SetVolume { id, volumes, mute } ==> request@
            == (ClientRequestView::SetVolume { id, volumes: volumes@, mute }),
        request matches ClientRequest::SetMute { id, mute } ==> request@
            == (ClientRequestView::SetMute { id, mute }),
        error matches SoundError::NotAvailable(reason) ==> error@ == SoundErrorView::NotAvailable(
            reason@,
        ),
        error matches SoundError::ConnectionFailed(reason) ==> error@
            == SoundErrorView::ConnectionFailed(reason@),
        error is InfoNotLoaded ==> error@ is InfoNotLoaded,
        error matches SoundError::DeviceNotFound { retries, available } ==> error@
            == (SoundErrorView::DeviceNotFound { retries, available: texts_view(available@) }),
{
}

} // verus!
