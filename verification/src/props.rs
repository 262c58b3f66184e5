//! The `Props` parameter of an audio node: its volumes and its mute state.
//!
//! A volume is a single-precision number. It is carried here as its IEEE 754 bit pattern, a
//! `u32`, and is never calculated with.

use vstd::prelude::*;

verus! {

/// The key of the property that holds one volume for all channels (`SPA_PROP_volume`).
pub const VOLUME_KEY: u32 = 0x10003;

/// The key of the property that holds the mute state (`SPA_PROP_mute`).
pub const MUTE_KEY: u32 = 0x10004;

/// The key of the property that holds one volume per channel (`SPA_PROP_channelVolumes`).
pub const CHANNEL_VOLUMES_KEY: u32 = 0x10008;

/// The type of an object of node properties (`SPA_TYPE_OBJECT_Props`).
pub const PROPS_OBJECT_TYPE: u32 = 0x40002;

/// The identifier of the parameter that holds node properties (`SPA_PARAM_Props`).
pub const PROPS_PARAM: u32 = 2;

/// The flags of a property that has none.
pub const NO_FLAGS: u32 = 0;

/// The value of a property, as far as volume control reads it.
#[derive(Debug)]
pub enum PropValue {
    Bool(bool),
    /// The bits of a single-precision number.
    Float(u32),
    /// The bits of an array of single-precision numbers.
    Floats(Vec<u32>),
    /// A value of any other type.
    Other,
}

/// A property of an object.
#[derive(Debug)]
pub struct Property {
    pub key: u32,
    /// The flags of the property, as a bit set.
    pub flags: u32,
    pub value: PropValue,
}

/// An object and its properties, in order.
#[derive(Debug)]
pub struct PodObject {
    pub type_: u32,
    pub id: u32,
    pub properties: Vec<Property>,
}

/// What a parameter holds.
#[derive(Debug)]
pub enum Pod {
    Object(PodObject),
    /// A value of any other type, or bytes that hold no value.
    Other,
}

/// The model of a [`PropValue`].
pub enum PropValueView {
    Bool(bool),
    Float(u32),
    Floats(Seq<u32>),
    Other,
}

/// The model of a [`Property`].
pub struct PropertyView {
    pub key: u32,
    pub flags: u32,
    pub value: PropValueView,
}

/// The model of a [`PodObject`].
pub struct PodObjectView {
    pub type_: u32,
    pub id: u32,
    pub properties: Seq<PropertyView>,
}

/// The model of a [`Pod`].
pub enum PodView {
    Object(PodObjectView),
    Other,
}

impl View for PropValue {
    type V = PropValueView;

    open spec fn view(&self) -> PropValueView {
        match self {
            PropValue::Bool(value) => PropValueView::Bool(*value),
            PropValue::Float(value) => PropValueView::Float(*value),
            PropValue::Floats(values) => PropValueView::Floats(values@),
            PropValue::Other => PropValueView::Other,
        }
    }
}

impl View for Property {
    type V = PropertyView;

    open spec fn view(&self) -> PropertyView {
        PropertyView { key: self.key, flags: self.flags, value: self.value@ }
    }
}

impl View for PodObject {
    type V = PodObjectView;

    open spec fn view(&self) -> PodObjectView {
        PodObjectView {
            type_: self.type_,
            id: self.id,
            properties: self.properties@.map_values(|property: Property| property@),
        }
    }
}

impl View for Pod {
    type V = PodView;

    open spec fn view(&self) -> PodView {
        match self {
            Pod::Object(object) => PodView::Object(object@),
            Pod::Other => PodView::Other,
        }
    }
}

impl PropertyView {
    /// The volumes that the property sets, if it is a volume property with a value of the
    /// fitting type.
    pub open spec fn volumes(self) -> Option<Seq<u32>> {
        if self.key == CHANNEL_VOLUMES_KEY && self.value is Floats {
            Some(self.value->Floats_0)
        } else if self.key == VOLUME_KEY && self.value is Float {
            Some(seq![self.value->Float_0])
        } else {
            None
        }
    }

    /// The mute state that the property sets, if it is the mute property with a boolean value.
    pub open spec fn mute(self) -> Option<bool> {
        if self.key == MUTE_KEY && self.value is Bool {
            Some(self.value->Bool_0)
        } else {
            None
        }
    }
}

/// The volumes that a list of properties sets: those of the last property that sets any.
pub open spec fn last_volumes(properties: Seq<PropertyView>) -> Option<Seq<u32>>
    decreases properties.len(),
{
    if properties.len() == 0 {
        None
    } else if properties.last().volumes() is Some {
        properties.last().volumes()
    } else {
        last_volumes(properties.drop_last())
    }
}

/// The mute state that a list of properties sets: that of the last property that sets any.
pub open spec fn last_mute(properties: Seq<PropertyView>) -> Option<bool>
    decreases properties.len(),
{
    if properties.len() == 0 {
        None
    } else if properties.last().mute() is Some {
        properties.last().mute()
    } else {
        last_mute(properties.drop_last())
    }
}

/// The volumes and the mute state that a value reports.
///
/// It reports something only if it is an object with a property that sets one of the two. No
/// volumes stand for the volumes, and `false` for the mute state, where only the other is set.
pub open spec fn reported_props(pod: PodView) -> Option<(Seq<u32>, bool)> {
    match pod {
        PodView::Object(object) => {
            let volumes = last_volumes(object.properties);
            let mute = last_mute(object.properties);
            if volumes is None && mute is None {
                None
            } else {
                Some(
                    (
                        if volumes is Some { volumes->0 } else { Seq::empty() },
                        if mute is Some { mute->0 } else { false },
                    ),
                )
            }
        },
        PodView::Other => None,
    }
}

/// The object that sets the mute state, where one is given, and the volume of each channel,
/// where there are any. No property has flags.
pub open spec fn props_object(volumes: Seq<u32>, mute: Option<bool>) -> PodObjectView {
    let mute_part = match mute {
        Some(mute) => seq![
            PropertyView { key: MUTE_KEY, flags: NO_FLAGS, value: PropValueView::Bool(mute) },
        ],
        None => Seq::empty(),
    };
    let volume_part = if volumes.len() > 0 {
        seq![
            PropertyView {
                key: CHANNEL_VOLUMES_KEY,
                flags: NO_FLAGS,
                value: PropValueView::Floats(volumes),
            },
        ]
    } else {
        Seq::empty()
    };
    PodObjectView {
        type_: PROPS_OBJECT_TYPE,
        id: PROPS_PARAM,
        properties: mute_part + volume_part,
    }
}

/// The volumes and the mute state that a parameter reports, if it is the `Props` parameter, has
/// a value, and reports any.
pub open spec fn param_props(param: u32, pod: Option<PodView>) -> Option<(Seq<u32>, bool)> {
    if param == PROPS_PARAM && pod is Some {
        reported_props(pod->0)
    } else {
        None
    }
}

/// The model of an optional list of volumes with a mute state.
pub open spec fn props_view(props: Option<(Vec<u32>, bool)>) -> Option<(Seq<u32>, bool)> {
    match props {
        Some((volumes, mute)) => Some((volumes@, mute)),
        None => None,
    }
}

/// The model of an optional value.
pub open spec fn pod_view(pod: Option<&Pod>) -> Option<PodView> {
    match pod {
        Some(pod) => Some(pod@),
        None => None,
    }
}

/// Reading back the properties that were built gives the volumes and the mute state that they
/// were built from: an absent mute state reads as `false`, and where there was neither a volume
/// nor a mute state, nothing is read.
pub proof fn law_props_round_trip(volumes: Seq<u32>, mute: Option<bool>)
    ensures
        reported_props(PodView::Object(props_object(volumes, mute))) == (if volumes.len() == 0
            && mute is None {
            None
        } else {
            Some((volumes, mute == Some(true)))
        }),
{
    reveal_with_fuel(last_volumes, 3);
    reveal_with_fuel(last_mute, 3);
    if volumes.len() == 0 {
        assert(volumes =~= Seq::empty());
    }
}

/// Copies a list of volumes.
pub(crate) fn copy_volumes(volumes: &Vec<u32>) -> (copy: Vec<u32>)
    ensures
        copy@ == volumes@,
{
    let copy = volumes.clone();
    assert(copy@ =~= volumes@);
    copy
}

/// Reads the volumes and the mute state out of a value. Of several properties that set the same
/// thing the last one counts, and a property with a value of another type is passed over.
pub fn parse_props(pod: &Pod) -> (props: Option<(Vec<u32>, bool)>)
    ensures
        props_view(props) == reported_props(pod@),
{
    let object = match pod {
        Pod::Object(object) => object,
        Pod::Other => {
            return None;
        },
    };
    let mut volumes: Option<Vec<u32>> = None;
    let mut mute: Option<bool> = None;
    let ghost properties = object@.properties;
    let mut i: usize = 0;
    assert(properties.take(0) =~= Seq::empty());
    while i < object.properties.len()
        invariant
            i <= object.properties.len(),
            properties == object@.properties,
            last_volumes(properties.take(i as int)) == (match volumes {
                Some(values) => Some(values@),
                None => None,
            }),
            last_mute(properties.take(i as int)) == mute,
        decreases object.properties.len() - i,
    {
        let property = &object.properties[i];
        proof {
            assert(properties[i as int] == property@);
            assert(properties.take(i + 1).drop_last() =~= properties.take(i as int));
            assert(properties.take(i + 1).last() == property@);
        }
        if property.key == CHANNEL_VOLUMES_KEY {
            if let PropValue::Floats(values) = &property.value {
                volumes = Some(copy_volumes(values));
            }
        } else if property.key == VOLUME_KEY {
            if let PropValue::Float(value) = &property.value {
                let single: Vec<u32> = vec![*value];
                assert(single@ =~= seq![*value]);
                volumes = Some(single);
            }
        } else if property.key == MUTE_KEY {
            if let PropValue::Bool(value) = &property.value {
                mute = Some(*value);
            }
        }
        i = i + 1;
    }
    assert(properties.take(i as int) =~= properties);
    if volumes.is_none() && mute.is_none() {
        return None;
    }
    let volumes = match volumes {
        Some(values) => values,
        None => Vec::new(),
    };
    let mute = match mute {
        Some(value) => value,
        None => false,
    };
    Some((volumes, mute))
}

/// Reads the volumes and the mute state out of a changed parameter. Nothing is read from a
/// parameter other than `Props`, or from one without a value.
pub fn accept_param(param: u32, pod: Option<&Pod>) -> (props: Option<(Vec<u32>, bool)>)
    ensures
        props_view(props) == param_props(param, pod_view(pod)),
{
    if param != PROPS_PARAM {
        return None;
    }
    match pod {
        Some(pod) => parse_props(pod),
        None => None,
    }
}

/// Builds the properties that set the mute state, where one is given, and the channel volumes,
/// where there are any.
pub fn build_props(volumes: &Vec<u32>, mute: Option<bool>) -> (object: PodObject)
    ensures
        object@ == props_object(volumes@, mute),
{
    let mut properties: Vec<Property> = Vec::new();
    if let Some(mute) = mute {
        properties.push(
            Property { key: MUTE_KEY, flags: NO_FLAGS, value: PropValue::Bool(mute) },
        );
    }
    if volumes.len() > 0 {
        let value = PropValue::Floats(copy_volumes(volumes));
        properties.push(Property { key: CHANNEL_VOLUMES_KEY, flags: NO_FLAGS, value });
    }
    let object = PodObject { type_: PROPS_OBJECT_TYPE, id: PROPS_PARAM, properties };
    assert(object@.properties =~= props_object(volumes@, mute).properties);
    object
}

/// The average volume, in percent, of a node with the given channel volumes. `mean` is the
/// percentage that their mean stands for; without channels the average is zero.
pub fn volume_avg(volumes: &Vec<u32>, mean: u32) -> (average: u32)
    ensures
        average == (if volumes@.len() == 0 {
            0
        } else {
            mean
        }),
{
    if volumes.len() == 0 {
        0
    } else {
        mean
    }
}

} // verus!
