//! The objects that the server announces, and which of them matter for volume control.

use vstd::prelude::*;

use crate::defaults::string_view;
use crate::kind::DeviceKind;
use crate::text::{decimal_text, same_text, u32_text};

verus! {

/// The type of an announced object.
#[derive(Clone, Copy, Debug, PartialEq, Eq, Structural)]
pub enum ObjectKind {
    Node,
    Metadata,
    /// Any other type.
    Other,
}

/// The properties of an announced object that decide what becomes of it.
#[derive(Debug)]
pub struct GlobalProps {
    /// The property `media.class`.
    pub media_class: Option<String>,
    /// The property `node.name`.
    pub node_name: Option<String>,
    /// The property `node.description`.
    pub node_description: Option<String>,
    /// The property `metadata.name`.
    pub metadata_name: Option<String>,
}

/// An audio node.
#[derive(Debug)]
pub struct NodeInfo {
    pub id: u32,
    pub kind: DeviceKind,
    pub name: String,
    pub description: Option<String>,
}

/// What to do with an announced object.
#[derive(Debug)]
pub enum GlobalAction {
    /// Pass it over.
    Ignore,
    /// Bind the node and watch its parameters.
    BindNode(NodeInfo),
    /// Bind the metadata object and watch its properties.
    BindMetadata,
}

/// The model of [`GlobalProps`].
pub struct GlobalPropsView {
    pub media_class: Option<Seq<char>>,
    pub node_name: Option<Seq<char>>,
    pub node_description: Option<Seq<char>>,
    pub metadata_name: Option<Seq<char>>,
}

/// The model of a [`NodeInfo`].
pub struct NodeInfoView {
    pub id: u32,
    pub kind: DeviceKind,
    pub name: Seq<char>,
    pub description: Option<Seq<char>>,
}

/// The model of a [`GlobalAction`].
pub enum GlobalActionView {
    Ignore,
    BindNode(NodeInfoView),
    BindMetadata,
}

impl View for GlobalProps {
    type V = GlobalPropsView;

    open spec fn view(&self) -> GlobalPropsView {
        GlobalPropsView {
            media_class: string_view(self.media_class),
            node_name: string_view(self.node_name),
            node_description: string_view(self.node_description),
            metadata_name: string_view(self.metadata_name),
        }
    }
}

impl View for NodeInfo {
    type V = NodeInfoView;

    open spec fn view(&self) -> NodeInfoView {
        NodeInfoView {
            id: self.id,
            kind: self.kind,
            name: self.name@,
            description: string_view(self.description),
        }
    }
}

impl View for GlobalAction {
    type V = GlobalActionView;

    open spec fn view(&self) -> GlobalActionView {
        match self {
            GlobalAction::Ignore => GlobalActionView::Ignore,
            GlobalAction::BindNode(node) => GlobalActionView::BindNode(node@),
            GlobalAction::BindMetadata => GlobalActionView::BindMetadata,
        }
    }
}

/// The kind of device that a media class stands for.
pub open spec fn kind_of_class(media_class: Option<Seq<char>>) -> Option<DeviceKind> {
    if media_class == Some("Audio/Sink"@) {
        Some(DeviceKind::Sink)
    } else if media_class == Some("Audio/Source"@) {
        Some(DeviceKind::Source)
    } else {
        None
    }
}

/// The name of a node: the one that it was announced with, or else `node_` and its identifier.
pub open spec fn name_of_node(id: u32, node_name: Option<Seq<char>>) -> Seq<char> {
    match node_name {
        Some(name) => name,
        None => "node_"@ + decimal_text(id as nat),
    }
}

/// What to do with an announced object: audio sinks and sources are bound as nodes, the metadata
/// object named `default` is bound as metadata, and everything else is passed over.
pub open spec fn action_for(
    id: u32,
    object: ObjectKind,
    props: Option<GlobalPropsView>,
) -> GlobalActionView {
    match props {
        None => GlobalActionView::Ignore,
        Some(props) => match object {
            ObjectKind::Node => match kind_of_class(props.media_class) {
                Some(kind) => GlobalActionView::BindNode(
                    NodeInfoView {
                        id,
                        kind,
                        name: name_of_node(id, props.node_name),
                        description: props.node_description,
                    },
                ),
                None => GlobalActionView::Ignore,
            },
            ObjectKind::Metadata => if props.metadata_name == Some("default"@) {
                GlobalActionView::BindMetadata
            } else {
                GlobalActionView::Ignore
            },
            ObjectKind::Other => GlobalActionView::Ignore,
        },
    }
}

/// The model of optional properties.
pub open spec fn global_props_view(props: Option<&GlobalProps>) -> Option<GlobalPropsView> {
    match props {
        Some(props) => Some(props@),
        None => None,
    }
}

/// Copies an optional text.
pub(crate) fn copy_text(text: &Option<String>) -> (copy: Option<String>)
    ensures
        string_view(copy) == string_view(*text),
{
    match text {
        Some(text) => Some(text.clone()),
        None => None,
    }
}

/// The kind of device that a media class stands for.
fn device_kind(media_class: &Option<String>) -> (kind: Option<DeviceKind>)
    ensures
        kind == kind_of_class(string_view(*media_class)),
{
    match media_class {
        Some(class) => if same_text(class.as_str(), "Audio/Sink") {
            Some(DeviceKind::Sink)
        } else if same_text(class.as_str(), "Audio/Source") {
            Some(DeviceKind::Source)
        } else {
            None
        },
        None => None,
    }
}

/// The name of a node.
fn node_name(id: u32, announced: &Option<String>) -> (name: String)
    ensures
        name@ == name_of_node(id, string_view(*announced)),
{
    match announced {
        Some(name) => name.clone(),
        None => {
            let mut name = "node_".to_string();
            name.append(u32_text(id).as_str());
            name
        },
    }
}

/// Decides what to do with an announced object.
pub fn classify_global(id: u32, object: ObjectKind, props: Option<&GlobalProps>) -> (action:
    GlobalAction)
    ensures
        action@ == action_for(id, object, global_props_view(props)),
{
    let props = match props {
        Some(props) => props,
        None => {
            return GlobalAction::Ignore;
        },
    };
    match object {
        ObjectKind::Node => match device_kind(&props.media_class) {
            Some(kind) => GlobalAction::BindNode(
                NodeInfo {
                    id,
                    kind,
                    name: node_name(id, &props.node_name),
                    description: copy_text(&props.node_description),
                },
            ),
            None => GlobalAction::Ignore,
        },
        ObjectKind::Metadata => match &props.metadata_name {
            Some(name) => if same_text(name.as_str(), "default") {
                GlobalAction::BindMetadata
            } else {
                GlobalAction::Ignore
            },
            None => GlobalAction::Ignore,
        },
        ObjectKind::Other => GlobalAction::Ignore,
    }
}

} // verus!
