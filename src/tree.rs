//! The widget tree: a framework-agnostic description of nested widgets, and
//! its mathematical model, in which text is a sequence of characters.

use vstd::prelude::*;

use crate::style::{ContainerStyle, Icon, Length, TextSize, TooltipPosition};

verus! {

/// One widget and, for the wrapping kinds, the widget it holds.
#[derive(Debug, PartialEq, Eq)]
pub enum Node {
    /// A glyph of the icon font.
    Icon { icon: Icon, width: Length },
    /// A run of text.
    Text { content: String, size: TextSize },
    /// A box around one child, with its own size, padding, style and alignment.
    Container {
        content: Box<Node>,
        width: Length,
        height: Length,
        padding: u16,
        style: Option<ContainerStyle>,
        center_x: bool,
        center_y: bool,
    },
    /// A child that shows `tip` when hovered, in a bubble styled by `style`.
    Tooltip {
        content: Box<Node>,
        tip: String,
        position: TooltipPosition,
        style: Option<ContainerStyle>,
    },
}

/// The model of a `Node`: the same tree, with text as `Seq<char>`.
pub enum NodeModel {
    Icon { icon: Icon, width: Length },
    Text { content: Seq<char>, size: TextSize },
    Container {
        content: Box<NodeModel>,
        width: Length,
        height: Length,
        padding: u16,
        style: Option<ContainerStyle>,
        center_x: bool,
        center_y: bool,
    },
    Tooltip {
        content: Box<NodeModel>,
        tip: Seq<char>,
        position: TooltipPosition,
        style: Option<ContainerStyle>,
    },
}

/// The model of a tree, node by node.
pub open spec fn model_of(n: &Node) -> NodeModel
    decreases n,
{
    match n {
        Node::Icon { icon, width } => NodeModel::Icon { icon: *icon, width: *width },
        Node::Text { content, size } => NodeModel::Text { content: content@, size: *size },
        Node::Container { content, width, height, padding, style, center_x, center_y } => {
            NodeModel::Container {
                content: Box::new(model_of(&**content)),
                width: *width,
                height: *height,
                padding: *padding,
                style: *style,
                center_x: *center_x,
                center_y: *center_y,
            }
        },
        Node::Tooltip { content, tip, position, style } => NodeModel::Tooltip {
            content: Box::new(model_of(&**content)),
            tip: tip@,
            position: *position,
            style: *style,
        },
    }
}

impl View for Node {
    type V = NodeModel;

    open spec fn view(&self) -> NodeModel {
        model_of(self)
    }
}

impl Node {
    /// A container of `content` with the layout defaults: shrunk to its
    /// content, no padding, the default style, aligned to the top left.
    pub fn container(content: Node) -> (r: Node)
        ensures
            r@ == (NodeModel::Container {
                content: Box::new(content@),
                width: Length::Shrink,
                height: Length::Shrink,
                padding: 0,
                style: None,
                center_x: false,
                center_y: false,
            }),
    {
        Node::Container {
            content: Box::new(content),
            width: Length::Shrink,
            height: Length::Shrink,
            padding: 0,
            style: None,
            center_x: false,
            center_y: false,
        }
    }
}

} // verus!
