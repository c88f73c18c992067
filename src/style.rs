//! Style tokens and layout values carried by the widget tree. A theme turns
//! the tokens into colours and borders when the tree is painted.

use vstd::prelude::*;

verus! {

/// Look of a badge.
#[derive(Clone, Copy, Debug, PartialEq, Eq, Structural)]
pub enum BadgeStyle {
    Standard,
    Bitcoin,
}

/// Look of a pill-shaped label.
#[derive(Clone, Copy, Debug, PartialEq, Eq, Structural)]
pub enum PillStyle {
    Simple,
}

/// Look of a card, the backdrop of a tooltip.
#[derive(Clone, Copy, Debug, PartialEq, Eq, Structural)]
pub enum CardStyle {
    Simple,
}

/// Style of a container: which family of look it takes, and which member.
#[derive(Clone, Copy, Debug, PartialEq, Eq, Structural)]
pub enum ContainerStyle {
    Badge(BadgeStyle),
    Pill(PillStyle),
    Card(CardStyle),
}

/// A length along one axis: as small as the content allows, as large as the
/// parent allows, or a fixed number of logical units.
#[derive(Clone, Copy, Debug, PartialEq, Eq, Structural)]
pub enum Length {
    Shrink,
    Fill,
    Units(u16),
}

/// Where a tooltip appears relative to what it describes.
#[derive(Clone, Copy, Debug, PartialEq, Eq, Structural)]
pub enum TooltipPosition {
    Top,
    Bottom,
    Left,
    Right,
    FollowCursor,
}

/// Size class of a text element.
#[derive(Clone, Copy, Debug, PartialEq, Eq, Structural)]
pub enum TextSize {
    Regular,
    Small,
}

/// A glyph that the icon font provides.
#[derive(Clone, Copy, Debug, PartialEq, Eq, Structural)]
pub enum Icon {
    Receive,
    Send,
    Coin,
}

} // verus!
