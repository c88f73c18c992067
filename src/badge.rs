//! Badges (an icon centred in a fixed square) and status labels (a short
//! text in a pill, with an explanation in a tooltip).

use vstd::prelude::*;
use vstd::string::StringExecFns;

use crate::style::{BadgeStyle, CardStyle, ContainerStyle, Icon, Length, PillStyle, TextSize, TooltipPosition};
use crate::tree::{Node, NodeModel};

verus! {

/// Side of the square that holds a badge's icon, in logical units.
pub const BADGE_SIZE: u16 = 40;

/// Width of the icon inside a badge, in logical units.
pub const BADGE_ICON_WIDTH: u16 = 20;

/// Space between a status label's text and the edge of its pill.
pub const PILL_PADDING: u16 = 3;

/// The tree of a badge: the icon, `BADGE_ICON_WIDTH` wide, centred in a
/// `BADGE_SIZE` square that carries the badge style.
pub open spec fn badge_tree(icon: Icon, style: BadgeStyle) -> NodeModel {
    NodeModel::Container {
        content: Box::new(NodeModel::Icon { icon, width: Length::Units(BADGE_ICON_WIDTH) }),
        width: Length::Units(BADGE_SIZE),
        height: Length::Units(BADGE_SIZE),
        padding: 0,
        style: Some(ContainerStyle::Badge(style)),
        center_x: true,
        center_y: true,
    }
}

/// The node whose model is `badge_tree(icon, style)`.
pub open spec fn badge_node(icon: Icon, style: BadgeStyle) -> Node {
    Node::Container {
        content: Box::new(Node::Icon { icon, width: Length::Units(BADGE_ICON_WIDTH) }),
        width: Length::Units(BADGE_SIZE),
        height: Length::Units(BADGE_SIZE),
        padding: 0,
        style: Some(ContainerStyle::Badge(style)),
        center_x: true,
        center_y: true,
    }
}

/// The tree of a status label: a plain container around a tooltip that
/// shows `tip` above, in a card, a pill padded by `PILL_PADDING` that holds
/// `text` in the small size.
pub open spec fn label_tree(text: Seq<char>, tip: Seq<char>) -> NodeModel {
    NodeModel::Container {
        content: Box::new(NodeModel::Tooltip {
            content: Box::new(NodeModel::Container {
                content: Box::new(NodeModel::Text { content: text, size: TextSize::Small }),
                width: Length::Shrink,
                height: Length::Shrink,
                padding: PILL_PADDING,
                style: Some(ContainerStyle::Pill(PillStyle::Simple)),
                center_x: false,
                center_y: false,
            }),
            tip,
            position: TooltipPosition::Top,
            style: Some(ContainerStyle::Card(CardStyle::Simple)),
        }),
        width: Length::Shrink,
        height: Length::Shrink,
        padding: 0,
        style: None,
        center_x: false,
        center_y: false,
    }
}

/// An icon together with the style of the square it is shown in.
#[derive(Clone, Copy, Debug, PartialEq, Eq, Structural)]
pub struct Badge {
    icon: Icon,
    style: BadgeStyle,
}

impl Badge {
    /// The icon that the badge shows.
    pub closed spec fn icon_of(self) -> Icon {
        self.icon
    }

    /// The style of the badge's square.
    pub closed spec fn style_of(self) -> BadgeStyle {
        self.style
    }

    /// A badge of `icon` in the standard style.
    pub fn new(icon: Icon) -> (r: Badge)
        ensures
            r.icon_of() == icon,
            r.style_of() == BadgeStyle::Standard,
    {
        Badge { icon, style: BadgeStyle::Standard }
    }

    /// The same badge in `style`. The badge is taken by value, so a copy held
    /// elsewhere keeps its own style.
    pub fn style(self, style: BadgeStyle) -> (r: Badge)
        ensures
            r.icon_of() == self.icon_of(),
            r.style_of() == style,
    {
        Badge { icon: self.icon, style }
    }

    /// The icon that the badge shows.
    pub fn icon(&self) -> (r: Icon)
        ensures
            r == self.icon_of(),
    {
        self.icon
    }

    /// The style of the badge's square.
    pub fn badge_style(&self) -> (r: BadgeStyle)
        ensures
            r == self.style_of(),
    {
        self.style
    }

    /// The widget tree that shows the badge.
    pub fn to_element(self) -> (r: Node)
        ensures
            r@ == badge_tree(self.icon_of(), self.style_of()),
            r == badge_node(self.icon_of(), self.style_of()),
    {
        proof {
            reveal_with_fuel(crate::tree::model_of, 2);
        }
        Node::Container {
            content: Box::new(Node::Icon { icon: self.icon, width: Length::Units(BADGE_ICON_WIDTH) }),
            width: Length::Units(BADGE_SIZE),
            height: Length::Units(BADGE_SIZE),
            padding: 0,
            style: Some(ContainerStyle::Badge(self.style)),
            center_x: true,
            center_y: true,
        }
    }
}

/// A status label: `text` in a small padded pill that shows `tip` above it
/// when hovered.
pub fn status_label(text: &str, tip: &str) -> (r: Node)
    ensures
        r@ == label_tree(text@, tip@),
{
    let pill = Node::Container {
        content: Box::new(Node::Text { content: String::from_str(text), size: TextSize::Small }),
        width: Length::Shrink,
        height: Length::Shrink,
        padding: PILL_PADDING,
        style: Some(ContainerStyle::Pill(PillStyle::Simple)),
        center_x: false,
        center_y: false,
    };
    let r = Node::container(Node::Tooltip {
        content: Box::new(pill),
        tip: String::from_str(tip),
        position: TooltipPosition::Top,
        style: Some(ContainerStyle::Card(CardStyle::Simple)),
    });
    proof {
        reveal_with_fuel(crate::tree::model_of, 4);
    }
    r
}

impl From<Badge> for Node {
    fn from(badge: Badge) -> (r: Node) {
        badge.to_element()
    }
}

impl vstd::std_specs::convert::FromSpecImpl<Badge> for Node {
    open spec fn obeys_from_spec() -> bool {
        true
    }

    open spec fn from_spec(badge: Badge) -> Node {
        badge_node(badge.icon_of(), badge.style_of())
    }
}

/// The standard badge of the icon for incoming payments.
pub fn receive() -> (r: Node)
    ensures
        r@ == badge_tree(Icon::Receive, BadgeStyle::Standard),
{
    Badge::new(Icon::Receive).to_element()
}

/// The standard badge of the icon for outgoing payments.
pub fn spend() -> (r: Node)
    ensures
        r@ == badge_tree(Icon::Send, BadgeStyle::Standard),
{
    Badge::new(Icon::Send).to_element()
}

/// The standard badge of the icon for coins.
pub fn coin() -> (r: Node)
    ensures
        r@ == badge_tree(Icon::Coin, BadgeStyle::Standard),
{
    Badge::new(Icon::Coin).to_element()
}

/// The label of a transaction that is not yet confirmed.
pub fn unconfirmed() -> (r: Node)
    ensures
        r@ == label_tree("  Unconfirmed  "@, "Do not treat this as a payment until it is confirmed"@),
{
    status_label("  Unconfirmed  ", "Do not treat this as a payment until it is confirmed")
}

/// The label of a spend that can no longer be included in a block.
pub fn deprecated() -> (r: Node)
    ensures
        r@ == label_tree("  Deprecated  "@, "This spend cannot be included anymore in the blockchain"@),
{
    status_label("  Deprecated  ", "This spend cannot be included anymore in the blockchain")
}

/// The label of a spend that was included in a block.
pub fn spent() -> (r: Node)
    ensures
        r@ == label_tree("  Spent  "@, "The spend transaction was included in the blockchain"@),
{
    status_label("  Spent  ", "The spend transaction was included in the blockchain")
}

/// The icon that a badge tree shows: the icon held directly by its outer
/// container, if there is one.
pub open spec fn embedded_icon(m: NodeModel) -> Option<Icon> {
    match m {
        NodeModel::Container { content, .. } => match *content {
            NodeModel::Icon { icon, .. } => Some(icon),
            _ => None,
        },
        _ => None,
    }
}

/// Whatever the icon and the style, a badge is a 40 by 40 square in that
/// style, centred on both axes, holding that icon 20 units wide.
pub proof fn lemma_badge_layout(icon: Icon, style: BadgeStyle)
    ensures
        badge_tree(icon, style) matches NodeModel::Container { content, width, height, style: s, center_x, center_y, .. }
            && width == Length::Units(40) && height == Length::Units(40)
            && s == Some(ContainerStyle::Badge(style)) && center_x && center_y
            && *content == (NodeModel::Icon { icon, width: Length::Units(20) }),
{
}

/// Two badge trees are equal exactly when they were built from the same icon
/// and the same style: building twice gives equal trees, and no two inputs
/// share a tree.
pub proof fn lemma_badge_tree_injective(i1: Icon, s1: BadgeStyle, i2: Icon, s2: BadgeStyle)
    ensures
        badge_tree(i1, s1) == badge_tree(i2, s2) <==> (i1 == i2 && s1 == s2),
{
    if badge_tree(i1, s1) == badge_tree(i2, s2) {
        assert(embedded_icon(badge_tree(i1, s1)) == Some(i1));
        assert(embedded_icon(badge_tree(i2, s2)) == Some(i2));
    }
}

/// Two status label trees are equal exactly when they were built from the
/// same text and the same tooltip.
pub proof fn lemma_label_tree_injective(t1: Seq<char>, p1: Seq<char>, t2: Seq<char>, p2: Seq<char>)
    ensures
        label_tree(t1, p1) == label_tree(t2, p2) <==> (t1 == t2 && p1 == p2),
{
}

/// A status label shows its text in the small size inside a pill padded by
/// 3 units, and its tooltip above it in a card.
pub proof fn lemma_label_layout(text: Seq<char>, tip: Seq<char>)
    ensures
        ({
            &&& label_tree(text, tip) matches NodeModel::Container { content: outer, style: None, .. }
            &&& *outer matches NodeModel::Tooltip { content: pill, tip: t, position, style: card }
            &&& t == tip
            &&& position == TooltipPosition::Top
            &&& card == Some(ContainerStyle::Card(CardStyle::Simple))
            &&& *pill matches NodeModel::Container { content: label, padding, style, .. }
            &&& padding == 3
            &&& style == Some(ContainerStyle::Pill(PillStyle::Simple))
            &&& *label == (NodeModel::Text { content: text, size: TextSize::Small })
        }),
{
}

/// The receive, spend and coin badges show the receive, send and coin icons,
/// so no two of them are the same tree.
pub proof fn lemma_standard_badges_distinct()
    ensures
        embedded_icon(badge_tree(Icon::Receive, BadgeStyle::Standard)) == Some(Icon::Receive),
        embedded_icon(badge_tree(Icon::Send, BadgeStyle::Standard)) == Some(Icon::Send),
        embedded_icon(badge_tree(Icon::Coin, BadgeStyle::Standard)) == Some(Icon::Coin),
        badge_tree(Icon::Receive, BadgeStyle::Standard) != badge_tree(Icon::Send, BadgeStyle::Standard),
        badge_tree(Icon::Receive, BadgeStyle::Standard) != badge_tree(Icon::Coin, BadgeStyle::Standard),
        badge_tree(Icon::Send, BadgeStyle::Standard) != badge_tree(Icon::Coin, BadgeStyle::Standard),
{
    lemma_badge_tree_injective(Icon::Receive, BadgeStyle::Standard, Icon::Send, BadgeStyle::Standard);
    lemma_badge_tree_injective(Icon::Receive, BadgeStyle::Standard, Icon::Coin, BadgeStyle::Standard);
    lemma_badge_tree_injective(Icon::Send, BadgeStyle::Standard, Icon::Coin, BadgeStyle::Standard);
}

} // verus!
