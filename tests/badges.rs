use liana_ui::badge::{coin, deprecated, receive, spend, spent, status_label, unconfirmed, Badge};
use liana_ui::style::{BadgeStyle, CardStyle, ContainerStyle, Icon, Length, PillStyle, TextSize, TooltipPosition};
use liana_ui::tree::Node;

/// The icon, its width, the square's width and height, and its style.
fn badge_parts(n: &Node) -> (Icon, Length, Length, Length, Option<ContainerStyle>) {
    match n {
        Node::Container { content, width, height, padding, style, center_x, center_y } => {
            assert_eq!(*padding, 0);
            assert!(*center_x && *center_y);
            match &**content {
                Node::Icon { icon, width: icon_width } => (*icon, *icon_width, *width, *height, *style),
                other => panic!("badge holds {:?}", other),
            }
        }
        other => panic!("badge is {:?}", other),
    }
}

/// The label's text, the tooltip's text and the tooltip's position.
fn label_parts(n: &Node) -> (String, String, TooltipPosition) {
    let Node::Container { content, style: None, padding: 0, .. } = n else {
        panic!("label is {:?}", n)
    };
    let Node::Tooltip { content: pill, tip, position, style } = &**content else {
        panic!("label holds {:?}", content)
    };
    assert_eq!(*style, Some(ContainerStyle::Card(CardStyle::Simple)));
    let Node::Container { content: text, padding, style: pill_style, .. } = &**pill else {
        panic!("tooltip holds {:?}", pill)
    };
    assert_eq!(*padding, 3);
    assert_eq!(*pill_style, Some(ContainerStyle::Pill(PillStyle::Simple)));
    let Node::Text { content, size } = &**text else {
        panic!("pill holds {:?}", text)
    };
    assert_eq!(*size, TextSize::Small);
    (content.clone(), tip.clone(), *position)
}

#[test]
fn new_badge_has_standard_style() {
    let b = Badge::new(Icon::Send);
    assert_eq!(b.icon(), Icon::Send);
    assert_eq!(b.badge_style(), BadgeStyle::Standard);
}

#[test]
fn styled_badge_layout() {
    for icon in [Icon::Receive, Icon::Send, Icon::Coin] {
        for style in [BadgeStyle::Standard, BadgeStyle::Bitcoin] {
            let n = Badge::new(icon).style(style).to_element();
            let (i, icon_width, width, height, s) = badge_parts(&n);
            assert_eq!(i, icon);
            assert_eq!(icon_width, Length::Units(20));
            assert_eq!(width, Length::Units(40));
            assert_eq!(height, Length::Units(40));
            assert_eq!(s, Some(ContainerStyle::Badge(style)));
        }
    }
}

#[test]
fn restyle_leaves_copy_unchanged() {
    let b = Badge::new(Icon::Coin);
    let copy = b;
    let restyled = b.style(BadgeStyle::Bitcoin);
    assert_eq!(restyled.badge_style(), BadgeStyle::Bitcoin);
    assert_eq!(restyled.icon(), Icon::Coin);
    let (_, _, _, _, s) = badge_parts(&copy.to_element());
    assert_eq!(s, Some(ContainerStyle::Badge(BadgeStyle::Standard)));
}

#[test]
fn from_badge_matches_to_element() {
    let b = Badge::new(Icon::Receive).style(BadgeStyle::Bitcoin);
    assert_eq!(Node::from(b), b.to_element());
}

#[test]
fn unconfirmed_label_text() {
    let (text, tip, position) = label_parts(&unconfirmed());
    assert_eq!(text, "  Unconfirmed  ");
    assert_eq!(tip, "Do not treat this as a payment until it is confirmed");
    assert_eq!(position, TooltipPosition::Top);
}

#[test]
fn deprecated_label_text() {
    let (text, tip, position) = label_parts(&deprecated());
    assert_eq!(text, "  Deprecated  ");
    assert_eq!(tip, "This spend cannot be included anymore in the blockchain");
    assert_eq!(position, TooltipPosition::Top);
}

#[test]
fn spent_label_text() {
    let (text, tip, position) = label_parts(&spent());
    assert_eq!(text, "  Spent  ");
    assert_eq!(tip, "The spend transaction was included in the blockchain");
    assert_eq!(position, TooltipPosition::Top);
}

#[test]
fn status_label_keeps_its_strings() {
    let (text, tip, position) = label_parts(&status_label("Pending", "Waiting for signatures"));
    assert_eq!(text, "Pending");
    assert_eq!(tip, "Waiting for signatures");
    assert_eq!(position, TooltipPosition::Top);
}

#[test]
fn status_label_with_empty_strings() {
    let (text, tip, _) = label_parts(&status_label("", ""));
    assert_eq!(text, "");
    assert_eq!(tip, "");
}

#[test]
fn factories_are_deterministic() {
    assert_eq!(receive(), receive());
    assert_eq!(spend(), spend());
    assert_eq!(coin(), coin());
    assert_eq!(unconfirmed(), unconfirmed());
    assert_eq!(deprecated(), deprecated());
    assert_eq!(spent(), spent());
    let b = Badge::new(Icon::Coin).style(BadgeStyle::Bitcoin);
    assert_eq!(b.to_element(), b.to_element());
    assert_eq!(status_label("a", "b"), status_label("a", "b"));
}

#[test]
fn standard_badges_bind_distinct_icons() {
    let (r, ..) = badge_parts(&receive());
    let (s, ..) = badge_parts(&spend());
    let (c, ..) = badge_parts(&coin());
    assert_eq!(r, Icon::Receive);
    assert_eq!(s, Icon::Send);
    assert_eq!(c, Icon::Coin);
    assert_ne!(receive(), spend());
    assert_ne!(receive(), coin());
    assert_ne!(spend(), coin());
    let (_, _, _, _, style) = badge_parts(&coin());
    assert_eq!(style, Some(ContainerStyle::Badge(BadgeStyle::Standard)));
}

#[test]
fn labels_differ_by_kind() {
    assert_ne!(unconfirmed(), deprecated());
    assert_ne!(deprecated(), spent());
    assert_ne!(unconfirmed(), spent());
}
