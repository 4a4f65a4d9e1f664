//! The element tree that a layout renders to.
//!
//! An [`Element`] describes one container: its identity, its style, whether
//! it takes file drops, and its children in paint order. A child is either a
//! nested element or a content item, named by its handle. The description
//! holds plain values only; a host turns it into its own widgets.

use crate::style::{ElementId, ElementIdView, Hsla, Length};
use vstd::prelude::*;

verus! {

/// The main axis of a flex container.
#[derive(Clone, Copy, Debug, PartialEq, Eq, Structural)]
pub enum Axis {
    /// Children run left to right.
    Row,
    /// Children run top to bottom.
    Column,
}

/// How an element shares its parent's main axis with its siblings.
#[derive(Clone, Copy, Debug, PartialEq, Eq, Structural)]
pub enum FlexSizing {
    /// Nothing is said; the host's default holds.
    Unset,
    /// The element keeps its own size: it may shrink, and it never grows.
    Initial,
    /// The element grows and shrinks to fill the room that is left.
    Fill,
}

/// How an element is placed.
#[derive(Clone, Copy, Debug, PartialEq, Eq, Structural)]
pub enum Position {
    /// In the flow, and the frame of reference for absolute children.
    Relative,
    /// Out of the flow, placed by its insets against the nearest positioned
    /// ancestor.
    Absolute,
}

/// The style of one element. `None` means that nothing is said of the
/// property.
#[derive(Clone, Copy, Debug, PartialEq, Eq)]
pub struct Style {
    /// Whether the element lays its children out as a flex container.
    pub flex: bool,
    /// The axis along which a flex container places its children.
    pub axis: Axis,
    pub sizing: FlexSizing,
    /// The room between adjacent children.
    pub gap: Option<Length>,
    pub width: Option<Length>,
    pub height: Option<Length>,
    pub background: Option<Hsla>,
    pub position: Option<Position>,
    /// The distance from each of the four edges of the frame of reference.
    pub inset: Option<Length>,
    /// The paint order among siblings; a higher layer is painted in front.
    pub z_index: Option<u32>,
}

impl Style {
    /// The style that says nothing: a plain container whose children, if it
    /// were a flex container, would run in a row.
    pub open spec fn spec_plain() -> Style {
        Style {
            flex: false,
            axis: Axis::Row,
            sizing: FlexSizing::Unset,
            gap: None,
            width: None,
            height: None,
            background: None,
            position: None,
            inset: None,
            z_index: None,
        }
    }

    /// The style that says nothing.
    #[verifier::when_used_as_spec(spec_plain)]
    pub fn plain() -> (s: Style)
        ensures
            s == Style::spec_plain(),
    {
        Style {
            flex: false,
            axis: Axis::Row,
            sizing: FlexSizing::Unset,
            gap: None,
            width: None,
            height: None,
            background: None,
            position: None,
            inset: None,
            z_index: None,
        }
    }
}

/// The file-drop capability of an element: while files are dragged over it,
/// it is painted with `hover_background`; when they are dropped, the host
/// hands them to its drop handler.
#[derive(Clone, Copy, Debug, PartialEq, Eq, Structural)]
pub struct FileDrop {
    pub hover_background: Hsla,
}

/// One child of an element.
#[derive(Debug, PartialEq, Eq)]
pub enum Child {
    /// A content item that the host holds, by its handle.
    Content(u64),
    /// A nested element.
    Element(Element),
}

/// One container of the rendered tree.
#[derive(Debug, PartialEq, Eq)]
pub struct Element {
    pub id: Option<ElementId>,
    pub style: Style,
    pub file_drop: Option<FileDrop>,
    /// The children, in the order in which they are laid out.
    pub children: Vec<Child>,
}

/// What a [`Child`] stands for.
pub enum ChildView {
    Content(u64),
    Element(ElementView),
}

/// What an [`Element`] stands for: the same description over sequences.
pub struct ElementView {
    pub id: Option<ElementIdView>,
    pub style: Style,
    pub file_drop: Option<FileDrop>,
    pub children: Seq<ChildView>,
}

impl View for Child {
    type V = ChildView;

    open spec fn view(&self) -> ChildView
        decreases self,
    {
        match self {
            Child::Content(handle) => ChildView::Content(*handle),
            Child::Element(element) => ChildView::Element(element.view()),
        }
    }
}

impl View for Element {
    type V = ElementView;

    open spec fn view(&self) -> ElementView
        decreases self,
    {
        ElementView {
            id: match self.id {
                Some(id) => Some(id@),
                None => None,
            },
            style: self.style,
            file_drop: self.file_drop,
            children: Seq::new(
                self.children.len() as nat,
                |i: int|
                    if 0 <= i < self.children.len() {
                        self.children[i].view()
                    } else {
                        ChildView::Content(0)
                    },
            ),
        }
    }
}

} // verus!
