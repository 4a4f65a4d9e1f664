//! A pane: one content slot of a layout, and the element it renders to.

use crate::children::{items, list_into_vec, new_list, push_limit, ContentList};
use crate::element::{Child, ChildView, Element, ElementView, FileDrop, FlexSizing, Position, Style};
use crate::style::{ElementId, ElementIdView, Hsla, Length, Size};
use vstd::prelude::*;

verus! {

/// What a [`Pane`] stands for.
pub struct PaneView {
    pub id: ElementIdView,
    pub size: Size,
    pub fill: Hsla,
    /// The handles of the content items, in the order in which they were
    /// added.
    pub children: Seq<u64>,
}

impl PaneView {
    /// The back layer of a rendered pane: it covers the pane and holds the
    /// content items in their order.
    pub open spec fn content_layer(self) -> ElementView {
        ElementView {
            id: None,
            style: Style {
                width: Some(Length::spec_full()),
                height: Some(Length::spec_full()),
                z_index: Some(0u32),
                ..Style::spec_plain()
            },
            file_drop: None,
            children: Seq::new(self.children.len(), |i: int| ChildView::Content(self.children[i])),
        }
    }

    /// The front layer of a rendered pane: an empty element that covers the
    /// pane exactly, named `drag-target`, which turns red while files hover
    /// over it and takes them when they are dropped.
    pub open spec fn drop_overlay() -> ElementView {
        ElementView {
            id: Some(ElementIdView::Name("drag-target"@)),
            style: Style {
                position: Some(Position::Absolute),
                inset: Some(Length::Pixels(0u32)),
                z_index: Some(1u32),
                ..Style::spec_plain()
            },
            file_drop: Some(FileDrop { hover_background: Hsla::spec_red() }),
            children: Seq::empty(),
        }
    }

    /// The element that the pane renders to: a positioned flex container of
    /// the pane's size and fill that keeps its size among its siblings, with
    /// the content layer behind the drop overlay.
    pub open spec fn rendered(self) -> ElementView {
        ElementView {
            id: Some(self.id),
            style: Style {
                flex: true,
                sizing: FlexSizing::Initial,
                background: Some(self.fill),
                width: Some(self.size.width),
                height: Some(self.size.height),
                position: Some(Position::Relative),
                ..Style::spec_plain()
            },
            file_drop: None,
            children: seq![
                ChildView::Element(self.content_layer()),
                ChildView::Element(PaneView::drop_overlay()),
            ],
        }
    }
}

/// A leaf of the layout: a slot with an identity, a target size, a fill and
/// content items.
pub struct Pane {
    id: ElementId,
    size: Size,
    fill: Hsla,
    children: ContentList,
}

impl View for Pane {
    type V = PaneView;

    closed spec fn view(&self) -> PaneView {
        PaneView { id: self.id@, size: self.size, fill: self.fill, children: items(self.children) }
    }
}

impl Pane {
    /// A pane with the given identity and size, the placeholder fill and no
    /// content.
    pub fn new(id: ElementId, size: Size) -> (pane: Pane)
        ensures
            pane@ == (PaneView {
                id: id@,
                size: size,
                fill: Hsla::spec_placeholder(),
                children: Seq::empty(),
            }),
    {
        Pane { id, size, fill: Hsla::placeholder(), children: new_list() }
    }

    /// The same pane with another fill.
    pub fn fill(self, fill: Hsla) -> (pane: Pane)
        ensures
            pane@ == (PaneView { fill: fill, ..self@ }),
    {
        let mut pane = self;
        pane.fill = fill;
        pane
    }

    /// The number of content items.
    pub fn child_count(&self) -> (n: usize)
        ensures
            n == self@.children.len(),
    {
        self.children.len()
    }

    /// The list of content items, to add to in place. What the list holds
    /// when the borrow ends is what the pane holds from then on; the rest of
    /// the pane stays as it is.
    pub fn children_mut(&mut self) -> (list: &mut ContentList)
        ensures
            list@ == old(self)@.children,
            final(self)@ == (PaneView { children: final(list)@, ..old(self)@ }),
    {
        &mut self.children
    }

    /// The same pane with one more content item behind those it has.
    pub fn child(self, handle: u64) -> (pane: Pane)
        requires
            self@.children.len() < push_limit(),
        ensures
            pane@ == (PaneView { children: self@.children.push(handle), ..self@ }),
    {
        let mut pane = self;
        pane.children.push(handle);
        pane
    }

    /// The same pane with the given content items behind those it has, in
    /// their order.
    pub fn children(self, handles: Vec<u64>) -> (pane: Pane)
        requires
            self@.children.len() + handles@.len() <= push_limit(),
        ensures
            pane@ == (PaneView { children: self@.children + handles@, ..self@ }),
    {
        let mut pane = self;
        let mut i: usize = 0;
        while i < handles.len()
            invariant
                i <= handles@.len(),
                self@.children.len() + handles@.len() <= push_limit(),
                pane@ == (PaneView {
                    children: self@.children + handles@.subrange(0, i as int),
                    ..self@
                }),
            decreases handles@.len() - i,
        {
            pane.children.push(handles[i]);
            assert(handles@.subrange(0, i + 1) == handles@.subrange(0, i as int).push(
                handles@[i as int],
            ));
            i += 1;
        }
        assert(handles@.subrange(0, i as int) == handles@);
        pane
    }

    /// Renders the pane, consuming it.
    pub fn render(self) -> (element: Element)
        ensures
            element@ == self@.rendered(),
    {
        let ghost model = self@;
        let Pane { id, size, fill, children } = self;
        let handles = list_into_vec(children);
        let mut content: Vec<Child> = Vec::new();
        let mut i: usize = 0;
        while i < handles.len()
            invariant
                i <= handles@.len(),
                content@.len() == i,
                forall|k: int| 0 <= k < i ==> content@[k] == Child::Content(handles@[k]),
            decreases handles@.len() - i,
        {
            content.push(Child::Content(handles[i]));
            i += 1;
        }
        let content_layer = Element {
            id: None,
            style: Style {
                width: Some(Length::full()),
                height: Some(Length::full()),
                z_index: Some(0),
                ..Style::plain()
            },
            file_drop: None,
            children: content,
        };
        assert(content_layer@.children =~= model.content_layer().children) by {
            assert forall|k: int| 0 <= k < handles@.len() implies content_layer@.children[k]
                == ChildView::Content(handles@[k]) by {
                assert(content_layer.children@[k] == Child::Content(handles@[k]));
            }
        }
        let overlay = drop_overlay();
        let mut layers: Vec<Child> = Vec::new();
        layers.push(Child::Element(content_layer));
        layers.push(Child::Element(overlay));
        let element = Element {
            id: Some(id),
            style: Style {
                flex: true,
                sizing: FlexSizing::Initial,
                background: Some(fill),
                width: Some(size.width),
                height: Some(size.height),
                position: Some(Position::Relative),
                ..Style::plain()
            },
            file_drop: None,
            children: layers,
        };
        assert(element@.children =~= model.rendered().children);
        element
    }
}

/// A rendered pane always has two layers, whatever it holds: behind, the
/// content layer with the pane's items in their order and nothing else; in
/// front, the drop overlay, which covers the pane and takes file drops.
pub proof fn lemma_overlay_above_content(pane: PaneView)
    ensures
        pane.rendered().children.len() == 2,
        pane.rendered().children[0] == ChildView::Element(pane.content_layer()),
        pane.rendered().children[1] == ChildView::Element(PaneView::drop_overlay()),
        pane.content_layer().children.len() == pane.children.len(),
        forall|i: int|
            0 <= i < pane.children.len() ==> #[trigger] pane.content_layer().children[i]
                == ChildView::Content(pane.children[i]),
        pane.content_layer().style.z_index == Some(0u32),
        PaneView::drop_overlay().style.z_index == Some(1u32),
        PaneView::drop_overlay().style.position == Some(Position::Absolute),
        PaneView::drop_overlay().style.inset == Some(Length::Pixels(0u32)),
        PaneView::drop_overlay().file_drop.is_some(),
        PaneView::drop_overlay().children.len() == 0,
{
}

/// The overlay that every pane carries in front of its content.
pub fn drop_overlay() -> (element: Element)
    ensures
        element@ == PaneView::drop_overlay(),
{
    let element = Element {
        id: Some(ElementId::name("drag-target")),
        style: Style {
            position: Some(Position::Absolute),
            inset: Some(Length::Pixels(0)),
            z_index: Some(1),
            ..Style::plain()
        },
        file_drop: Some(FileDrop { hover_background: Hsla::red() }),
        children: Vec::new(),
    };
    assert(element@.children =~= PaneView::drop_overlay().children);
    element
}

} // verus!
