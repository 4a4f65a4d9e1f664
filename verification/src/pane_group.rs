//! A group: a node of the layout that arranges panes, or nested groups,
//! along one axis, and the element it renders to.

use crate::element::{Axis, Child, ChildView, Element, ElementView, FlexSizing, Style};
use crate::pane::{Pane, PaneView};
use crate::style::{Hsla, Length, SplitDirection, ONE_BITS};
use vstd::prelude::*;

verus! {

/// The colours that rendering takes from the host's theme.
#[derive(Clone, Copy, Debug, PartialEq, Eq, Structural)]
pub struct ThemeColors {
    /// The colour behind a group of groups.
    pub editor_background: Hsla,
}

/// What a [`PaneGroup`] stands for.
pub struct PaneGroupView {
    pub groups: Seq<PaneGroupView>,
    pub panes: Seq<PaneView>,
    pub split_direction: SplitDirection,
}

/// The axis that a split direction lays children out on.
pub open spec fn axis_of(direction: SplitDirection) -> Axis {
    match direction {
        SplitDirection::Horizontal => Axis::Row,
        SplitDirection::Vertical => Axis::Column,
    }
}

/// The style of a group's container: a flex container along the
/// direction's axis that fills its parent, with one pixel between adjacent
/// children, and the given background if there is one.
pub open spec fn container_style(direction: SplitDirection, background: Option<Hsla>) -> Style {
    Style {
        flex: true,
        axis: axis_of(direction),
        sizing: FlexSizing::Fill,
        gap: Some(Length::Pixels(ONE_BITS)),
        width: Some(Length::spec_full()),
        height: Some(Length::spec_full()),
        background: background,
        ..Style::spec_plain()
    }
}

impl PaneGroupView {
    /// A group that holds the given panes and no groups.
    pub open spec fn of_panes(panes: Seq<PaneView>, direction: SplitDirection) -> PaneGroupView {
        PaneGroupView { groups: Seq::empty(), panes: panes, split_direction: direction }
    }

    /// A group that holds the given groups and no panes.
    pub open spec fn of_groups(
        groups: Seq<PaneGroupView>,
        direction: SplitDirection,
    ) -> PaneGroupView {
        PaneGroupView { groups: groups, panes: Seq::empty(), split_direction: direction }
    }

    /// Whether the group can be rendered: it holds a pane, or it holds a
    /// group and each group it holds can be rendered.
    pub open spec fn renderable(self) -> bool
        decreases self,
    {
        self.panes.len() > 0 || (self.groups.len() > 0 && forall|i: int|
            0 <= i < self.groups.len() ==> (#[trigger] self.groups[i]).renderable())
    }

    /// The element that the group renders to. Where the group holds panes,
    /// the container holds each pane's element, in order, and has no
    /// background; the groups are not looked at. Otherwise it holds each
    /// nested group's element, in order, on the theme's background.
    pub open spec fn rendered(self, theme: ThemeColors) -> ElementView
        decreases self,
    {
        if self.panes.len() > 0 {
            ElementView {
                id: None,
                style: container_style(self.split_direction, None),
                file_drop: None,
                children: Seq::new(
                    self.panes.len(),
                    |i: int| ChildView::Element(self.panes[i].rendered()),
                ),
            }
        } else {
            ElementView {
                id: None,
                style: container_style(self.split_direction, Some(theme.editor_background)),
                file_drop: None,
                children: Seq::new(
                    self.groups.len(),
                    |i: int|
                        if 0 <= i < self.groups.len() {
                            ChildView::Element(self.groups[i].rendered(theme))
                        } else {
                            ChildView::Content(0)
                        },
                ),
            }
        }
    }
}

/// A node of the layout: panes or nested groups, and the direction in which
/// they are split.
pub struct PaneGroup {
    groups: Vec<PaneGroup>,
    panes: Vec<Pane>,
    split_direction: SplitDirection,
}

impl View for PaneGroup {
    type V = PaneGroupView;

    closed spec fn view(&self) -> PaneGroupView
        decreases self,
    {
        PaneGroupView {
            groups: Seq::new(
                self.groups.len() as nat,
                |i: int|
                    if 0 <= i < self.groups.len() {
                        self.groups[i].view()
                    } else {
                        PaneGroupView::of_panes(Seq::empty(), SplitDirection::Horizontal)
                    },
            ),
            panes: Seq::new(self.panes.len() as nat, |i: int| self.panes[i]@),
            split_direction: self.split_direction,
        }
    }
}

/// The views of a list of panes, in order.
pub open spec fn pane_views(panes: Seq<Pane>) -> Seq<PaneView> {
    Seq::new(panes.len(), |i: int| panes[i]@)
}

/// The views of a list of groups, in order.
pub open spec fn group_views(groups: Seq<PaneGroup>) -> Seq<PaneGroupView> {
    Seq::new(groups.len(), |i: int| groups[i]@)
}

impl PaneGroup {
    /// A group of the given groups, split in the given direction.
    pub fn new_groups(groups: Vec<PaneGroup>, split_direction: SplitDirection) -> (group: PaneGroup)
        ensures
            group@ == PaneGroupView::of_groups(group_views(groups@), split_direction),
    {
        let group = PaneGroup { groups, panes: Vec::new(), split_direction };
        assert(group@.groups =~= group_views(groups@));
        assert(group@.panes =~= Seq::empty());
        group
    }

    /// A group of the given panes, split in the given direction.
    pub fn new_panes(panes: Vec<Pane>, split_direction: SplitDirection) -> (group: PaneGroup)
        ensures
            group@ == PaneGroupView::of_panes(pane_views(panes@), split_direction),
    {
        let group = PaneGroup { groups: Vec::new(), panes, split_direction };
        assert(group@.groups =~= Seq::empty());
        assert(group@.panes =~= pane_views(panes@));
        group
    }

    /// Whether the group can be rendered.
    pub fn is_renderable(&self) -> (b: bool)
        ensures
            b == self@.renderable(),
        decreases self,
    {
        if self.panes.len() > 0 {
            return true;
        }
        if self.groups.len() == 0 {
            return false;
        }
        let mut i: usize = 0;
        while i < self.groups.len()
            invariant
                i <= self.groups@.len(),
                self@.panes.len() == 0,
                self@.groups.len() == self.groups@.len(),
                forall|k: int| 0 <= k < self.groups@.len() ==> self@.groups[k] == self.groups@[k]@,
                forall|k: int| 0 <= k < i ==> (#[trigger] self@.groups[k]).renderable(),
            decreases self.groups@.len() - i,
        {
            if !self.groups[i].is_renderable() {
                assert(!self@.groups[i as int].renderable());
                return false;
            }
            i += 1;
        }
        true
    }

    /// Renders the group and all that it holds, consuming it.
    pub fn render(self, theme: &ThemeColors) -> (element: Element)
        requires
            self@.renderable(),
        ensures
            element@ == self@.rendered(*theme),
        decreases self,
    {
        let ghost model = self@;
        let PaneGroup { groups, panes, split_direction } = self;
        let mut children: Vec<Child> = Vec::new();
        let background = if panes.len() > 0 {
            for pane in it: panes.into_iter()
                invariant
                    it.seq() == panes@,
                    children@.len() == it.index(),
                    forall|k: int|
                        0 <= k < it.index() ==> (#[trigger] children@[k])@ == ChildView::Element(
                            panes@[k]@.rendered(),
                        ),
            {
                children.push(Child::Element(pane.render()));
            }
            None
        } else {
            assert forall|k: int| 0 <= k < groups@.len() implies (#[trigger] groups@[k])@.renderable() by {
                assert(model.groups[k] == groups@[k]@);
            }
            for group in it: groups.into_iter()
                invariant
                    it.seq() == groups@,
                    children@.len() == it.index(),
                    forall|k: int|
                        0 <= k < groups@.len() ==> (#[trigger] groups@[k])@.renderable(),
                    forall|k: int|
                        0 <= k < groups@.len() ==> decreases_to!(self => #[trigger] groups@[k]),
                    forall|k: int|
                        0 <= k < it.index() ==> (#[trigger] children@[k])@ == ChildView::Element(
                            groups@[k]@.rendered(*theme),
                        ),
            {
                children.push(Child::Element(group.render(theme)));
            }
            Some(theme.editor_background)
        };
        let element = Element {
            id: None,
            style: Style {
                flex: true,
                axis: match split_direction {
                    SplitDirection::Horizontal => Axis::Row,
                    SplitDirection::Vertical => Axis::Column,
                },
                sizing: FlexSizing::Fill,
                gap: Some(Length::Pixels(ONE_BITS)),
                width: Some(Length::full()),
                height: Some(Length::full()),
                background,
                ..Style::plain()
            },
            file_drop: None,
            children,
        };
        assert(element@.children =~= model.rendered(*theme).children);
        element
    }
}

/// A group made of panes renders them in their order and looks at nothing
/// else: the container holds one element for each pane, the element of the
/// `i`-th pane at place `i`, whatever groups stand beside the panes and
/// whatever the theme is.
pub proof fn lemma_panes_render_in_order(
    panes: Seq<PaneView>,
    groups: Seq<PaneGroupView>,
    direction: SplitDirection,
    theme: ThemeColors,
    other_theme: ThemeColors,
)
    requires
        panes.len() > 0,
    ensures
        PaneGroupView::of_panes(panes, direction).rendered(theme).children.len() == panes.len(),
        forall|i: int|
            0 <= i < panes.len() ==> #[trigger] PaneGroupView::of_panes(panes, direction).rendered(
                theme,
            ).children[i] == ChildView::Element(panes[i].rendered()),
        PaneGroupView::of_panes(panes, direction).rendered(theme).style.background.is_none(),
        (PaneGroupView { groups: groups, panes: panes, split_direction: direction }).rendered(
            other_theme,
        ) == PaneGroupView::of_panes(panes, direction).rendered(theme),
{
    let plain = PaneGroupView::of_panes(panes, direction);
    let mixed = PaneGroupView { groups: groups, panes: panes, split_direction: direction };
    assert(mixed.rendered(other_theme).children =~= plain.rendered(theme).children);
}

/// A group made of groups renders them in their order on the theme's
/// background: the container holds one element for each nested group, the
/// element of the `i`-th group at place `i`.
pub proof fn lemma_groups_render_in_order(
    groups: Seq<PaneGroupView>,
    direction: SplitDirection,
    theme: ThemeColors,
)
    ensures
        PaneGroupView::of_groups(groups, direction).rendered(theme).children.len() == groups.len(),
        forall|i: int|
            0 <= i < groups.len() ==> #[trigger] PaneGroupView::of_groups(
                groups,
                direction,
            ).rendered(theme).children[i] == ChildView::Element(groups[i].rendered(theme)),
        PaneGroupView::of_groups(groups, direction).rendered(theme).style.background == Some(
            theme.editor_background,
        ),
{
}

/// Sibling subtrees do not touch each other: putting another group in one
/// place of a group of groups leaves the element at every other place as it
/// was.
pub proof fn lemma_siblings_independent(
    groups: Seq<PaneGroupView>,
    direction: SplitDirection,
    theme: ThemeColors,
    place: int,
    other: PaneGroupView,
    i: int,
)
    requires
        0 <= place < groups.len(),
        0 <= i < groups.len(),
        i != place,
    ensures
        PaneGroupView::of_groups(groups.update(place, other), direction).rendered(
            theme,
        ).children[i] == PaneGroupView::of_groups(groups, direction).rendered(theme).children[i],
        PaneGroupView::of_groups(groups.update(place, other), direction).rendered(
            theme,
        ).children[place] == ChildView::Element(other.rendered(theme)),
{
}

/// The split direction decides the axis of the group's own container and
/// nothing else: the same lists rendered vertically give the element that
/// they give horizontally, with a column in place of the row. The children,
/// their number and order, the gap, the sizing and the background are the
/// same.
pub proof fn lemma_direction_sets_axis_only(
    groups: Seq<PaneGroupView>,
    panes: Seq<PaneView>,
    theme: ThemeColors,
)
    ensures
        ({
            let across = (PaneGroupView {
                groups: groups,
                panes: panes,
                split_direction: SplitDirection::Horizontal,
            }).rendered(theme);
            let down = (PaneGroupView {
                groups: groups,
                panes: panes,
                split_direction: SplitDirection::Vertical,
            }).rendered(theme);
            &&& across.style.axis == Axis::Row
            &&& down == (ElementView {
                style: Style { axis: Axis::Column, ..across.style },
                ..across
            })
        }),
{
    let across = (PaneGroupView {
        groups: groups,
        panes: panes,
        split_direction: SplitDirection::Horizontal,
    }).rendered(theme);
    let down = (PaneGroupView {
        groups: groups,
        panes: panes,
        split_direction: SplitDirection::Vertical,
    }).rendered(theme);
    assert(down.children =~= across.children);
}

/// What the two ways of making a group give: one list is filled and the
/// other is empty. A group of panes can be rendered exactly when it was
/// given a pane; a group of groups exactly when it was given a group and
/// each of them can be rendered. A group made from an empty list is the one
/// group that cannot be rendered although nothing in it is amiss.
pub proof fn lemma_made_groups_renderable(
    panes: Seq<PaneView>,
    groups: Seq<PaneGroupView>,
    direction: SplitDirection,
)
    ensures
        PaneGroupView::of_panes(panes, direction).groups.len() == 0,
        PaneGroupView::of_panes(panes, direction).panes == panes,
        PaneGroupView::of_groups(groups, direction).panes.len() == 0,
        PaneGroupView::of_groups(groups, direction).groups == groups,
        PaneGroupView::of_panes(panes, direction).renderable() <==> panes.len() > 0,
        PaneGroupView::of_groups(groups, direction).renderable() <==> (groups.len() > 0
            && forall|i: int| 0 <= i < groups.len() ==> (#[trigger] groups[i]).renderable()),
{
}

} // verus!
