//! A split-pane layout tree and the element tree that it renders to.
//!
//! A [`Pane`] is a leaf slot: it has an identity, a target size, a background
//! fill and an ordered list of content items. A [`PaneGroup`] lays out either
//! panes or nested groups along one axis. Rendering turns a pane or a group
//! into an [`Element`]: a plain description of containers, their style and
//! their children, which a host UI framework can turn into its own widgets.
//!
//! Every function states what it returns over the views of these types.
//! The statements are machine-checked, but for those on the `smallvec` list
//! in [`children`], which are taken from that crate's source.

pub mod children;
pub mod element;
pub mod pane;
pub mod pane_group;
pub mod style;

pub use children::ContentList;
pub use element::{Axis, Child, ChildView, Element, ElementView, FileDrop, FlexSizing, Position, Style};
pub use pane::{Pane, PaneView};
pub use pane_group::{PaneGroup, PaneGroupView, ThemeColors};
pub use style::{ElementId, ElementIdView, Hsla, Length, Size, SplitDirection};
