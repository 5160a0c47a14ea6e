//! Geometry and layout core of a tiling window manager.
//!
//! The crate has two layers. The lower one is rectangle arithmetic: the
//! value type [`Rect`] with its translations, clamps, deltas and hit tests.
//! The upper one derives the rectangle of every container of a tiling tree
//! from its position among its siblings ([`PositionGetters`]).
//!
//! Every executable function is specified against a mathematical model over
//! unbounded integers ([`Region`] for rectangles), and the laws that relate
//! the operations to each other are stated and proved over that model.

pub mod container_tree;
pub mod direction;
pub mod error;
pub mod layout_laws;
pub mod length_value;
pub mod point;
pub mod position_getters;
pub mod rect;
pub mod rect_delta;
pub mod rect_laws;
pub mod rounding;
pub mod tiling;
pub mod tiling_size;

pub use container_tree::{Container, ContainerKind, ContainerTree, TreeModel};
pub use direction::{Direction, TilingDirection};
pub use error::LayoutError;
pub use length_value::{LengthUnit, LengthValue, Ratio};
pub use point::Point;
pub use position_getters::{ContainerRef, PositionGetters};
pub use rect::{Rect, Region};
pub use rect_delta::{EdgeOffsets, RectDelta};
pub use tiling::place_tile;
pub use tiling_size::TilingSize;
