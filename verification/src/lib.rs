//! Tab and dock-area state of a docking layout, with the decisions that the
//! layout's renderer takes on it, stated and proved with Verus.

pub mod allowed_drops;
pub mod allowed_splits;
pub mod dock_area;
pub mod external;
pub mod layout;
pub mod modifier_keys;
pub mod node;
pub mod node_index;
pub mod tab_bar;
pub mod tab_index;
pub mod window_state;

pub use allowed_drops::AllowedDrops;
pub use allowed_splits::{AllowedSplits, Split};
pub use dock_area::DockArea;
pub use modifier_keys::ModifierKeys;
pub use tab_bar::TabBarPosition;
pub use node::leaf::LeafNode;
pub use node::split::SplitNode;
pub use node_index::{NodeIndex, TabInsert};
pub use tab_index::TabIndex;
pub use window_state::WindowState;
