# egui_dock (verified core)

The state and the decisions of a docking layout for egui, written in Verus:

- `allowed_drops`, `allowed_splits`: drop permissions of a node and the split
  shapes they admit, with the laws of their intersection.
- `node`: leaf nodes (tab lists with an active tab, ids, flags) and split nodes.
- `window_state`: the state of a window surface.
- `dock_area`: the dock's display settings and the decisions taken from them
  (dragging, closing, ejecting, drop permissions, the removal queue, where a tab
  returns from a window).
- `tab_bar`: where a leaf's tab bar goes, and which tabs ask to be closed.
- `layout`: where a split node's border goes and whether its separator moves.
- `modifier_keys`: the modifier keys that engage secondary buttons.
- `external`: what is taken, trusted, from egui and uuid.

Floating-point geometry (tab-bar scroll, split fractions, a window's expanded
height) and drawing are not part of this crate. `app/` holds the serde forms of
the drop permissions and of leaf and split nodes, the conversion of modifier keys to and from egui's, and the
construction of a window surface's egui window.
