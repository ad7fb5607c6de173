use vstd::prelude::*;

use egui::{Id, Pos2, Rect, Vec2, ViewportId};

use crate::external::{
    rect_or_nothing, spec_rect_or_nothing, spec_viewport_id_of, viewport_id_from_hash_of,
};
use crate::node::leaf::opt_str_view;

verus! {

/// The state of a window surface.
///
/// Doubles as a handle for the surface, allowing the user to set its size and position.
/// The height the window had before it was fully collapsed, a floating-point
/// value, is kept by the renderer beside this state.
#[derive(Clone, Debug)]
pub struct WindowState {
    /// The [`Rect`] that this window was last taking up.
    screen_rect: Option<Rect>,
    /// Was this window dragged in the last frame?
    dragged: bool,
    /// The next position this window should be set to next frame.
    next_position: Option<Pos2>,
    /// The next size this window should be set to next frame.
    next_size: Option<Vec2>,
    /// True the first frame this window is drawn.
    /// handles expanding after being fully collapsed, etc.
    pub(crate) new: bool,
    /// True if the window is minimized
    minimized: bool,
    /// The viewport ID for this window (used for independent viewports)
    viewport_id: Option<ViewportId>,
    /// True if the viewport should be closed
    should_close: bool,
    /// Remember the original node ID this window was detached from (for move back)
    original_node_id: Option<String>,
    /// Remember the original tab index within the node (for move back)
    original_tab_index: Option<usize>,
}

/// The mathematical value of a [`WindowState`].
pub struct WindowView {
    pub screen_rect: Option<Rect>,
    pub dragged: bool,
    pub next_position: Option<Pos2>,
    pub next_size: Option<Vec2>,
    pub new: bool,
    pub minimized: bool,
    pub viewport_id: Option<ViewportId>,
    pub should_close: bool,
    pub original_node_id: Option<Seq<char>>,
    pub original_tab_index: Option<usize>,
}

impl WindowView {
    /// The state of a window that has not been shown yet: nothing recorded,
    /// nothing requested, marked new.
    pub open spec fn initial() -> WindowView {
        WindowView {
            screen_rect: None,
            dragged: false,
            next_position: None,
            next_size: None,
            new: true,
            minimized: false,
            viewport_id: None,
            should_close: false,
            original_node_id: None,
            original_tab_index: None,
        }
    }

    /// The state after `toggle_minimized`.
    pub open spec fn toggle_minimized(self) -> WindowView {
        WindowView { minimized: !self.minimized, ..self }
    }

    /// The state after `set_position(position)`.
    pub open spec fn set_position(self, position: Pos2) -> WindowView {
        WindowView { next_position: Some(position), ..self }
    }

    /// The state after `set_size(size)`.
    pub open spec fn set_size(self, size: Vec2) -> WindowView {
        WindowView { next_size: Some(size), ..self }
    }

    /// The state after the requested position has been taken.
    pub open spec fn take_position(self) -> WindowView {
        WindowView { next_position: None, ..self }
    }

    /// The state after the requested size has been taken.
    pub open spec fn take_size(self) -> WindowView {
        WindowView { next_size: None, ..self }
    }

    /// The state with `fresh` as its viewport ID when it has none, else unchanged.
    pub open spec fn with_viewport_id_if_absent(self, fresh: ViewportId) -> WindowView {
        if self.viewport_id is None {
            WindowView { viewport_id: Some(fresh), ..self }
        } else {
            self
        }
    }

    /// The state with the close flag set to `should_close`.
    pub open spec fn with_close(self, should_close: bool) -> WindowView {
        WindowView { should_close, ..self }
    }
}

impl View for WindowState {
    type V = WindowView;

    closed spec fn view(&self) -> WindowView {
        WindowView {
            screen_rect: self.screen_rect,
            dragged: self.dragged,
            next_position: self.next_position,
            next_size: self.next_size,
            new: self.new,
            minimized: self.minimized,
            viewport_id: self.viewport_id,
            should_close: self.should_close,
            original_node_id: opt_str_view(self.original_node_id),
            original_tab_index: self.original_tab_index,
        }
    }
}

impl Default for WindowState {
    fn default() -> (r: WindowState)
        ensures
            r@ == WindowView::initial(),
    {
        WindowState {
            screen_rect: None,
            dragged: false,
            next_position: None,
            next_size: None,
            new: true,
            minimized: false,
            viewport_id: None,
            should_close: false,
            original_node_id: None,
            original_tab_index: None,
        }
    }
}

impl WindowState {
    /// Create a default window state.
    pub fn new() -> (r: WindowState)
        ensures
            r@ == WindowView::initial(),
    {
        Self::default()
    }

    /// Set the position for this window in screen coordinates.
    pub fn set_position(&mut self, position: Pos2) -> (r: &mut Self)
        ensures
            (*r)@ == old(self)@.set_position(position),
            final(self)@ == (*final(r))@,
    {
        self.next_position = Some(position);
        self
    }

    /// Set the size of this window in egui points.
    pub fn set_size(&mut self, size: Vec2) -> (r: &mut Self)
        ensures
            (*r)@ == old(self)@.set_size(size),
            final(self)@ == (*final(r))@,
    {
        self.next_size = Some(size);
        self
    }

    /// Get the [`Rect`] which this window occupies.
    /// If this window hasn't been shown before, this will be [`Rect::NOTHING`].
    pub fn rect(&self) -> (r: Rect)
        ensures
            r == spec_rect_or_nothing(self@.screen_rect),
            self@.screen_rect matches Some(s) ==> r == s,
    {
        rect_or_nothing(self.screen_rect)
    }

    /// Returns if this window is currently being dragged or not.
    pub fn dragged(&self) -> (r: bool)
        ensures
            r == self@.dragged,
    {
        self.dragged
    }

    /// Record whether this window is drawn for the first time (or again after
    /// being fully collapsed).
    pub fn set_new(&mut self, new: bool) -> (r: &mut Self)
        ensures
            (*r)@ == (WindowView { new, ..old(self)@ }),
            final(self)@ == (*final(r))@,
    {
        self.new = new;
        self
    }

    /// Whether this window is drawn for the first time (or again after being fully collapsed).
    pub fn is_new(&self) -> (r: bool)
        ensures
            r == self@.new,
    {
        self.new
    }

    /// Take the position requested for the next frame, leaving none.
    pub fn next_position(&mut self) -> (r: Option<Pos2>)
        ensures
            r == old(self)@.next_position,
            final(self)@ == old(self)@.take_position(),
    {
        self.next_position.take()
    }

    /// Take the size requested for the next frame, leaving none.
    pub fn next_size(&mut self) -> (r: Option<Vec2>)
        ensures
            r == old(self)@.next_size,
            final(self)@ == old(self)@.take_size(),
    {
        self.next_size.take()
    }

    /// Take what building this window's egui window needs this frame: the
    /// requested position and size, leaving none, and whether the window is new;
    /// the window is then no longer new.
    pub fn take_frame_requests(&mut self) -> (r: (Option<Pos2>, Option<Vec2>, bool))
        ensures
            r == (old(self)@.next_position, old(self)@.next_size, old(self)@.new),
            final(self)@ == (WindowView {
                next_position: None,
                next_size: None,
                new: false,
                ..old(self)@
            }),
    {
        let new = self.new;
        let position = self.next_position();
        let size = self.next_size();
        self.set_new(false);
        (position, size, new)
    }

    /// Flip whether this window is minimized.
    pub fn toggle_minimized(&mut self)
        ensures
            final(self)@ == old(self)@.toggle_minimized(),
    {
        self.minimized = !self.minimized;
    }

    /// Whether this window is minimized.
    pub fn is_minimized(&self) -> (r: bool)
        ensures
            r == self@.minimized,
    {
        self.minimized
    }

    /// Return this window's viewport ID, giving it `fresh` first if it has none.
    pub fn get_or_insert_viewport_id(&mut self, fresh: ViewportId) -> (r: ViewportId)
        ensures
            final(self)@ == old(self)@.with_viewport_id_if_absent(fresh),
            final(self)@.viewport_id == Some(r),
    {
        match self.viewport_id {
            Some(id) => id,
            None => {
                self.viewport_id = Some(fresh);
                fresh
            },
        }
    }

    /// Get or create the viewport ID for this window: the first call derives it
    /// from `base_id`, later calls return the same ID.
    pub fn get_or_create_viewport_id(&mut self, base_id: Id) -> (r: ViewportId)
        ensures
            final(self)@ == old(self)@.with_viewport_id_if_absent(r),
            final(self)@.viewport_id == Some(r),
            old(self)@.viewport_id is None ==> r == spec_viewport_id_of(base_id),
    {
        match self.viewport_id {
            Some(id) => id,
            None => {
                let fresh = viewport_id_from_hash_of(base_id);
                self.get_or_insert_viewport_id(fresh)
            },
        }
    }

    /// Mark this viewport as should be closed.
    pub fn mark_close(&mut self)
        ensures
            final(self)@ == old(self)@.with_close(true),
    {
        self.should_close = true;
    }

    /// Check if this viewport should be closed.
    pub fn should_close(&self) -> (r: bool)
        ensures
            r == self@.should_close,
    {
        self.should_close
    }

    /// Reset the close flag.
    pub fn reset_close(&mut self)
        ensures
            final(self)@ == old(self)@.with_close(false),
    {
        self.should_close = false;
    }

    /// Set the original node ID this window was detached from.
    pub fn set_original_node_id(&mut self, node_id: String)
        ensures
            final(self)@ == (WindowView { original_node_id: Some(node_id@), ..old(self)@ }),
    {
        self.original_node_id = Some(node_id);
    }

    /// Get the original node ID this window was detached from.
    pub fn original_node_id(&self) -> (r: Option<&str>)
        ensures
            match r {
                Some(s) => self@.original_node_id == Some(s@),
                None => self@.original_node_id is None,
            },
    {
        match &self.original_node_id {
            Some(s) => Some(s.as_str()),
            None => None,
        }
    }

    /// Set the original tab index this window was detached from.
    pub fn set_original_tab_index(&mut self, tab_index: usize)
        ensures
            final(self)@ == (WindowView { original_tab_index: Some(tab_index), ..old(self)@ }),
    {
        self.original_tab_index = Some(tab_index);
    }

    /// Get the original tab index this window was detached from.
    pub fn original_tab_index(&self) -> (r: Option<usize>)
        ensures
            r == self@.original_tab_index,
    {
        self.original_tab_index
    }
}

/// Once a window has a viewport ID, it keeps it: a later request returns the
/// same ID and changes nothing.
pub proof fn lemma_viewport_id_is_stable(w: WindowView, first: ViewportId, later: ViewportId)
    ensures
        w.with_viewport_id_if_absent(first).viewport_id is Some,
        w.with_viewport_id_if_absent(first).with_viewport_id_if_absent(later)
            == w.with_viewport_id_if_absent(first),
        w.viewport_id matches Some(v) ==> w.with_viewport_id_if_absent(first).viewport_id == Some(v),
{
}

/// Requests and flags do not move the window: its rectangle, a function of the
/// recorded rectangle, is the same before and after them.
pub proof fn lemma_requests_keep_rect(w: WindowView, p: Pos2, s: Vec2, new: bool)
    ensures
        spec_rect_or_nothing(w.set_position(p).screen_rect) == spec_rect_or_nothing(w.screen_rect),
        spec_rect_or_nothing(w.set_size(s).screen_rect) == spec_rect_or_nothing(w.screen_rect),
        spec_rect_or_nothing(w.toggle_minimized().screen_rect) == spec_rect_or_nothing(w.screen_rect),
        spec_rect_or_nothing((WindowView { new, ..w }).screen_rect) == spec_rect_or_nothing(w.screen_rect),
{
}

/// Minimizing twice gives back the state one started from.
pub proof fn lemma_toggle_minimized_twice(w: WindowView)
    ensures
        w.toggle_minimized().toggle_minimized() == w,
        w.toggle_minimized().minimized != w.minimized,
{
}

/// A requested position or size is handed out by the next take and by no later one;
/// a request set again replaces the earlier one.
pub proof fn lemma_requests_are_taken_once(w: WindowView, p: Pos2, q: Pos2, s: Vec2)
    ensures
        w.set_position(p).next_position == Some(p),
        w.set_position(p).take_position().next_position is None,
        w.set_position(q).set_position(p) == w.set_position(p),
        w.set_size(s).next_size == Some(s),
        w.set_size(s).take_size().next_size is None,
        w.set_position(p).take_size().next_position == Some(p),
        w.set_size(s).take_position().next_size == Some(s),
{
}

/// Marking a window for closing is seen by `should_close` until the flag is reset,
/// and both leave every other part of the state as it was.
pub proof fn lemma_close_flag(w: WindowView)
    ensures
        w.with_close(true).should_close,
        !w.with_close(true).with_close(false).should_close,
        w.with_close(true).with_close(false) == w.with_close(false),
        (WindowView { should_close: w.should_close, ..w.with_close(true) }) == w,
{
}

} // verus!
