//! The panel's layout state, shared between the foreground-window tracker and
//! the panel's own collapse button, and the tracker's decision for each poll.
//!
//! Window bounds (`B`) and panel offsets (`O`) are carried as given: the
//! state machine decides when to lay the panel out, never where.
use vstd::prelude::*;

verus! {

/// The layout state of the panel.
#[derive(Debug, Clone, Copy, PartialEq, Eq)]
pub struct PanelLayout<B, O> {
    /// Whether the panel is collapsed to its icon.
    pub collapsed: bool,
    /// Where the user dragged the expanded panel, relative to the Codex window.
    pub expanded_offset: Option<O>,
    /// The bounds of the Codex window when it was last in the foreground.
    pub last_codex_window: Option<B>,
    /// Whether the panel must be laid out again.
    pub layout_dirty: bool,
}

/// Which window is in the foreground.
#[derive(Debug, Clone, Copy, PartialEq, Eq)]
pub enum Focus<B> {
    /// The dock's own panel.
    OwnPanel,
    /// The Codex app, with its window's bounds.
    Codex(B),
    /// Any other window, or none could be read.
    Elsewhere,
}

/// What the tracker does with the panel after one poll.
#[derive(Debug, Clone, Copy, PartialEq, Eq)]
pub enum PanelStep<B, O> {
    /// Leave the panel as it is.
    Keep,
    /// Hide the panel and stop keeping it on top.
    Hide,
    /// Lay the panel out over `bounds` (collapsed or expanded, at `offset`),
    /// then `mark_clean(collapsed)`, then keep it on top and show it.
    Arrange { bounds: B, collapsed: bool, offset: Option<O> },
    /// Record a manual move of the expanded panel over `bounds` (laid out at
    /// `offset`), then keep it on top and show it.
    FollowDrag { bounds: B, offset: Option<O> },
    /// Keep the panel on top and show it.
    Show,
}

impl<B, O> Default for PanelLayout<B, O> {
    fn default() -> (layout: Self)
        ensures
            layout == PanelLayout::<B, O>::initial(),
    {
        PanelLayout {
            collapsed: false,
            expanded_offset: None,
            last_codex_window: None,
            layout_dirty: false,
        }
    }
}

impl<B, O> PanelLayout<B, O> {
    /// Expanded, never dragged, no Codex window seen, nothing to lay out.
    pub open spec fn initial() -> Self {
        PanelLayout {
            collapsed: false,
            expanded_offset: None,
            last_codex_window: None,
            layout_dirty: false,
        }
    }

    /// The state after the user collapsed or expanded the panel.
    pub open spec fn with_collapsed(self, collapsed: bool) -> Self {
        PanelLayout { collapsed, layout_dirty: true, ..self }
    }

    /// The state after a layout made for `collapsed` was applied: it is clean
    /// only if the panel was not toggled since.
    pub open spec fn marked_clean(self, collapsed: bool) -> Self {
        if self.collapsed == collapsed {
            PanelLayout { layout_dirty: false, ..self }
        } else {
            self
        }
    }

    /// The tracker's decision for a poll that saw `focus`, and the state after.
    pub open spec fn after_poll(self, focus: Focus<B>) -> (Self, PanelStep<B, O>) {
        match focus {
            Focus::OwnPanel => match self.last_codex_window {
                None => (self, PanelStep::Keep),
                Some(bounds) => if self.layout_dirty {
                    (
                        self,
                        PanelStep::Arrange {
                            bounds,
                            collapsed: self.collapsed,
                            offset: self.expanded_offset,
                        },
                    )
                } else if !self.collapsed {
                    (self, PanelStep::FollowDrag { bounds, offset: self.expanded_offset })
                } else {
                    (self, PanelStep::Show)
                },
            },
            Focus::Codex(bounds) => (
                PanelLayout { last_codex_window: Some(bounds), ..self },
                PanelStep::Arrange {
                    bounds,
                    collapsed: self.collapsed,
                    offset: self.expanded_offset,
                },
            ),
            Focus::Elsewhere => (self, PanelStep::Hide),
        }
    }

    /// The user collapsed or expanded the panel: it is laid out again.
    pub fn set_collapsed(&mut self, collapsed: bool)
        ensures
            *final(self) == old(self).with_collapsed(collapsed),
    {
        self.collapsed = collapsed;
        self.layout_dirty = true;
    }

    /// Records the bounds of the Codex window.
    pub fn remember_codex_window(&mut self, bounds: B)
        ensures
            *final(self) == (PanelLayout { last_codex_window: Some(bounds), ..*old(self) }),
    {
        self.last_codex_window = Some(bounds);
    }

    /// Records where the user dragged the expanded panel.
    pub fn remember_expanded_offset(&mut self, offset: O)
        ensures
            *final(self) == (PanelLayout { expanded_offset: Some(offset), ..*old(self) }),
    {
        self.expanded_offset = Some(offset);
    }

    /// A layout made for `collapsed` was applied.
    pub fn mark_clean(&mut self, collapsed: bool)
        ensures
            *final(self) == old(self).marked_clean(collapsed),
    {
        if self.collapsed == collapsed {
            self.layout_dirty = false;
        }
    }
}

impl<B: Copy, O: Copy> PanelLayout<B, O> {
    /// Decides what to do with the panel for a poll that saw `focus` (see
    /// `after_poll`).
    pub fn poll(&mut self, focus: Focus<B>) -> (step: PanelStep<B, O>)
        ensures
            (*final(self), step) == old(self).after_poll(focus),
    {
        match focus {
            Focus::OwnPanel => match self.last_codex_window {
                None => PanelStep::Keep,
                Some(bounds) => {
                    if self.layout_dirty {
                        PanelStep::Arrange {
                            bounds,
                            collapsed: self.collapsed,
                            offset: self.expanded_offset,
                        }
                    } else if !self.collapsed {
                        PanelStep::FollowDrag { bounds, offset: self.expanded_offset }
                    } else {
                        PanelStep::Show
                    }
                },
            },
            Focus::Codex(bounds) => {
                self.last_codex_window = Some(bounds);
                PanelStep::Arrange {
                    bounds,
                    collapsed: self.collapsed,
                    offset: self.expanded_offset,
                }
            },
            Focus::Elsewhere => PanelStep::Hide,
        }
    }
}

/// A collapse or expand request is never lost: a layout applied for the
/// previous state does not mark it clean, one applied for the requested state
/// does.
pub proof fn lemma_toggle_is_not_lost<B, O>(layout: PanelLayout<B, O>, requested: bool, applied: bool)
    ensures
        applied != requested ==> layout.with_collapsed(requested).marked_clean(applied).layout_dirty,
        applied == requested ==> !layout.with_collapsed(requested).marked_clean(applied).layout_dirty,
        layout.with_collapsed(requested).marked_clean(applied).collapsed == requested,
{
}

/// A pending layout is applied at the next poll that sees the Codex app or
/// the panel (once a Codex window is known), with the current collapse state.
pub proof fn lemma_pending_layout_is_applied<B, O>(layout: PanelLayout<B, O>, focus: Focus<B>)
    requires
        layout.layout_dirty,
        focus is Codex || (focus is OwnPanel && layout.last_codex_window is Some),
    ensures
        layout.after_poll(focus).1 matches PanelStep::Arrange { collapsed, .. } && collapsed
            == layout.collapsed,
{
}

/// The Codex window's bounds are always those of the latest poll that saw it,
/// and the panel is laid out over them.
pub proof fn lemma_codex_focus_lays_out_over_its_window<B, O>(layout: PanelLayout<B, O>, bounds: B)
    ensures
        layout.after_poll(Focus::Codex(bounds)).0.last_codex_window == Some(bounds),
        layout.after_poll(Focus::Codex(bounds)).1 matches PanelStep::Arrange { bounds: b, .. }
            && b == bounds,
{
}

/// The panel hides whenever something other than Codex or the panel itself is
/// in the foreground, and the state does not change.
pub proof fn lemma_other_focus_hides<B, O>(layout: PanelLayout<B, O>)
    ensures
        layout.after_poll(Focus::Elsewhere) == (layout, PanelStep::<B, O>::Hide),
{
}

/// With Codex in front, the panel is always arranged over the Codex window
/// with the layout's own collapse state and the offset the user dragged it to,
/// the window's bounds are remembered, and nothing else in the layout changes.
pub proof fn lemma_codex_focus_keeps_the_dragged_offset<B, O>(layout: PanelLayout<B, O>, bounds: B)
    ensures
        layout.after_poll(Focus::Codex(bounds)).1 == (PanelStep::Arrange {
            bounds,
            collapsed: layout.collapsed,
            offset: layout.expanded_offset,
        }),
        layout.after_poll(Focus::Codex(bounds)).0.last_codex_window == Some(bounds),
        layout.after_poll(Focus::Codex(bounds)).0.collapsed == layout.collapsed,
        layout.after_poll(Focus::Codex(bounds)).0.expanded_offset == layout.expanded_offset,
        layout.after_poll(Focus::Codex(bounds)).0.layout_dirty == layout.layout_dirty,
{
}

/// A poll never changes the collapse state, the dragged offset or whether a
/// layout is pending, and every step that places the panel places it over the
/// last Codex window with the layout's collapse state and dragged offset.
pub proof fn lemma_poll_places_by_the_layout<B, O>(layout: PanelLayout<B, O>, focus: Focus<B>)
    ensures
        layout.after_poll(focus).0.collapsed == layout.collapsed,
        layout.after_poll(focus).0.expanded_offset == layout.expanded_offset,
        layout.after_poll(focus).0.layout_dirty == layout.layout_dirty,
        layout.after_poll(focus).1 matches PanelStep::Arrange { bounds, collapsed, offset } ==> (
        collapsed == layout.collapsed && offset == layout.expanded_offset && layout.after_poll(
            focus,
        ).0.last_codex_window == Some(bounds)),
        layout.after_poll(focus).1 matches PanelStep::FollowDrag { bounds, offset } ==> (offset
            == layout.expanded_offset && !layout.collapsed && !layout.layout_dirty
            && layout.last_codex_window == Some(bounds)),
{
}

} // verus!
