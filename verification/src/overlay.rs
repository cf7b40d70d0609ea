//! The overlay window's presence: hidden, minimized, or shown, and what
//! the hide/show hotkey does in each.

use vstd::prelude::*;

verus! {

/// Whether the overlay is hidden and whether it is minimized.
#[derive(Clone, Copy, Debug, PartialEq, Eq, Structural)]
pub struct OverlayState {
    pub hidden: bool,
    pub minimized: bool,
}

/// What the hide/show hotkey does.
#[derive(Clone, Copy, Debug, PartialEq, Eq, Structural)]
pub enum PresenceAction {
    /// Show and un-minimize a minimized window.
    RestoreFromMinimized,
    /// Show a hidden window.
    Show,
    /// Hide a shown window.
    Hide,
}

/// The state after the window is hidden or shown.
pub open spec fn with_hidden(s: OverlayState, hidden: bool) -> OverlayState {
    OverlayState { hidden, minimized: s.minimized && !hidden }
}

/// The state after the window is minimized or restored.
pub open spec fn with_minimized(s: OverlayState, minimized: bool) -> OverlayState {
    OverlayState { hidden: s.hidden && !minimized, minimized }
}

/// The hotkey's action: restore a minimized window, else show a hidden
/// one, else hide.
pub open spec fn presence_action(s: OverlayState) -> PresenceAction {
    if s.minimized {
        PresenceAction::RestoreFromMinimized
    } else if s.hidden {
        PresenceAction::Show
    } else {
        PresenceAction::Hide
    }
}

/// The state once an action has been carried out on the window.
pub open spec fn after_presence(s: OverlayState, a: PresenceAction) -> OverlayState {
    match a {
        PresenceAction::RestoreFromMinimized => with_minimized(s, false),
        PresenceAction::Show => with_hidden(s, false),
        PresenceAction::Hide => with_hidden(s, true),
    }
}

/// Never hidden and minimized at once.
pub open spec fn is_consistent(s: OverlayState) -> bool {
    !(s.hidden && s.minimized)
}

impl OverlayState {
    /// A shown, un-minimized overlay.
    pub fn new() -> (s: Self)
        ensures
            !s.hidden,
            !s.minimized,
    {
        OverlayState { hidden: false, minimized: false }
    }

    /// Records that the window was hidden or shown; hiding also ends a
    /// minimized state.
    pub fn set_hidden_state(&mut self, hidden: bool)
        ensures
            *final(self) == with_hidden(*old(self), hidden),
    {
        self.hidden = hidden;
        if hidden {
            self.minimized = false;
        }
    }

    /// Records that the window was minimized or restored; minimizing also
    /// ends a hidden state.
    pub fn set_minimized_state(&mut self, minimized: bool)
        ensures
            *final(self) == with_minimized(*old(self), minimized),
    {
        self.minimized = minimized;
        if minimized {
            self.hidden = false;
        }
    }

    /// What the hide/show hotkey does in this state.
    pub fn toggle_presence(&self) -> (a: PresenceAction)
        ensures
            a == presence_action(*self),
    {
        if self.minimized {
            PresenceAction::RestoreFromMinimized
        } else if self.hidden {
            PresenceAction::Show
        } else {
            PresenceAction::Hide
        }
    }

    /// Records that an action was carried out on the window.
    pub fn apply_presence(&mut self, action: PresenceAction)
        ensures
            *final(self) == after_presence(*old(self), action),
    {
        match action {
            PresenceAction::RestoreFromMinimized => self.set_minimized_state(false),
            PresenceAction::Show => self.set_hidden_state(false),
            PresenceAction::Hide => self.set_hidden_state(true),
        }
    }
}

/// Hiding, showing, minimizing and restoring never leave the overlay hidden
/// and minimized at once, from whatever state they start.
pub proof fn law_presence_states_exclusive(s: OverlayState, flag: bool, a: PresenceAction)
    ensures
        is_consistent(with_hidden(s, flag)),
        is_consistent(with_minimized(s, flag)),
        is_consistent(s) ==> is_consistent(after_presence(s, a)),
{
}

/// The hotkey always leaves the overlay shown or hidden, never minimized;
/// from a minimized or hidden state it shows the overlay, from a shown one
/// it hides it.
pub proof fn law_toggle_shows_or_hides(s: OverlayState)
    requires
        is_consistent(s),
    ensures
        !after_presence(s, presence_action(s)).minimized,
        (s.minimized || s.hidden) ==> !after_presence(s, presence_action(s)).hidden,
        (!s.minimized && !s.hidden) ==> after_presence(s, presence_action(s)).hidden,
{
}

/// Pressing the hotkey twice on a shown overlay hides it and shows it
/// again.
pub proof fn law_toggle_twice_restores_shown(s: OverlayState)
    requires
        !s.hidden,
        !s.minimized,
    ensures
        ({
            let once = after_presence(s, presence_action(s));
            after_presence(once, presence_action(once)) == s
        }),
{
}

} // verus!
