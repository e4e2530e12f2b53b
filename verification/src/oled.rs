use vstd::prelude::*;

use crate::supersonic::IntrusionStates;

verus! {

/// Period of the screen refresh, in milliseconds.
pub const UI_TICK_MS: u64 = 500;

/// Where the Ferris picture is drawn.
pub const FERRIS_X: i32 = 32;
pub const FERRIS_Y: i32 = 0;

/// Where the status text starts.
pub const TEXT_X: i32 = 0;
pub const TEXT_Y: i32 = 16;

/// What the screen must show after a refresh tick.
#[derive(Clone, Copy, Debug, PartialEq, Eq, Structural)]
pub enum ScreenAction {
    /// Leave the screen as it is.
    Keep,
    /// Clear the screen and draw the Ferris picture.
    DrawFerris,
    /// Clear the screen and draw the distance and joystick status text.
    DrawStatus,
}

/// Whether the Ferris picture is on screen after a tick in `state`: exactly
/// during an intrusion.
pub open spec fn ferris_after(state: IntrusionStates) -> bool {
    state == IntrusionStates::Danger
}

/// The action of a tick in `state` while the picture is or is not on screen.
pub open spec fn screen_action(showing_ferris: bool, state: IntrusionStates) -> ScreenAction {
    match state {
        IntrusionStates::Danger => if showing_ferris {
            ScreenAction::Keep
        } else {
            ScreenAction::DrawFerris
        },
        IntrusionStates::Safe => ScreenAction::DrawStatus,
    }
}

/// Decides what the screen shows: the Ferris picture during an intrusion,
/// drawn once when it starts, and a freshly drawn status text otherwise.
#[derive(Clone, Copy, Debug, PartialEq, Eq, Structural)]
pub struct ScreenPolicy {
    pub showing_ferris: bool,
}

impl ScreenPolicy {
    /// A policy for a blank screen.
    pub fn new() -> (res: ScreenPolicy)
        ensures
            !res.showing_ferris,
    {
        ScreenPolicy { showing_ferris: false }
    }

    /// Takes in the intrusion state read at a refresh tick and answers with
    /// what to draw.
    pub fn on_tick(&mut self, state: IntrusionStates) -> (action: ScreenAction)
        ensures
            action == screen_action(old(self).showing_ferris, state),
            final(self).showing_ferris == ferris_after(state),
    {
        match state {
            IntrusionStates::Danger => {
                if !self.showing_ferris {
                    self.showing_ferris = true;
                    ScreenAction::DrawFerris
                } else {
                    ScreenAction::Keep
                }
            },
            IntrusionStates::Safe => {
                self.showing_ferris = false;
                ScreenAction::DrawStatus
            },
        }
    }
}

/// The whole screen policy: a danger tick draws the picture exactly when it
/// is not already on screen and keeps the screen otherwise, a safe tick
/// always draws the status text, and the picture is on screen after a tick
/// exactly when that tick was in danger. A new policy has no picture on
/// screen, so its first danger tick draws it.
pub proof fn lemma_screen_policy_table(showing_ferris: bool, state: IntrusionStates)
    ensures
        (screen_action(showing_ferris, state) == ScreenAction::DrawFerris) == (state
            == IntrusionStates::Danger && !showing_ferris),
        (screen_action(showing_ferris, state) == ScreenAction::Keep) == (state
            == IntrusionStates::Danger && showing_ferris),
        (screen_action(showing_ferris, state) == ScreenAction::DrawStatus) == (state
            == IntrusionStates::Safe),
        ferris_after(state) == (state == IntrusionStates::Danger),
        screen_action(false, IntrusionStates::Danger) == ScreenAction::DrawFerris,
{
}

/// During an intrusion the picture is drawn on the first tick only: a second
/// tick in danger keeps the screen.
pub proof fn lemma_ferris_drawn_once()
    ensures
        screen_action(ferris_after(IntrusionStates::Danger), IntrusionStates::Danger)
            == ScreenAction::Keep,
{
}

/// The first tick in danger after a safe tick draws the picture, and every
/// safe tick redraws the status text.
pub proof fn lemma_screen_follows_state(showing_ferris: bool)
    ensures
        screen_action(ferris_after(IntrusionStates::Safe), IntrusionStates::Danger)
            == ScreenAction::DrawFerris,
        screen_action(showing_ferris, IntrusionStates::Safe) == ScreenAction::DrawStatus,
{
}

} // verus!
