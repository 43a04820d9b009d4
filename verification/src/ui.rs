//! The side panel: its toggle, and what a click on one of its building
//! buttons asks for.

use vstd::prelude::*;

use crate::building::{BuildingModeChange, BuildingState, BuildingType};

verus! {

/// Whether the side panel is shown.
#[derive(Clone, Copy, PartialEq, Eq, Debug, Structural)]
pub struct PanelState {
    pub active: bool,
}

impl Default for PanelState {
    /// The panel is shown at first.
    fn default() -> (state: Self)
        ensures
            state.active,
    {
        PanelState { active: true }
    }
}

impl PanelState {
    /// Where the bottom edge of the panel goes on the next toggle, in
    /// pixels: out of sight for a panel that is shown, back in place for a
    /// hidden one.
    pub open spec fn goal(self) -> int {
        if self.active {
            -450
        } else {
            0
        }
    }

    /// Handles the toggle key: where `toggled` holds, the panel changes
    /// between shown and hidden, and the new place of its bottom edge is
    /// returned.
    pub fn on_panel_toggle(&mut self, toggled: bool) -> (bottom: Option<i32>)
        ensures
            toggled ==> bottom == Some(old(self).goal() as i32),
            toggled ==> final(self).active != old(self).active,
            !toggled ==> bottom is None && *final(self) == *old(self),
    {
        if toggled {
            let goal: i32 = if self.active {
                -450
            } else {
                0
            };
            self.active = !self.active;
            Some(goal)
        } else {
            None
        }
    }
}

/// What a click on a building button sets off.
#[derive(Clone, Copy, PartialEq, Eq, Debug, Structural)]
pub struct ButtonResponse {
    /// Whether the panel is to be toggled.
    pub toggle_panel: bool,
    /// The change of build mode to announce.
    pub change: BuildingModeChange,
}

/// Handles a click on the button of `building`: the click turns build mode
/// on for that building where it was off, and off where it was on; and a
/// panel that is shown is put away as build mode begins.
pub fn on_building_btn_click(
    building_state: &BuildingState,
    panel_state: &PanelState,
    building: BuildingType,
) -> (response: ButtonResponse)
    ensures
        response.change.state == !building_state.mode_active,
        response.change.building == (if building_state.mode_active {
            None
        } else {
            Some(building)
        }),
        response.toggle_panel == (panel_state.active && !building_state.mode_active),
{
    let state = !building_state.mode_active;
    let building = if state {
        Some(building)
    } else {
        None
    };
    ButtonResponse {
        toggle_panel: panel_state.active && state,
        change: BuildingModeChange { state, building },
    }
}

} // verus!
