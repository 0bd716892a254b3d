//! What the originating application knows of the simulation it drives.

use vstd::prelude::*;
use vstd::string::*;
use crate::session::RequestIds;

verus! {

/// The simulation's state as the originating application shows it.
#[derive(Clone, Copy, Debug, PartialEq, Eq, Structural)]
pub enum SimulationState {
    Stopped,
    Standby,
    Running,
}

impl SimulationState {
    /// The state's name, as displayed.
    pub fn to_string(&self) -> (r: String)
        ensures
            *self == SimulationState::Stopped ==> r@ == "Stopped"@,
            *self == SimulationState::Standby ==> r@ == "Standby"@,
            *self == SimulationState::Running ==> r@ == "Running"@,
    {
        match self {
            SimulationState::Stopped => String::from_str("Stopped"),
            SimulationState::Standby => String::from_str("Standby"),
            SimulationState::Running => String::from_str("Running"),
        }
    }
}

/// The originating application's shared state.
pub struct AppState {
    pub simulation_state: SimulationState,
    pub request_ids: RequestIds,
}

} // verus!
