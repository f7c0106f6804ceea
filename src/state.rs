//! Matchmaking state.
use vstd::prelude::*;

verus! {

/// Where the game stands in finding someone to play with.
#[derive(Clone, Copy, Debug, PartialEq, Eq, Structural, Hash)]
pub enum AppState {
    Alone,
    MatchingRandom,
    MatchingByKey,
    CreatingRoom,
    Connected,
}

/// The state scheduled by the two matchmaking buttons, when nothing else was
/// scheduled this frame: a switch to the state one is in is refused, and once
/// a switch is scheduled the next one is refused too.
pub open spec fn button_transition(current: AppState, random: bool, room: bool) -> Option<AppState> {
    if random && current != AppState::MatchingRandom {
        Some(AppState::MatchingRandom)
    } else if room && current != AppState::CreatingRoom {
        Some(AppState::CreatingRoom)
    } else {
        None
    }
}

impl AppState {
    /// Whether both players are in one room.
    pub fn is_connected(&self) -> (r: bool)
        ensures
            r == (*self == AppState::Connected),
    {
        match self {
            AppState::Connected => true,
            _ => false,
        }
    }

    /// The state that pressing the random-match button (`random`) and the
    /// create-room button (`room`) schedules, the random one first.
    pub fn after_buttons(&self, random: bool, room: bool) -> (r: Option<AppState>)
        ensures
            r == button_transition(*self, random, room),
    {
        if random && !matches!(self, AppState::MatchingRandom) {
            Some(AppState::MatchingRandom)
        } else if room && !matches!(self, AppState::CreatingRoom) {
            Some(AppState::CreatingRoom)
        } else {
            None
        }
    }
}

} // verus!