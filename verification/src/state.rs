//! The game-state machine.
//!
//! A single authoritative phase value drives the whole match: play starts
//! in `InGame`, a resolved collision ends it in `Victory` or `GameOver`,
//! and an explicit restart returns to `InGame`. An explicit quit ends the
//! process from any phase. Transitions are a total function of the current
//! state and the trigger event; pairs outside the table leave the state
//! unchanged.

use vstd::prelude::*;

verus! {

/// The single process-wide game phase.
#[derive(Clone, Copy, Debug, PartialEq, Eq, Structural)]
pub enum BPGameState {
    InGame,
    GameOver,
    Victory,
}

impl Default for BPGameState {
    /// Play begins in `InGame`.
    fn default() -> (r: BPGameState)
        ensures
            r == BPGameState::InGame,
    {
        BPGameState::InGame
    }
}

/// A trigger the state machine reacts to: the two collision outcomes the
/// resolver can request, and the two explicit actions of the end screens.
#[derive(Clone, Copy, Debug, PartialEq, Eq, Structural)]
pub enum GameEvent {
    StompOutcome,
    PlayerDefeatedOutcome,
    Restart,
    Quit,
}

/// What a transition resolves to: a next phase, or the end of the process.
#[derive(Clone, Copy, Debug, PartialEq, Eq, Structural)]
pub enum StateChange {
    Next(BPGameState),
    Exit,
}

/// The rows of the transition table: exactly these (state, event) pairs
/// move the machine to a different phase (quit aside, which exits).
pub open spec fn in_transition_table(s: BPGameState, e: GameEvent) -> bool {
    ||| (s == BPGameState::InGame && e == GameEvent::StompOutcome)
    ||| (s == BPGameState::InGame && e == GameEvent::PlayerDefeatedOutcome)
    ||| (s == BPGameState::GameOver && e == GameEvent::Restart)
    ||| (s == BPGameState::Victory && e == GameEvent::Restart)
}

/// The transition function itself, total over every (state, event) pair.
pub open spec fn spec_transition(s: BPGameState, e: GameEvent) -> StateChange {
    match e {
        GameEvent::Quit => StateChange::Exit,
        GameEvent::StompOutcome => if s == BPGameState::InGame {
            StateChange::Next(BPGameState::Victory)
        } else {
            StateChange::Next(s)
        },
        GameEvent::PlayerDefeatedOutcome => if s == BPGameState::InGame {
            StateChange::Next(BPGameState::GameOver)
        } else {
            StateChange::Next(s)
        },
        GameEvent::Restart => if s == BPGameState::GameOver || s == BPGameState::Victory {
            StateChange::Next(BPGameState::InGame)
        } else {
            StateChange::Next(s)
        },
    }
}

/// Commit one trigger against the current phase.
pub fn transition(s: BPGameState, e: GameEvent) -> (r: StateChange)
    ensures
        r == spec_transition(s, e),
{
    match e {
        GameEvent::Quit => StateChange::Exit,
        GameEvent::StompOutcome => if s == BPGameState::InGame {
            StateChange::Next(BPGameState::Victory)
        } else {
            StateChange::Next(s)
        },
        GameEvent::PlayerDefeatedOutcome => if s == BPGameState::InGame {
            StateChange::Next(BPGameState::GameOver)
        } else {
            StateChange::Next(s)
        },
        GameEvent::Restart => if s == BPGameState::GameOver || s == BPGameState::Victory {
            StateChange::Next(BPGameState::InGame)
        } else {
            StateChange::Next(s)
        },
    }
}

/// Law: the machine follows the transition table exactly. Each row of the
/// table yields the row's destination; quit exits from every phase; and no
/// (state, event) pair outside the table changes the phase.
pub proof fn lemma_transition_totality()
    ensures
        spec_transition(BPGameState::InGame, GameEvent::StompOutcome)
            == StateChange::Next(BPGameState::Victory),
        spec_transition(BPGameState::InGame, GameEvent::PlayerDefeatedOutcome)
            == StateChange::Next(BPGameState::GameOver),
        spec_transition(BPGameState::GameOver, GameEvent::Restart)
            == StateChange::Next(BPGameState::InGame),
        spec_transition(BPGameState::Victory, GameEvent::Restart)
            == StateChange::Next(BPGameState::InGame),
        forall|s: BPGameState| spec_transition(s, GameEvent::Quit) == StateChange::Exit,
        forall|s: BPGameState, e: GameEvent|
            e != GameEvent::Quit && !in_transition_table(s, e)
                ==> spec_transition(s, e) == StateChange::Next(s),
{
}

/// The end-screen action set: what the overlay of a finished match listens
/// for.
#[derive(Clone, Copy, Debug, PartialEq, Eq, Structural)]
pub enum BPGameOverUiAction {
    Restart,
    Quit,
}

/// One tick of the end-screen controls: a just-pressed restart wins over a
/// just-pressed quit; with neither, nothing is requested.
pub fn ui_update(restart_just_pressed: bool, quit_just_pressed: bool) -> (r: Option<GameEvent>)
    ensures
        restart_just_pressed ==> r == Some(GameEvent::Restart),
        !restart_just_pressed && quit_just_pressed ==> r == Some(GameEvent::Quit),
        !restart_just_pressed && !quit_just_pressed ==> r is None,
{
    if restart_just_pressed {
        Some(GameEvent::Restart)
    } else if quit_just_pressed {
        Some(GameEvent::Quit)
    } else {
        None
    }
}

} // verus!
