use platformer_core::physic::{
    groups_interact, invisible_wall_groups, pawn_groups, player_groups, world_groups,
};
use platformer_core::state::{
    transition, ui_update, BPGameOverUiAction, BPGameState, GameEvent, StateChange,
};

#[test]
fn default_state_is_in_game() {
    assert_eq!(BPGameState::default(), BPGameState::InGame);
}

#[test]
fn transition_table_rows() {
    assert_eq!(
        transition(BPGameState::InGame, GameEvent::StompOutcome),
        StateChange::Next(BPGameState::Victory)
    );
    assert_eq!(
        transition(BPGameState::InGame, GameEvent::PlayerDefeatedOutcome),
        StateChange::Next(BPGameState::GameOver)
    );
    assert_eq!(
        transition(BPGameState::GameOver, GameEvent::Restart),
        StateChange::Next(BPGameState::InGame)
    );
    assert_eq!(
        transition(BPGameState::Victory, GameEvent::Restart),
        StateChange::Next(BPGameState::InGame)
    );
}

#[test]
fn quit_exits_from_every_state() {
    assert_eq!(transition(BPGameState::InGame, GameEvent::Quit), StateChange::Exit);
    assert_eq!(transition(BPGameState::GameOver, GameEvent::Quit), StateChange::Exit);
    assert_eq!(transition(BPGameState::Victory, GameEvent::Quit), StateChange::Exit);
}

#[test]
fn pairs_outside_the_table_change_nothing() {
    assert_eq!(
        transition(BPGameState::InGame, GameEvent::Restart),
        StateChange::Next(BPGameState::InGame)
    );
    assert_eq!(
        transition(BPGameState::GameOver, GameEvent::StompOutcome),
        StateChange::Next(BPGameState::GameOver)
    );
    assert_eq!(
        transition(BPGameState::GameOver, GameEvent::PlayerDefeatedOutcome),
        StateChange::Next(BPGameState::GameOver)
    );
    assert_eq!(
        transition(BPGameState::Victory, GameEvent::StompOutcome),
        StateChange::Next(BPGameState::Victory)
    );
    assert_eq!(
        transition(BPGameState::Victory, GameEvent::PlayerDefeatedOutcome),
        StateChange::Next(BPGameState::Victory)
    );
}

#[test]
fn restart_wins_over_quit() {
    assert_eq!(ui_update(true, true), Some(GameEvent::Restart));
    assert_eq!(ui_update(true, false), Some(GameEvent::Restart));
    assert_eq!(ui_update(false, true), Some(GameEvent::Quit));
    assert_eq!(ui_update(false, false), None);
    let _ = BPGameOverUiAction::Restart;
    let _ = BPGameOverUiAction::Quit;
}

#[test]
fn interaction_matrix() {
    assert!(groups_interact(player_groups(), world_groups()));
    assert!(groups_interact(player_groups(), pawn_groups()));
    assert!(groups_interact(player_groups(), invisible_wall_groups()));
    assert!(groups_interact(pawn_groups(), world_groups()));
    assert!(groups_interact(pawn_groups(), pawn_groups()));
    assert!(groups_interact(pawn_groups(), invisible_wall_groups()));
    assert!(!groups_interact(world_groups(), invisible_wall_groups()));
}
