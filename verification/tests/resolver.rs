use platformer_core::collision::{
    outcome_event, resolve_collision_events, resolve_collision_start, CollisionEvent,
    CollisionOutcome, STOMP_IMPULSE, TOUCH_DUST_COUNT,
};
use platformer_core::enemy::BPEnemyDirection;
use platformer_core::geometry::Vec2I;
use platformer_core::physic::{pawn_groups, player_groups, world_groups};
use platformer_core::player::{BPPlayerJumpStrength, BPPlayerRunStrength};
use platformer_core::scene::{Entity, EntityKind, GameWorld};
use platformer_core::state::{BPGameState, GameEvent, StateChange};

fn player_at(id: u64, x: i64, y: i64) -> Entity {
    Entity {
        id,
        kind: EntityKind::Player {
            run_strength: BPPlayerRunStrength(9_500_000),
            jump_strength: BPPlayerJumpStrength(2_500_000),
        },
        position: Vec2I::new(x, y),
        cleanup: true,
        groups: player_groups(),
    }
}

fn enemy_at(id: u64, x: i64, y: i64) -> Entity {
    Entity {
        id,
        kind: EntityKind::Enemy { direction: BPEnemyDirection(1) },
        position: Vec2I::new(x, y),
        cleanup: true,
        groups: pawn_groups(),
    }
}

fn ground(id: u64) -> Entity {
    Entity {
        id,
        kind: EntityKind::Geometry,
        position: Vec2I::new(0, -20_000),
        cleanup: true,
        groups: world_groups(),
    }
}

fn world_with(entities: Vec<Entity>) -> GameWorld {
    GameWorld { state: BPGameState::InGame, entities, next_id: 100 }
}

// The player stands 20.01 units above the enemy: the stomp lands. The
// enemy is despawned, the player is knocked upward, and victory is
// requested.
#[test]
fn stomp_above_margin_defeats_enemy() {
    let mut w = world_with(vec![player_at(1, 0, 0), enemy_at(2, 0, -2_001)]);
    let outcome = resolve_collision_start(&mut w, 1, 2);
    assert_eq!(outcome, CollisionOutcome::EnemyStomped { impulse_y: STOMP_IMPULSE });
    assert_eq!(STOMP_IMPULSE, 1_000_000);
    assert!(w.find_entity(2).is_none());
    assert!(w.find_entity(1).is_some());
    assert_eq!(outcome_event(outcome), Some(GameEvent::StompOutcome));
    let r = w.apply_game_event(GameEvent::StompOutcome);
    assert_eq!(r, StateChange::Next(BPGameState::Victory));
    assert_eq!(w.state, BPGameState::Victory);
}

// The player overlaps the enemy from the side: the player dies and defeat
// is requested.
#[test]
fn side_contact_defeats_player() {
    let mut w = world_with(vec![player_at(1, 0, 0), enemy_at(2, 0, -1_900)]);
    let outcome = resolve_collision_start(&mut w, 1, 2);
    assert_eq!(outcome, CollisionOutcome::PlayerDefeated);
    assert!(w.find_entity(1).is_none());
    assert!(w.find_entity(2).is_some());
    assert_eq!(outcome_event(outcome), Some(GameEvent::PlayerDefeatedOutcome));
    let r = w.apply_game_event(GameEvent::PlayerDefeatedOutcome);
    assert_eq!(r, StateChange::Next(BPGameState::GameOver));
    assert_eq!(w.state, BPGameState::GameOver);
}

// Exactly at the margin the boundary is exclusive: no stomp.
#[test]
fn tie_at_margin_defeats_player() {
    let mut w = world_with(vec![player_at(1, 0, 0), enemy_at(2, 0, -2_000)]);
    let outcome = resolve_collision_start(&mut w, 1, 2);
    assert_eq!(outcome, CollisionOutcome::PlayerDefeated);
    assert!(w.find_entity(1).is_none());
}

#[test]
fn one_unit_past_margin_stomps() {
    let mut w = world_with(vec![player_at(1, 500, 10), enemy_at(2, 500, 10 - 2_001)]);
    let outcome = resolve_collision_start(&mut w, 1, 2);
    assert_eq!(outcome, CollisionOutcome::EnemyStomped { impulse_y: STOMP_IMPULSE });
}

// Role classification does not depend on the order of the event's pair.
#[test]
fn swapped_participants_resolve_alike() {
    let mut w = world_with(vec![player_at(1, 0, 0), enemy_at(2, 0, -2_001)]);
    let outcome = resolve_collision_start(&mut w, 2, 1);
    assert_eq!(outcome, CollisionOutcome::EnemyStomped { impulse_y: STOMP_IMPULSE });
}

#[test]
fn geometry_touch_kicks_up_dust() {
    let mut w = world_with(vec![player_at(1, 300, -100), ground(7)]);
    let outcome = resolve_collision_start(&mut w, 1, 7);
    match outcome {
        CollisionOutcome::SurfaceTouch(m) => {
            assert_eq!(m.count, TOUCH_DUST_COUNT);
            assert_eq!(m.position, Vec2I::new(300, -2_600));
        }
        other => panic!("expected a surface touch, got {:?}", other),
    }
    assert!(w.find_entity(1).is_some());
    assert_eq!(outcome_event(outcome), None);
}

#[test]
fn unknown_touch_has_no_effect() {
    let mut w = world_with(vec![player_at(1, 0, 0)]);
    let outcome = resolve_collision_start(&mut w, 1, 99);
    assert_eq!(outcome, CollisionOutcome::OtherTouch);
    assert_eq!(w.entities.len(), 1);
}

#[test]
fn event_without_player_is_ignored() {
    let mut w = world_with(vec![player_at(1, 0, 0), enemy_at(2, 0, -1_900), ground(7)]);
    let outcome = resolve_collision_start(&mut w, 2, 7);
    assert_eq!(outcome, CollisionOutcome::NotInvolved);
    assert_eq!(w.entities.len(), 3);
}

// Events are drained in arrival order; once the player is despawned by an
// earlier event, later events naming it are inert.
#[test]
fn stale_reference_in_same_tick_is_inert() {
    let mut w = world_with(vec![player_at(1, 0, 0), enemy_at(2, 0, -1_900), ground(7)]);
    let events = vec![CollisionEvent::Started(1, 2), CollisionEvent::Started(1, 7)];
    let outcomes = resolve_collision_events(&mut w, &events);
    assert_eq!(
        outcomes,
        vec![CollisionOutcome::PlayerDefeated, CollisionOutcome::NotInvolved]
    );
    assert!(w.find_entity(1).is_none());
}

#[test]
fn ended_events_are_ignored() {
    let mut w = world_with(vec![player_at(1, 0, 0), enemy_at(2, 0, -1_900)]);
    let events = vec![CollisionEvent::Ended(1, 2)];
    let outcomes = resolve_collision_events(&mut w, &events);
    assert_eq!(outcomes, vec![CollisionOutcome::NotInvolved]);
    assert_eq!(w.entities.len(), 2);
}

#[test]
fn dust_touch_then_stomp_in_one_tick() {
    let mut w = world_with(vec![player_at(1, 0, 0), enemy_at(2, 0, -2_001), ground(7)]);
    let events = vec![CollisionEvent::Started(7, 1), CollisionEvent::Started(2, 1)];
    let outcomes = resolve_collision_events(&mut w, &events);
    assert_eq!(outcomes.len(), 2);
    assert!(matches!(outcomes[0], CollisionOutcome::SurfaceTouch(_)));
    assert_eq!(outcomes[1], CollisionOutcome::EnemyStomped { impulse_y: STOMP_IMPULSE });
    assert!(w.find_entity(2).is_none());
}
