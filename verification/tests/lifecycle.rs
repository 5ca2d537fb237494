use platformer_core::collision::{resolve_collision_start, CollisionOutcome, STOMP_IMPULSE};
use platformer_core::enemy::BPEnemyDirection;
use platformer_core::geometry::Vec2I;
use platformer_core::physic::{invisible_wall_groups, pawn_groups, player_groups, world_groups};
use platformer_core::player::{BPPlayerJumpStrength, BPPlayerRunStrength};
use platformer_core::scene::{Entity, EntityKind, GameWorld};
use platformer_core::state::{BPGameState, GameEvent, StateChange};

fn free_geometry(id: u64) -> Entity {
    Entity {
        id,
        kind: EntityKind::Geometry,
        position: Vec2I::new(0, 0),
        cleanup: false,
        groups: world_groups(),
    }
}

fn tagged_geometry(id: u64) -> Entity {
    Entity {
        id,
        kind: EntityKind::Geometry,
        position: Vec2I::new(0, -20_000),
        cleanup: true,
        groups: world_groups(),
    }
}

fn cleanup_count(w: &GameWorld) -> usize {
    w.entities.iter().filter(|e| e.cleanup).count()
}

#[test]
fn spawn_scene_builds_the_fixed_layout() {
    let mut w = GameWorld::new();
    w.spawn_scene();
    assert_eq!(w.state, BPGameState::InGame);
    assert_eq!(w.entities.len(), 5);
    assert_eq!(w.next_id, 5);

    let ground = &w.entities[0];
    assert_eq!(ground.id, 0);
    assert_eq!(ground.kind, EntityKind::Geometry);
    assert_eq!(ground.position, Vec2I::new(0, -20_000));
    assert!(ground.cleanup);
    assert_eq!(ground.groups, world_groups());

    let wall_right = &w.entities[1];
    assert_eq!(wall_right.position, Vec2I::new(70_000, -15_000));
    assert_eq!(wall_right.groups, invisible_wall_groups());
    let wall_left = &w.entities[2];
    assert_eq!(wall_left.position, Vec2I::new(-70_000, -15_000));
    assert_eq!(wall_left.groups, invisible_wall_groups());

    let player = &w.entities[3];
    assert_eq!(
        player.kind,
        EntityKind::Player {
            run_strength: BPPlayerRunStrength(9_500_000),
            jump_strength: BPPlayerJumpStrength(2_500_000),
        }
    );
    assert_eq!(player.position, Vec2I::new(0, 0));
    assert_eq!(player.groups, player_groups());

    let enemy = &w.entities[4];
    assert_eq!(enemy.kind, EntityKind::Enemy { direction: BPEnemyDirection(1) });
    assert_eq!(enemy.position, Vec2I::new(0, -15_000));
    assert_eq!(enemy.groups, pawn_groups());
}

#[test]
fn cleanup_with_no_tagged_entities_is_a_no_op() {
    let mut w = GameWorld {
        state: BPGameState::InGame,
        entities: vec![free_geometry(1)],
        next_id: 10,
    };
    w.cleanup_game();
    assert_eq!(w.entities.len(), 1);
    assert_eq!(cleanup_count(&w), 0);

    let mut empty = GameWorld::new();
    empty.cleanup_game();
    assert_eq!(empty.entities.len(), 0);
}

#[test]
fn cleanup_removes_one_tagged_entity() {
    let mut w = GameWorld {
        state: BPGameState::InGame,
        entities: vec![tagged_geometry(1), free_geometry(2)],
        next_id: 10,
    };
    w.cleanup_game();
    assert_eq!(w.entities.len(), 1);
    assert_eq!(w.entities[0].id, 2);
    assert_eq!(cleanup_count(&w), 0);
}

#[test]
fn cleanup_removes_many_and_repeats_safely() {
    let mut w = GameWorld::new();
    w.spawn_scene();
    w.entities.push(free_geometry(90));
    w.next_id = 91;
    assert_eq!(cleanup_count(&w), 5);
    w.cleanup_game();
    assert_eq!(cleanup_count(&w), 0);
    assert_eq!(w.entities.len(), 1);
    assert_eq!(w.entities[0].id, 90);
    w.cleanup_game();
    w.cleanup_game();
    assert_eq!(w.entities.len(), 1);
    assert_eq!(cleanup_count(&w), 0);
}

#[test]
fn quit_exits_and_touches_nothing() {
    let mut w = GameWorld::new();
    w.spawn_scene();
    let r = w.apply_game_event(GameEvent::Quit);
    assert_eq!(r, StateChange::Exit);
    assert_eq!(w.state, BPGameState::InGame);
    assert_eq!(w.entities.len(), 5);
}

#[test]
fn leaving_play_tears_the_scene_down() {
    let mut w = GameWorld::new();
    w.spawn_scene();
    let outcome = resolve_collision_start(&mut w, 3, 4);
    assert_eq!(outcome, CollisionOutcome::EnemyStomped { impulse_y: STOMP_IMPULSE });
    let r = w.apply_game_event(GameEvent::StompOutcome);
    assert_eq!(r, StateChange::Next(BPGameState::Victory));
    assert_eq!(w.state, BPGameState::Victory);
    assert_eq!(w.entities.len(), 0);
}

// From the game-over screen a restart rebuilds a fresh scene: one player,
// one enemy, three geometry entities, and nothing of the old round.
#[test]
fn restart_spawns_a_fresh_round() {
    let mut w = GameWorld::new();
    w.spawn_scene();
    // At spawn the player stands far above the enemy, so this contact
    // resolves to a stomp and ends the round.
    let outcome = resolve_collision_start(&mut w, 3, 4);
    assert!(matches!(outcome, CollisionOutcome::EnemyStomped { .. }));
    let r = w.apply_game_event(GameEvent::StompOutcome);
    assert!(matches!(r, StateChange::Next(_)));
    assert_eq!(w.entities.len(), 0);

    let old_mark = w.next_id;
    let r2 = w.apply_game_event(GameEvent::Restart);
    assert_eq!(r2, StateChange::Next(BPGameState::InGame));
    assert_eq!(w.state, BPGameState::InGame);
    assert_eq!(w.entities.len(), 5);

    let mut players = 0usize;
    let mut enemies = 0usize;
    let mut geometry = 0usize;
    for e in w.entities.iter() {
        assert!(e.id >= old_mark);
        assert!(e.cleanup);
        match e.kind {
            EntityKind::Player { .. } => players += 1,
            EntityKind::Enemy { .. } => enemies += 1,
            EntityKind::Geometry => geometry += 1,
        }
    }
    assert_eq!(players, 1);
    assert_eq!(enemies, 1);
    assert_eq!(geometry, 3);
}

#[test]
fn restart_from_game_over_state() {
    let mut w = GameWorld {
        state: BPGameState::GameOver,
        entities: vec![free_geometry(1)],
        next_id: 10,
    };
    let r = w.apply_game_event(GameEvent::Restart);
    assert_eq!(r, StateChange::Next(BPGameState::InGame));
    assert_eq!(w.state, BPGameState::InGame);
    assert_eq!(w.entities.len(), 6);
    assert_eq!(w.entities[0].id, 1);
    assert_eq!(w.next_id, 15);
}
