//! The collision resolver.
//!
//! Once per tick the physics interface hands over every collision event
//! it produced; the resolver drains them in arrival order and classifies
//! each started contact by the roles of its two participants. A contact
//! without the player is ignored. A contact of the player with level
//! geometry only kicks up dust. A contact of the player with the enemy is
//! decided by the stomp rule: strictly above the enemy's head the enemy
//! dies, the player is knocked upward, and victory is requested; at or
//! below the margin the player dies and defeat is requested. An entity
//! despawned by an earlier event of the same tick makes later events
//! naming it inert.

use vstd::prelude::*;
use crate::geometry::Vec2I;
use crate::particle::BPSpawnDustMessage;
use crate::player::{FEET_OFFSET, spec_feet};
use crate::scene::{Entity, EntityKind, GameWorld, WorldView};
use crate::state::{BPGameState, GameEvent};

verus! {

/// The player must stand strictly more than this (20 world units) above
/// the enemy's position to stomp it; at the margin exactly, the player
/// loses.
pub const STOMP_MARGIN: i64 = 2_000;

/// The upward knock the player receives for a stomp.
pub const STOMP_IMPULSE: i64 = 1_000_000;

/// Motes in the dust kicked up by touching level geometry.
pub const TOUCH_DUST_COUNT: usize = 5;

/// One event of the physics interface's per-tick stream, naming the two
/// participants by entity identity.
#[derive(Clone, Copy, Debug, PartialEq, Eq, Structural)]
pub enum CollisionEvent {
    Started(u64, u64),
    Ended(u64, u64),
}

/// How one event was resolved.
#[derive(Clone, Copy, Debug, PartialEq, Eq, Structural)]
pub enum CollisionOutcome {
    /// The player took no part in the event (or a participant was
    /// already despawned): nothing happens.
    NotInvolved,
    /// The player touched recognized level geometry: dust at the feet,
    /// nothing else.
    SurfaceTouch(BPSpawnDustMessage),
    /// The player touched something that is neither the enemy nor
    /// recognized geometry: nothing happens.
    OtherTouch,
    /// The stomp: the enemy is despawned, the player is to be knocked
    /// upward by `impulse_y`, and a victory transition is requested.
    EnemyStomped { impulse_y: i64 },
    /// The player is despawned and a defeat transition is requested.
    PlayerDefeated,
}

/// The participant of the event that is the live player, if any; the
/// first identity is examined first.
pub open spec fn participant_player(v: WorldView, a: u64, b: u64) -> Option<u64> {
    if v.id_is_player(a) {
        Some(a)
    } else if v.id_is_player(b) {
        Some(b)
    } else {
        None
    }
}

/// The participant of the event that is the live enemy, if any.
pub open spec fn participant_enemy(v: WorldView, a: u64, b: u64) -> Option<u64> {
    if v.id_is_enemy(a) {
        Some(a)
    } else if v.id_is_enemy(b) {
        Some(b)
    } else {
        None
    }
}

/// Whether either participant is recognized level geometry.
pub open spec fn touches_geometry(v: WorldView, a: u64, b: u64) -> bool {
    v.id_is_geometry(a) || v.id_is_geometry(b)
}

/// The stomp rule: the player's position must be strictly more than the
/// stomp margin above the enemy's.
pub open spec fn spec_stomp(player: Entity, enemy: Entity) -> bool {
    player.position.y > enemy.position.y + STOMP_MARGIN
}

/// What resolving one started contact does to the world, and what it
/// answers.
pub open spec fn spec_resolve_started(v: WorldView, a: u64, b: u64) -> (WorldView, CollisionOutcome) {
    match participant_player(v, a, b) {
        None => (v, CollisionOutcome::NotInvolved),
        Some(pid) => match participant_enemy(v, a, b) {
            None => if touches_geometry(v, a, b) {
                (
                    v,
                    CollisionOutcome::SurfaceTouch(
                        BPSpawnDustMessage {
                            position: spec_feet(v.lookup(pid).position),
                            count: TOUCH_DUST_COUNT,
                        },
                    ),
                )
            } else {
                (v, CollisionOutcome::OtherTouch)
            },
            Some(eid) => if spec_stomp(v.lookup(pid), v.lookup(eid)) {
                (
                    WorldView {
                        state: v.state,
                        entities: v.entities.remove(v.entity_index(eid)),
                        next_id: v.next_id,
                    },
                    CollisionOutcome::EnemyStomped { impulse_y: STOMP_IMPULSE },
                )
            } else {
                (
                    WorldView {
                        state: v.state,
                        entities: v.entities.remove(v.entity_index(pid)),
                        next_id: v.next_id,
                    },
                    CollisionOutcome::PlayerDefeated,
                )
            },
        },
    }
}

/// What resolving one event does: ended contacts are ignored.
pub open spec fn spec_resolve_event(v: WorldView, ev: CollisionEvent) -> (
    WorldView,
    CollisionOutcome,
) {
    match ev {
        CollisionEvent::Started(a, b) => spec_resolve_started(v, a, b),
        CollisionEvent::Ended(_, _) => (v, CollisionOutcome::NotInvolved),
    }
}

/// Draining a whole event queue, front to back: each event is resolved
/// against the world the events before it left behind.
pub open spec fn spec_resolve_events(v: WorldView, events: Seq<CollisionEvent>) -> (
    WorldView,
    Seq<CollisionOutcome>,
)
    decreases events.len(),
{
    if events.len() == 0 {
        (v, Seq::empty())
    } else {
        let first = spec_resolve_event(v, events[0]);
        let rest = spec_resolve_events(first.0, events.drop_first());
        (rest.0, seq![first.1] + rest.1)
    }
}

/// The transition an outcome requests of the state machine, if any.
pub open spec fn spec_outcome_event(outcome: CollisionOutcome) -> Option<GameEvent> {
    match outcome {
        CollisionOutcome::EnemyStomped { .. } => Some(GameEvent::StompOutcome),
        CollisionOutcome::PlayerDefeated => Some(GameEvent::PlayerDefeatedOutcome),
        _ => None,
    }
}

pub fn outcome_event(outcome: CollisionOutcome) -> (r: Option<GameEvent>)
    ensures
        r == spec_outcome_event(outcome),
{
    match outcome {
        CollisionOutcome::EnemyStomped { .. } => Some(GameEvent::StompOutcome),
        CollisionOutcome::PlayerDefeated => Some(GameEvent::PlayerDefeatedOutcome),
        _ => None,
    }
}

fn kind_is_player(e: &Entity) -> (r: bool)
    ensures
        r == (e.kind is Player),
{
    match e.kind {
        EntityKind::Player { .. } => true,
        _ => false,
    }
}

fn kind_is_enemy(e: &Entity) -> (r: bool)
    ensures
        r == (e.kind is Enemy),
{
    match e.kind {
        EntityKind::Enemy { .. } => true,
        _ => false,
    }
}

fn kind_is_geometry(e: &Entity) -> (r: bool)
    ensures
        r == (e.kind is Geometry),
{
    match e.kind {
        EntityKind::Geometry => true,
        _ => false,
    }
}

/// Resolve one started contact between the entities named `a` and `b`.
pub fn resolve_collision_start(world: &mut GameWorld, a: u64, b: u64) -> (r: CollisionOutcome)
    requires
        old(world).wf(),
        old(world)@.state == BPGameState::InGame,
    ensures
        final(world).wf(),
        final(world)@.state == old(world)@.state,
        final(world)@.next_id == old(world)@.next_id,
        final(world)@ == spec_resolve_started(old(world)@, a, b).0,
        r == spec_resolve_started(old(world)@, a, b).1,
{
    let ghost v = world@;
    let ent_a = world.find_entity(a);
    let ent_b = world.find_entity(b);

    let mut player_id: u64 = 0;
    let mut player_ent: Option<Entity> = None;
    if let Some(e) = ent_a {
        if kind_is_player(&e) {
            player_id = a;
            player_ent = Some(e);
        }
    }
    if player_ent.is_none() {
        if let Some(e) = ent_b {
            if kind_is_player(&e) {
                player_id = b;
                player_ent = Some(e);
            }
        }
    }
    proof {
        if player_ent is Some {
            assert(participant_player(v, a, b) == Some(player_id));
            assert(player_ent == Some(v.lookup(player_id)));
        } else {
            assert(participant_player(v, a, b) is None);
        }
    }

    let mut enemy_id: u64 = 0;
    let mut enemy_ent: Option<Entity> = None;
    if let Some(e) = ent_a {
        if kind_is_enemy(&e) {
            enemy_id = a;
            enemy_ent = Some(e);
        }
    }
    if enemy_ent.is_none() {
        if let Some(e) = ent_b {
            if kind_is_enemy(&e) {
                enemy_id = b;
                enemy_ent = Some(e);
            }
        }
    }
    proof {
        if enemy_ent is Some {
            assert(participant_enemy(v, a, b) == Some(enemy_id));
            assert(enemy_ent == Some(v.lookup(enemy_id)));
        } else {
            assert(participant_enemy(v, a, b) is None);
        }
    }

    let mut geometry = false;
    if let Some(e) = ent_a {
        if kind_is_geometry(&e) {
            geometry = true;
        }
    }
    if let Some(e) = ent_b {
        if kind_is_geometry(&e) {
            geometry = true;
        }
    }
    proof {
        assert(geometry == touches_geometry(v, a, b));
    }

    match player_ent {
        None => CollisionOutcome::NotInvolved,
        Some(player) => {
            match enemy_ent {
                None => {
                    if geometry {
                        proof {
                            assert(v.entities[v.entity_index(player_id)].wf());
                        }
                        CollisionOutcome::SurfaceTouch(
                            BPSpawnDustMessage {
                                position: Vec2I {
                                    x: player.position.x,
                                    y: player.position.y - FEET_OFFSET,
                                },
                                count: TOUCH_DUST_COUNT,
                            },
                        )
                    } else {
                        CollisionOutcome::OtherTouch
                    }
                },
                Some(enemy) => {
                    proof {
                        assert(v.entities[v.entity_index(player_id)].wf());
                        assert(v.entities[v.entity_index(enemy_id)].wf());
                    }
                    if player.position.y > enemy.position.y + STOMP_MARGIN {
                        world.remove_entity(enemy_id);
                        CollisionOutcome::EnemyStomped { impulse_y: STOMP_IMPULSE }
                    } else {
                        world.remove_entity(player_id);
                        CollisionOutcome::PlayerDefeated
                    }
                },
            }
        },
    }
}

/// Drain the tick's whole event queue, in arrival order. Ended contacts
/// are ignored; an entity despawned by an earlier event leaves later
/// events naming it inert. One outcome is answered per event.
pub fn resolve_collision_events(world: &mut GameWorld, events: &Vec<CollisionEvent>) -> (outcomes:
    Vec<CollisionOutcome>)
    requires
        old(world).wf(),
        old(world)@.state == BPGameState::InGame,
    ensures
        final(world).wf(),
        final(world)@.state == old(world)@.state,
        final(world)@.next_id == old(world)@.next_id,
        final(world)@ == spec_resolve_events(old(world)@, events@).0,
        outcomes@ == spec_resolve_events(old(world)@, events@).1,
        outcomes@.len() == events@.len(),
{
    let ghost v0 = world@;
    let n = events.len();
    let mut outcomes: Vec<CollisionOutcome> = Vec::new();
    let mut i: usize = 0;
    proof {
        assert(events@.take(0) =~= Seq::<CollisionEvent>::empty());
        assert(outcomes@ =~= Seq::<CollisionOutcome>::empty());
    }
    while i < n
        invariant
            i <= n,
            n == events@.len(),
            v0 == old(world)@,
            v0.state == BPGameState::InGame,
            world.wf(),
            world@.state == v0.state,
            world@.next_id == v0.next_id,
            world@ == spec_resolve_events(v0, events@.take(i as int)).0,
            outcomes@ == spec_resolve_events(v0, events@.take(i as int)).1,
            outcomes@.len() == i,
        decreases n - i,
    {
        let ghost prefix = events@.take(i as int);
        let ev = events[i];
        let outcome = match ev {
            CollisionEvent::Started(a, b) => resolve_collision_start(world, a, b),
            CollisionEvent::Ended(_, _) => CollisionOutcome::NotInvolved,
        };
        outcomes.push(outcome);
        proof {
            assert(events@.take(i as int + 1) =~= prefix.push(ev));
            lemma_resolve_events_snoc(v0, prefix, ev);
            assert(outcomes@ =~= spec_resolve_events(v0, prefix).1.push(
                spec_resolve_event(spec_resolve_events(v0, prefix).0, ev).1,
            ));
        }
        i += 1;
    }
    proof {
        assert(events@.take(n as int) =~= events@);
    }
    outcomes
}

/// Appending one event to a queue resolves the queue first and the new
/// event against the world the queue left behind.
proof fn lemma_resolve_events_snoc(v: WorldView, s: Seq<CollisionEvent>, ev: CollisionEvent)
    ensures
        spec_resolve_events(v, s.push(ev)).0 == spec_resolve_event(
            spec_resolve_events(v, s).0,
            ev,
        ).0,
        spec_resolve_events(v, s.push(ev)).1 == spec_resolve_events(v, s).1.push(
            spec_resolve_event(spec_resolve_events(v, s).0, ev).1,
        ),
    decreases s.len(),
{
    reveal_with_fuel(spec_resolve_events, 3);
    let whole = s.push(ev);
    if s.len() == 0 {
        assert(whole[0] == ev);
        assert(whole.drop_first() =~= Seq::<CollisionEvent>::empty());
        assert(spec_resolve_events(v, whole).1 =~= spec_resolve_events(v, s).1.push(
            spec_resolve_event(spec_resolve_events(v, s).0, ev).1,
        ));
    } else {
        assert(whole[0] == s[0]);
        assert(whole.drop_first() =~= s.drop_first().push(ev));
        let first = spec_resolve_event(v, s[0]);
        lemma_resolve_events_snoc(first.0, s.drop_first(), ev);
        assert(spec_resolve_events(v, whole).1 =~= spec_resolve_events(v, s).1.push(
            spec_resolve_event(spec_resolve_events(v, s).0, ev).1,
        ));
    }
}

/// Law: the stomp boundary is exclusive. A player standing exactly at
/// the stomp margin above the enemy does not stomp: the contact resolves
/// to the player's defeat, and it is the player that is despawned.
pub proof fn lemma_stomp_tie_break(v: WorldView, a: u64, b: u64, pid: u64, eid: u64)
    requires
        v.inv(),
        participant_player(v, a, b) == Some(pid),
        participant_enemy(v, a, b) == Some(eid),
        v.lookup(pid).position.y == v.lookup(eid).position.y + STOMP_MARGIN,
    ensures
        spec_resolve_started(v, a, b).1 == CollisionOutcome::PlayerDefeated,
        spec_resolve_started(v, a, b).0.entities == v.entities.remove(v.entity_index(pid)),
{
}

} // verus!
