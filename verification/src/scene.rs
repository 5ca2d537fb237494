//! The game world and its scene lifecycle.
//!
//! The world holds the single authoritative game state and the gameplay
//! entities: the player, the patrolling enemy, and the level geometry.
//! Entering play spawns the scene in a fixed order — ground, the two
//! invisible walls, the player, the enemy — and every spawned entity
//! carries the cleanup tag. Leaving play tears down every cleanup-tagged
//! entity in one step, whatever else happened before.

use vstd::prelude::*;
use crate::enemy::BPEnemyDirection;
use crate::geometry::Vec2I;
use crate::physic::CollisionGroups;
use crate::physic::{invisible_wall_groups, pawn_groups, player_groups, world_groups};
use crate::physic::{spec_invisible_wall_groups, spec_pawn_groups, spec_player_groups, spec_world_groups};
use crate::player::{BPPlayerJumpStrength, BPPlayerRunStrength};
use crate::player::{PLAYER_JUMP_STRENGTH, PLAYER_RUN_STRENGTH};
use crate::state::{BPGameState, GameEvent, StateChange, spec_transition, transition};

verus! {

/// Vertical position of the ground slab (−200 world units).
pub const GROUND_POS_Y: i64 = -20_000;

/// The invisible walls stand this far (700 world units) to each side of
/// the center.
pub const WALL_OFFSET_X: i64 = 70_000;

/// Vertical position of the invisible walls (−150 world units).
pub const WALL_POS_Y: i64 = -15_000;

/// The enemy patrols at this height (−150 world units); the player spawns
/// at the center.
pub const ENEMY_SPAWN_Y: i64 = -15_000;

/// What role a gameplay entity plays, with the per-role state it carries.
#[derive(Clone, Copy, Debug, PartialEq, Eq, Structural)]
pub enum EntityKind {
    Player { run_strength: BPPlayerRunStrength, jump_strength: BPPlayerJumpStrength },
    Enemy { direction: BPEnemyDirection },
    Geometry,
}

/// One gameplay entity: its identity, role, position, lifecycle tag, and
/// collision groups.
#[derive(Clone, Copy, Debug, PartialEq, Eq, Structural)]
pub struct Entity {
    pub id: u64,
    pub kind: EntityKind,
    pub position: Vec2I,
    pub cleanup: bool,
    pub groups: CollisionGroups,
}

impl Entity {
    /// A well-formed entity: its position is in bounds, its collision
    /// groups are the fixed masks of its role, the player and the enemy
    /// are cleanup-tagged and carry well-formed per-role state.
    pub open spec fn wf(self) -> bool {
        &&& self.position.bounded()
        &&& match self.kind {
            EntityKind::Player { run_strength, jump_strength } => {
                &&& self.cleanup
                &&& run_strength.wf()
                &&& jump_strength.wf()
                &&& self.groups == spec_player_groups()
            },
            EntityKind::Enemy { direction } => {
                &&& self.cleanup
                &&& direction.wf()
                &&& self.groups == spec_pawn_groups()
            },
            EntityKind::Geometry => {
                self.groups == spec_world_groups() || self.groups == spec_invisible_wall_groups()
            },
        }
    }
}

/// The mathematical view of a game world.
pub struct WorldView {
    pub state: BPGameState,
    pub entities: Seq<Entity>,
    pub next_id: u64,
}

impl WorldView {
    pub open spec fn has_entity(self, id: u64) -> bool {
        exists|i: int| 0 <= i < self.entities.len() && self.entities[i].id == id
    }

    /// The index of the entity carrying `id`; meaningful only under
    /// `has_entity`.
    pub open spec fn entity_index(self, id: u64) -> int {
        choose|i: int| 0 <= i < self.entities.len() && self.entities[i].id == id
    }

    /// The entity carrying `id`; meaningful only under `has_entity`.
    pub open spec fn lookup(self, id: u64) -> Entity {
        self.entities[self.entity_index(id)]
    }

    pub open spec fn id_is_player(self, id: u64) -> bool {
        self.has_entity(id) && self.lookup(id).kind is Player
    }

    pub open spec fn id_is_enemy(self, id: u64) -> bool {
        self.has_entity(id) && self.lookup(id).kind is Enemy
    }

    pub open spec fn id_is_geometry(self, id: u64) -> bool {
        self.has_entity(id) && self.lookup(id).kind is Geometry
    }

    /// The world invariant: entities are well-formed with pairwise
    /// distinct identities below the allocation mark, the player and the
    /// enemy are singletons, and outside play no cleanup-tagged entity
    /// survives.
    pub open spec fn inv(self) -> bool {
        &&& forall|i: int|
            0 <= i < self.entities.len() ==> (#[trigger] self.entities[i]).wf()
        &&& forall|i: int, j: int|
            0 <= i < j < self.entities.len()
                ==> (#[trigger] self.entities[i]).id != (#[trigger] self.entities[j]).id
        &&& forall|i: int|
            0 <= i < self.entities.len() ==> (#[trigger] self.entities[i]).id < self.next_id
        &&& forall|i: int, j: int|
            0 <= i < j < self.entities.len()
                ==> !((#[trigger] self.entities[i]).kind is Player
                    && (#[trigger] self.entities[j]).kind is Player)
        &&& forall|i: int, j: int|
            0 <= i < j < self.entities.len()
                ==> !((#[trigger] self.entities[i]).kind is Enemy
                    && (#[trigger] self.entities[j]).kind is Enemy)
        &&& (self.state != BPGameState::InGame ==> forall|i: int|
            0 <= i < self.entities.len() ==> !(#[trigger] self.entities[i]).cleanup)
    }
}

/// The entities that survive a teardown: exactly those without the
/// cleanup tag, in their old order.
pub open spec fn retained_entities(s: Seq<Entity>) -> Seq<Entity>
    decreases s.len(),
{
    if s.len() == 0 {
        Seq::empty()
    } else {
        let rest = retained_entities(s.drop_last());
        if s.last().cleanup {
            rest
        } else {
            rest.push(s.last())
        }
    }
}

/// No player and no enemy among the entities.
pub open spec fn no_actor_entities(s: Seq<Entity>) -> bool {
    forall|i: int|
        0 <= i < s.len()
            ==> !((#[trigger] s[i]).kind is Player) && !(s[i].kind is Enemy)
}

/// The ground slab, at the fixed spawn position.
pub open spec fn spec_ground(id: u64) -> Entity {
    Entity {
        id,
        kind: EntityKind::Geometry,
        position: Vec2I { x: 0, y: GROUND_POS_Y },
        cleanup: true,
        groups: spec_world_groups(),
    }
}

/// An invisible turnaround wall at horizontal position `x`.
pub open spec fn spec_invisible_wall(id: u64, x: i64) -> Entity {
    Entity {
        id,
        kind: EntityKind::Geometry,
        position: Vec2I { x, y: WALL_POS_Y },
        cleanup: true,
        groups: spec_invisible_wall_groups(),
    }
}

/// The player at the center spawn, with the fixed run and jump gains.
pub open spec fn spec_player_entity(id: u64) -> Entity {
    Entity {
        id,
        kind: EntityKind::Player {
            run_strength: BPPlayerRunStrength(PLAYER_RUN_STRENGTH),
            jump_strength: BPPlayerJumpStrength(PLAYER_JUMP_STRENGTH),
        },
        position: Vec2I { x: 0, y: 0 },
        cleanup: true,
        groups: spec_player_groups(),
    }
}

/// The enemy at its fixed spawn, patrolling rightward.
pub open spec fn spec_enemy_entity(id: u64) -> Entity {
    Entity {
        id,
        kind: EntityKind::Enemy { direction: BPEnemyDirection(1) },
        position: Vec2I { x: 0, y: ENEMY_SPAWN_Y },
        cleanup: true,
        groups: spec_pawn_groups(),
    }
}

/// The freshly spawned scene, in its fixed order: ground, right wall,
/// left wall, player, enemy, with identities counted up from `id0`.
pub open spec fn spec_scene_entities(id0: u64) -> Seq<Entity> {
    seq![
        spec_ground(id0),
        spec_invisible_wall((id0 + 1) as u64, WALL_OFFSET_X),
        spec_invisible_wall((id0 + 2) as u64, (-WALL_OFFSET_X) as i64),
        spec_player_entity((id0 + 3) as u64),
        spec_enemy_entity((id0 + 4) as u64),
    ]
}

/// Every entity a teardown keeps stood in the old world, and none of
/// them carries the cleanup tag.
proof fn lemma_retained_elems(s: Seq<Entity>)
    ensures
        forall|i: int|
            0 <= i < retained_entities(s).len() ==> s.contains(
                #[trigger] retained_entities(s)[i],
            ),
        forall|i: int|
            0 <= i < retained_entities(s).len() ==> !(#[trigger] retained_entities(s)[i]).cleanup,
    decreases s.len(),
{
    if s.len() > 0 {
        lemma_retained_elems(s.drop_last());
        let r = retained_entities(s);
        let rd = retained_entities(s.drop_last());
        assert forall|i: int| 0 <= i < r.len() implies s.contains(#[trigger] r[i])
            && !r[i].cleanup by {
            if i < rd.len() {
                assert(s.drop_last().contains(rd[i]));
                let j = choose|j: int|
                    0 <= j < s.drop_last().len() && s.drop_last()[j] == rd[i];
                assert(s[j] == rd[i]);
            } else {
                assert(r[i] == s.last());
                assert(s[s.len() - 1] == s.last());
            }
        }
    }
}

/// A world without cleanup-tagged entities is untouched by teardown.
proof fn lemma_retained_all(s: Seq<Entity>)
    requires
        forall|i: int| 0 <= i < s.len() ==> !(#[trigger] s[i]).cleanup,
    ensures
        retained_entities(s) == s,
    decreases s.len(),
{
    if s.len() > 0 {
        assert(!s[s.len() - 1].cleanup);
        lemma_retained_all(s.drop_last());
        assert(retained_entities(s) =~= s);
    } else {
        assert(retained_entities(s) =~= s);
    }
}

/// Teardown preserves the pairwise uniqueness facts of the world
/// invariant.
proof fn lemma_retained_distinct(s: Seq<Entity>)
    requires
        forall|i: int, j: int|
            0 <= i < j < s.len() ==> (#[trigger] s[i]).id != (#[trigger] s[j]).id,
        forall|i: int, j: int|
            0 <= i < j < s.len()
                ==> !((#[trigger] s[i]).kind is Player && (#[trigger] s[j]).kind is Player),
        forall|i: int, j: int|
            0 <= i < j < s.len()
                ==> !((#[trigger] s[i]).kind is Enemy && (#[trigger] s[j]).kind is Enemy),
    ensures
        forall|a: int, b: int|
            0 <= a < b < retained_entities(s).len() ==> (#[trigger] retained_entities(s)[a]).id
                != (#[trigger] retained_entities(s)[b]).id,
        forall|a: int, b: int|
            0 <= a < b < retained_entities(s).len()
                ==> !((#[trigger] retained_entities(s)[a]).kind is Player && (
            #[trigger] retained_entities(s)[b]).kind is Player),
        forall|a: int, b: int|
            0 <= a < b < retained_entities(s).len()
                ==> !((#[trigger] retained_entities(s)[a]).kind is Enemy && (
            #[trigger] retained_entities(s)[b]).kind is Enemy),
    decreases s.len(),
{
    if s.len() > 0 {
        lemma_retained_distinct(s.drop_last());
        lemma_retained_elems(s.drop_last());
        let r = retained_entities(s);
        let rd = retained_entities(s.drop_last());
        assert forall|a: int, b: int| 0 <= a < b < r.len() implies (#[trigger] r[a]).id != (
        #[trigger] r[b]).id && !(r[a].kind is Player && r[b].kind is Player) && !(r[a].kind
            is Enemy && r[b].kind is Enemy) by {
            if b < rd.len() {
            } else {
                assert(r[b] == s.last());
                assert(s.drop_last().contains(rd[a]));
                let j = choose|j: int|
                    0 <= j < s.drop_last().len() && s.drop_last()[j] == rd[a];
                assert(s[j] == rd[a]);
                assert(s[s.len() - 1] == s.last());
            }
        }
    }
}

/// Law: teardown is idempotent and total. Whatever mix of cleanup-tagged
/// and untagged entities a world holds, one teardown leaves no tagged
/// entity behind, and tearing down again changes nothing.
pub proof fn lemma_cleanup_idempotent(s: Seq<Entity>)
    ensures
        forall|i: int|
            0 <= i < retained_entities(s).len() ==> !(#[trigger] retained_entities(s)[i]).cleanup,
        retained_entities(retained_entities(s)) == retained_entities(s),
{
    lemma_retained_elems(s);
    lemma_retained_all(retained_entities(s));
}

/// What committing a transition to `s2` leaves of a world: nothing new on
/// a self-loop; otherwise a teardown of every cleanup-tagged entity when
/// play is being left, and a fresh scene appended when play is being
/// entered.
pub open spec fn spec_after_transition(v: WorldView, s2: BPGameState) -> WorldView {
    if s2 == v.state {
        v
    } else {
        let cleaned = if v.state == BPGameState::InGame {
            retained_entities(v.entities)
        } else {
            v.entities
        };
        if s2 == BPGameState::InGame {
            WorldView {
                state: s2,
                entities: cleaned + spec_scene_entities(v.next_id),
                next_id: (v.next_id + 5) as u64,
            }
        } else {
            WorldView { state: s2, entities: cleaned, next_id: v.next_id }
        }
    }
}

/// The running game: the authoritative state, the live entities, and the
/// next free entity identity.
pub struct GameWorld {
    pub state: BPGameState,
    pub entities: Vec<Entity>,
    pub next_id: u64,
}

impl View for GameWorld {
    type V = WorldView;

    open spec fn view(&self) -> WorldView {
        WorldView { state: self.state, entities: self.entities@, next_id: self.next_id }
    }
}

impl GameWorld {
    pub open spec fn wf(self) -> bool {
        self@.inv()
    }

    /// A fresh world: in play, with nothing spawned yet.
    pub fn new() -> (w: GameWorld)
        ensures
            w.wf(),
            w@.state == BPGameState::InGame,
            w@.entities == Seq::<Entity>::empty(),
            w@.next_id == 0,
    {
        let w = GameWorld { state: BPGameState::InGame, entities: Vec::new(), next_id: 0 };
        proof {
            assert(w@.entities =~= Seq::<Entity>::empty());
        }
        w
    }

    /// The entity carrying `id`, if it is live.
    pub fn find_entity(&self, id: u64) -> (r: Option<Entity>)
        requires
            self.wf(),
        ensures
            match r {
                Some(e) => self@.has_entity(id) && e == self@.lookup(id),
                None => !self@.has_entity(id),
            },
    {
        let n = self.entities.len();
        let mut i: usize = 0;
        while i < n
            invariant
                i <= n,
                n == self.entities.len(),
                self.wf(),
                forall|j: int| 0 <= j < i ==> (#[trigger] self.entities@[j]).id != id,
            decreases n - i,
        {
            if self.entities[i].id == id {
                proof {
                    let k = self@.entity_index(id);
                    assert(0 <= k < self.entities@.len() && self.entities@[k].id == id);
                    if k != i as int {
                        assert(self.entities@[k].id != self.entities@[i as int].id);
                    }
                }
                return Some(self.entities[i]);
            }
            i += 1;
        }
        None
    }

    /// Remove the entity carrying `id`; everything else keeps its place
    /// and order.
    pub fn remove_entity(&mut self, id: u64)
        requires
            old(self).wf(),
            old(self)@.has_entity(id),
        ensures
            final(self).wf(),
            final(self)@.state == old(self)@.state,
            final(self)@.next_id == old(self)@.next_id,
            final(self)@.entities == old(self)@.entities.remove(old(self)@.entity_index(id)),
            !final(self)@.has_entity(id),
            forall|other: u64|
                other != id
                    ==> (#[trigger] final(self)@.has_entity(other)) == old(self)@.has_entity(other),
            forall|other: u64|
                other != id && old(self)@.has_entity(other)
                    ==> final(self)@.lookup(other) == old(self)@.lookup(other),
    {
        let ghost v0 = self@;
        let n = self.entities.len();
        let mut i: usize = 0;
        while i < n
            invariant
                i <= n,
                n == self.entities.len(),
                v0 == old(self)@,
                self@ == v0,
                self@.inv(),
                v0.has_entity(id),
                forall|j: int| 0 <= j < i ==> (#[trigger] self.entities@[j]).id != id,
            decreases n - i,
        {
            if self.entities[i].id == id {
                proof {
                    let k = v0.entity_index(id);
                    assert(0 <= k < v0.entities.len() && v0.entities[k].id == id);
                    if k != i as int {
                        assert(v0.entities[k].id != v0.entities[i as int].id);
                    }
                }
                self.entities.remove(i);
                proof {
                    let s0 = v0.entities;
                    let s1 = self@.entities;
                    assert(s1 =~= s0.remove(i as int));
                    assert forall|j: int| 0 <= j < s1.len() implies (#[trigger] s1[j])
                        == if j < i as int {
                        s0[j]
                    } else {
                        s0[j + 1]
                    } by {}
                    assert forall|other: u64|
                        other != id && v0.has_entity(other) implies self@.has_entity(other)
                        && self@.lookup(other) == v0.lookup(other) by {
                        let k0 = v0.entity_index(other);
                        assert(0 <= k0 < s0.len() && s0[k0].id == other);
                        let k1 = if k0 < i as int {
                            k0
                        } else {
                            k0 - 1
                        };
                        assert(s1[k1].id == other);
                        assert(self@.has_entity(other));
                        let kc = self@.entity_index(other);
                        assert(0 <= kc < s1.len() && s1[kc].id == other);
                        if kc != k1 {
                            let kc0 = if kc < i as int {
                                kc
                            } else {
                                kc + 1
                            };
                            assert(s0[kc0].id == other);
                            assert(kc0 != k0);
                            assert(s0[kc0].id != s0[k0].id);
                        }
                    }
                    assert forall|other: u64| other != id && self@.has_entity(other) implies
                        v0.has_entity(other) by {
                        let kc = self@.entity_index(other);
                        let kc0 = if kc < i as int {
                            kc
                        } else {
                            kc + 1
                        };
                        assert(s0[kc0].id == other);
                    }
                    assert forall|j: int| 0 <= j < s1.len() implies (#[trigger] s1[j]).id != id by {
                        if j >= i as int {
                            assert(s0[j + 1].id != id);
                        }
                    }
                }
                return ;
            }
            i += 1;
        }
        proof {
            let k = v0.entity_index(id);
            assert(0 <= k < v0.entities.len() && v0.entities[k].id == id);
            assert(false);
        }
    }

    /// Tear the scene down: every cleanup-tagged entity is despawned in
    /// one step; untagged entities keep their place and order. Safe to
    /// invoke with zero, one, or many tagged entities, and repeatable.
    pub fn cleanup_game(&mut self)
        requires
            old(self).wf(),
        ensures
            final(self).wf(),
            final(self)@.state == old(self)@.state,
            final(self)@.next_id == old(self)@.next_id,
            final(self)@.entities == retained_entities(old(self)@.entities),
            forall|i: int|
                0 <= i < final(self)@.entities.len()
                    ==> !(#[trigger] final(self)@.entities[i]).cleanup,
    {
        let ghost s0 = self.entities@;
        let n = self.entities.len();
        let mut kept: Vec<Entity> = Vec::new();
        let mut i: usize = 0;
        proof {
            assert(s0.take(0) =~= Seq::<Entity>::empty());
        }
        while i < n
            invariant
                i <= n,
                n == self.entities.len(),
                self@ == old(self)@,
                self@.inv(),
                s0 == self.entities@,
                kept@ == retained_entities(s0.take(i as int)),
            decreases n - i,
        {
            let e = self.entities[i];
            proof {
                let prefix = s0.take(i as int);
                let ext = s0.take(i as int + 1);
                assert(ext.drop_last() =~= prefix);
                assert(ext.last() == e);
                assert(retained_entities(ext) == if e.cleanup {
                    retained_entities(prefix)
                } else {
                    retained_entities(prefix).push(e)
                });
            }
            if !e.cleanup {
                kept.push(e);
            }
            i += 1;
        }
        proof {
            assert(s0.take(n as int) =~= s0);
        }
        self.entities = kept;
        proof {
            lemma_retained_elems(s0);
            lemma_retained_distinct(s0);
            let s1 = self.entities@;
            assert forall|i2: int| 0 <= i2 < s1.len() implies (#[trigger] s1[i2]).wf() && s1[i2].id
                < self.next_id by {
                assert(s0.contains(s1[i2]));
                let j = choose|j: int| 0 <= j < s0.len() && s0[j] == s1[i2];
                assert(s0[j].wf());
            }
        }
    }

    /// Spawn the scene, in its fixed order: ground, the right and left
    /// invisible walls, the player at the center, the enemy at its post.
    /// Every spawned entity carries the cleanup tag and a fresh identity.
    pub fn spawn_scene(&mut self)
        requires
            old(self).wf(),
            old(self)@.state == BPGameState::InGame,
            no_actor_entities(old(self)@.entities),
            old(self)@.next_id + 5 <= u64::MAX,
        ensures
            final(self).wf(),
            final(self)@.state == old(self)@.state,
            final(self)@.next_id == old(self)@.next_id + 5,
            final(self)@.entities == old(self)@.entities + spec_scene_entities(
                old(self)@.next_id,
            ),
    {
        let ghost s0 = self.entities@;
        let id0 = self.next_id;
        let ground = Entity {
            id: id0,
            kind: EntityKind::Geometry,
            position: Vec2I { x: 0, y: GROUND_POS_Y },
            cleanup: true,
            groups: world_groups(),
        };
        let wall_right = Entity {
            id: id0 + 1,
            kind: EntityKind::Geometry,
            position: Vec2I { x: WALL_OFFSET_X, y: WALL_POS_Y },
            cleanup: true,
            groups: invisible_wall_groups(),
        };
        let wall_left = Entity {
            id: id0 + 2,
            kind: EntityKind::Geometry,
            position: Vec2I { x: -WALL_OFFSET_X, y: WALL_POS_Y },
            cleanup: true,
            groups: invisible_wall_groups(),
        };
        let player = Entity {
            id: id0 + 3,
            kind: EntityKind::Player {
                run_strength: BPPlayerRunStrength(PLAYER_RUN_STRENGTH),
                jump_strength: BPPlayerJumpStrength(PLAYER_JUMP_STRENGTH),
            },
            position: Vec2I { x: 0, y: 0 },
            cleanup: true,
            groups: player_groups(),
        };
        let enemy = Entity {
            id: id0 + 4,
            kind: EntityKind::Enemy { direction: BPEnemyDirection(1) },
            position: Vec2I { x: 0, y: ENEMY_SPAWN_Y },
            cleanup: true,
            groups: pawn_groups(),
        };
        self.entities.push(ground);
        self.entities.push(wall_right);
        self.entities.push(wall_left);
        self.entities.push(player);
        self.entities.push(enemy);
        self.next_id = id0 + 5;
        proof {
            let s1 = self.entities@;
            let fresh = spec_scene_entities(id0);
            assert(s1 =~= s0 + fresh);
            assert(fresh[0] == ground && fresh[1] == wall_right && fresh[2] == wall_left
                && fresh[3] == player && fresh[4] == enemy);
            assert forall|i: int| 0 <= i < s1.len() implies (#[trigger] s1[i]).wf() && s1[i].id
                < self.next_id by {
                if i < s0.len() {
                    assert(s0[i].wf());
                } else {
                    assert(s1[i] == fresh[i - s0.len()]);
                }
            }
            assert forall|i: int, j: int| 0 <= i < j < s1.len() implies (#[trigger] s1[i]).id != (
            #[trigger] s1[j]).id && !(s1[i].kind is Player && s1[j].kind is Player) && !(s1[i].kind
                is Enemy && s1[j].kind is Enemy) by {
                if j < s0.len() {
                } else if i < s0.len() {
                    assert(s0[i].id < id0);
                    assert(s1[j] == fresh[j - s0.len()]);
                    assert(!(s0[i].kind is Player) && !(s0[i].kind is Enemy));
                } else {
                    assert(s1[i] == fresh[i - s0.len()]);
                    assert(s1[j] == fresh[j - s0.len()]);
                }
            }
        }
    }

    /// Commit one trigger against the world: resolve the transition,
    /// tear the scene down when play is being left, and spawn a fresh
    /// scene when play is being entered. A quit resolves to `Exit` and
    /// touches nothing; the caller ends the process.
    pub fn apply_game_event(&mut self, event: GameEvent) -> (r: StateChange)
        requires
            old(self).wf(),
            old(self)@.next_id + 5 <= u64::MAX,
        ensures
            final(self).wf(),
            r == spec_transition(old(self)@.state, event),
            r is Exit ==> final(self)@ == old(self)@,
            r matches StateChange::Next(s2) ==> final(self)@ == spec_after_transition(
                old(self)@,
                s2,
            ),
    {
        let r = transition(self.state, event);
        match r {
            StateChange::Exit => StateChange::Exit,
            StateChange::Next(s2) => {
                if s2 != self.state {
                    if self.state == BPGameState::InGame {
                        self.cleanup_game();
                    }
                    self.state = s2;
                    if s2 == BPGameState::InGame {
                        proof {
                            assert forall|i: int| 0 <= i < self.entities@.len() implies !((
                            #[trigger] self.entities@[i]).kind is Player) && !(
                            self.entities@[i].kind is Enemy) by {
                                assert(self.entities@[i].wf());
                                assert(!self.entities@[i].cleanup);
                            }
                        }
                        self.spawn_scene();
                    }
                }
                StateChange::Next(s2)
            },
        }
    }
}

} // verus!
