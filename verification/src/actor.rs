//! The single entity record for every kind of object, and its
//! movement-script elements.
use vstd::prelude::*;

use crate::FIX_MAX;
use crate::FRAC_ONE;
use crate::LIFE_ONE;

verus! {

/// What kind of object an actor is.
#[derive(Debug, Clone, Copy, PartialEq, Eq, Structural)]
pub enum ActorKind {
    Player,
    Enemy,
    Boss,
    PlShot,
    EnShot,
    Effect,
}

/// An actor's sub-state marker: the player's timed invulnerability, a
/// split-pattern shot's generation tag, or an effect's kind.
#[derive(Debug, Clone, Copy, PartialEq, Eq, Structural)]
pub enum SubState {
    Plain,
    Trans,
    Origin,
    OriginDone,
    Split,
    SplitDone,
    BombWave,
}

/// The bullet pattern an enemy or the boss currently fires.
#[derive(Debug, Clone, Copy, PartialEq, Eq, Structural)]
pub enum PatternKind {
    Idle,
    Waiting,
    Six,
    FourTwoDisp,
    MSixRotate,
    MSixFireflower,
    BNormal,
    BRotateRand,
    BFireflowerDisp,
    BCarpetFireflower,
}

/// A 2-vector of fixed-point units.  For shots the same pair is read as
/// polar: `x` an angle-fraction, `y` a magnitude.
#[derive(Debug, Clone, Copy, PartialEq, Eq, Structural)]
pub struct Vec2 {
    pub x: i64,
    pub y: i64,
}

/// A fixed-point value within the simulation's global magnitude bound.
pub open spec fn bounded(v: int) -> bool {
    -FIX_MAX <= v <= FIX_MAX
}

impl Vec2 {
    pub open spec fn wf(self) -> bool {
        bounded(self.x as int) && bounded(self.y as int)
    }
}

/// One scripted transition of an actor: at the absolute trigger tick
/// `count`, adopt `accel`, `state` and `pattern`.
#[derive(Debug, Clone, Copy, PartialEq, Eq, Structural)]
pub struct MovingElement {
    pub count: u32,
    pub accel: Vec2,
    pub state: SubState,
    pub pattern: PatternKind,
}

impl MovingElement {
    pub open spec fn wf(self) -> bool {
        self.accel.wf()
    }

    pub fn new(count: u32, accel: Vec2, state: SubState, pattern: PatternKind) -> (r:
        MovingElement)
        ensures
            r == (MovingElement { count, accel, state, pattern }),
    {
        MovingElement { count, accel, state, pattern }
    }
}

/// The entity record shared by every kind of object.
///
/// `point` is a play-field position; `velocity` and `accel` are per-tick
/// cartesian steps for the player, enemies, the boss and effects, and
/// polar `[angle-fraction, magnitude]` pairs for shots.  `life` is health
/// in tenths; a shot's is exactly `LIFE_ONE` or 0.  `count` is the
/// actor's private elapsed-tick counter; `state` and `pattern` are the
/// actor's sub-state marker and active-pattern selector.
#[derive(Debug, Clone)]
pub struct Actor {
    pub kind: ActorKind,
    pub point: Vec2,
    pub velocity: Vec2,
    pub accel: Vec2,
    pub bbox_size: i64,
    pub life: i64,
    pub moving: Vec<MovingElement>,
    pub count: u32,
    pub state: SubState,
    pub pattern: PatternKind,
}

impl Actor {
    pub open spec fn wf(self) -> bool {
        &&& self.point.wf()
        &&& self.velocity.wf()
        &&& self.accel.wf()
        &&& 0 <= self.bbox_size <= FIX_MAX
        &&& bounded(self.life as int)
        &&& forall|i: int| 0 <= i < self.moving@.len() ==> (#[trigger] self.moving@[i]).wf()
    }

    /// A shot's life is a binary alive flag.
    pub open spec fn shot_flag(self) -> bool {
        self.life == 0 || self.life == LIFE_ONE
    }
}

/// A freshly spawned enemy shot at `point` with polar velocity
/// `velocity`, and otherwise the defaults.
pub open spec fn is_enemy_shot(a: Actor, point: Vec2, velocity: Vec2) -> bool {
    &&& a.kind == ActorKind::EnShot
    &&& a.point == point
    &&& a.velocity == velocity
    &&& a.accel == (Vec2 { x: 0, y: 0 })
    &&& a.bbox_size == 10 * crate::PX
    &&& a.life == LIFE_ONE
    &&& a.moving@ == Seq::<MovingElement>::empty()
    &&& a.count == 0
    &&& a.state == SubState::Plain
    &&& a.pattern == PatternKind::Idle
}

impl Actor {
    /// The player at session start: centred low on the field with three
    /// lives.
    pub fn player_new() -> (r: Actor)
        ensures
            r.kind == ActorKind::Player,
            r.point == (Vec2 { x: 1584000, y: 2880000 }),
            r.velocity == (Vec2 { x: 0, y: 0 }),
            r.accel == (Vec2 { x: 0, y: 0 }),
            r.bbox_size == 5 * crate::PX,
            r.life == 3 * LIFE_ONE,
            r.moving@ == Seq::<MovingElement>::empty(),
            r.count == 0,
            r.state == SubState::Plain,
            r.pattern == PatternKind::Idle,
            r.wf(),
    {
        Actor {
            kind: ActorKind::Player,
            point: Vec2 { x: 1584000, y: 2880000 },
            velocity: Vec2 { x: 0, y: 0 },
            accel: Vec2 { x: 0, y: 0 },
            bbox_size: 5 * crate::PX,
            life: 3 * LIFE_ONE,
            moving: Vec::new(),
            count: 0,
            state: SubState::Plain,
            pattern: PatternKind::Idle,
        }
    }

    /// The invulnerable replacement player spawned after a hit: back at
    /// the start point, no hit box, carrying the updated life.
    pub fn trans_player_new(life: i64) -> (r: Actor)
        ensures
            r.kind == ActorKind::Player,
            r.point == (Vec2 { x: 1584000, y: 2880000 }),
            r.velocity == (Vec2 { x: 0, y: 0 }),
            r.accel == (Vec2 { x: 0, y: 0 }),
            r.bbox_size == 0,
            r.life == life,
            r.moving@ == Seq::<MovingElement>::empty(),
            r.count == 0,
            r.state == SubState::Trans,
            r.pattern == PatternKind::Idle,
            bounded(life as int) ==> r.wf(),
    {
        Actor {
            kind: ActorKind::Player,
            point: Vec2 { x: 1584000, y: 2880000 },
            velocity: Vec2 { x: 0, y: 0 },
            accel: Vec2 { x: 0, y: 0 },
            bbox_size: 0,
            life,
            moving: Vec::new(),
            count: 0,
            state: SubState::Trans,
            pattern: PatternKind::Idle,
        }
    }

    /// A player shot fired straight up at 3000 pixels per second.
    pub fn player_shot_new(p_point: Vec2) -> (r: Actor)
        ensures
            r.kind == ActorKind::PlShot,
            r.point == p_point,
            r.velocity == (Vec2 { x: FRAC_ONE, y: 180000 }),
            r.accel == (Vec2 { x: 0, y: 0 }),
            r.bbox_size == 10 * crate::PX,
            r.life == LIFE_ONE,
            r.moving@ == Seq::<MovingElement>::empty(),
            r.count == 0,
            r.state == SubState::Plain,
            r.pattern == PatternKind::Idle,
            p_point.wf() ==> r.wf(),
            r.shot_flag(),
    {
        Actor {
            kind: ActorKind::PlShot,
            point: p_point,
            velocity: Vec2 { x: FRAC_ONE, y: 180000 },
            accel: Vec2 { x: 0, y: 0 },
            bbox_size: 10 * crate::PX,
            life: LIFE_ONE,
            moving: Vec::new(),
            count: 0,
            state: SubState::Plain,
            pattern: PatternKind::Idle,
        }
    }

    /// A stage enemy with the descriptor's position, velocity, life and
    /// movement-script.
    pub fn enemy_s_new(point: Vec2, vel: Vec2, life: i64, moving: Vec<MovingElement>) -> (r:
        Actor)
        ensures
            r.kind == ActorKind::Enemy,
            r.point == point,
            r.velocity == vel,
            r.accel == (Vec2 { x: 0, y: 0 }),
            r.bbox_size == 20 * crate::PX,
            r.life == life,
            r.moving@ == moving@,
            r.count == 0,
            r.state == SubState::Plain,
            r.pattern == PatternKind::Idle,
    {
        Actor {
            kind: ActorKind::Enemy,
            point,
            velocity: vel,
            accel: Vec2 { x: 0, y: 0 },
            bbox_size: 20 * crate::PX,
            life,
            moving,
            count: 0,
            state: SubState::Plain,
            pattern: PatternKind::Idle,
        }
    }

    /// The boss actor, with its opening pattern.
    pub fn boss_new(point: Vec2, vel: Vec2, life: i64, moving: Vec<MovingElement>, pattern:
        PatternKind) -> (r: Actor)
        ensures
            r.kind == ActorKind::Boss,
            r.point == point,
            r.velocity == vel,
            r.accel == (Vec2 { x: 0, y: 0 }),
            r.bbox_size == 30 * crate::PX,
            r.life == life,
            r.moving@ == moving@,
            r.count == 0,
            r.state == SubState::Plain,
            r.pattern == pattern,
    {
        Actor {
            kind: ActorKind::Boss,
            point,
            velocity: vel,
            accel: Vec2 { x: 0, y: 0 },
            bbox_size: 30 * crate::PX,
            life,
            moving,
            count: 0,
            state: SubState::Plain,
            pattern,
        }
    }

    /// An enemy shot at `point` with polar velocity `velocity`.
    pub fn enemy_shot_new(point: Vec2, velocity: Vec2) -> (r: Actor)
        ensures
            is_enemy_shot(r, point, velocity),
            point.wf() && velocity.wf() ==> r.wf(),
            r.shot_flag(),
    {
        Actor {
            kind: ActorKind::EnShot,
            point,
            velocity,
            accel: Vec2 { x: 0, y: 0 },
            bbox_size: 10 * crate::PX,
            life: LIFE_ONE,
            moving: Vec::new(),
            count: 0,
            state: SubState::Plain,
            pattern: PatternKind::Idle,
        }
    }

    /// A visual effect, such as the bomb wave.
    pub fn effect_new(point: Vec2, velocity: Vec2, moving: Vec<MovingElement>, state: SubState)
        -> (r: Actor)
        ensures
            r.kind == ActorKind::Effect,
            r.point == point,
            r.velocity == velocity,
            r.accel == (Vec2 { x: 0, y: 0 }),
            r.bbox_size == 10 * crate::PX,
            r.life == LIFE_ONE,
            r.moving@ == moving@,
            r.count == 0,
            r.state == state,
            r.pattern == PatternKind::Idle,
    {
        Actor {
            kind: ActorKind::Effect,
            point,
            velocity,
            accel: Vec2 { x: 0, y: 0 },
            bbox_size: 10 * crate::PX,
            life: LIFE_ONE,
            moving,
            count: 0,
            state,
            pattern: PatternKind::Idle,
        }
    }
}

impl Default for Actor {
    /// The default record new shots are built from: a live enemy shot at
    /// the origin.
    fn default() -> (r: Actor)
        ensures
            is_enemy_shot(r, Vec2 { x: 0, y: 0 }, Vec2 { x: 0, y: 0 }),
    {
        Actor {
            kind: ActorKind::EnShot,
            point: Vec2 { x: 0, y: 0 },
            velocity: Vec2 { x: 0, y: 0 },
            accel: Vec2 { x: 0, y: 0 },
            bbox_size: 10 * crate::PX,
            life: LIFE_ONE,
            moving: Vec::new(),
            count: 0,
            state: SubState::Plain,
            pattern: PatternKind::Idle,
        }
    }
}

/// An element-for-element copy of a movement-script.
pub fn clone_moving(v: &Vec<MovingElement>) -> (r: Vec<MovingElement>)
    ensures
        r@ == v@,
{
    let mut r: Vec<MovingElement> = Vec::new();
    let mut i: usize = 0;
    while i < v.len()
        invariant
            i <= v@.len(),
            r@ == v@.take(i as int),
        decreases v@.len() - i,
    {
        r.push(v[i]);
        i = i + 1;
        proof {
            assert(r@ =~= v@.take(i as int));
        }
    }
    proof {
        assert(v@.take(v@.len() as int) =~= v@);
    }
    r
}

} // verus!
