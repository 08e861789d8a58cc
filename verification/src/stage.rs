//! Stage spawn descriptors and their repeat schedule.
//!
//! A descriptor fires when the stage tick reaches its trigger.  A
//! repeatable descriptor then advances its trigger by its interval,
//! shifts its spawn point, shifts every trigger inside its attached
//! movement-script by the same interval (keeping the choreography's
//! timing relative to the new spawn tick), and decrements its repeat
//! count; one whose repeat count was already zero drops below zero and
//! is pruned from the active timeline.
use vstd::prelude::*;

use crate::actor::bounded;
use crate::actor::MovingElement;
use crate::actor::Vec2;
use crate::num::add_sat;
use crate::num::add_sat_spec;
use crate::num::cadd;
use crate::num::clamp_add;

verus! {

/// What a descriptor spawns: a normal enemy, or one of the special
/// markers that switch the session instead.
#[derive(Debug, Clone, Copy, PartialEq, Eq, Structural)]
pub enum CharType {
    Normal,
    Clear,
    Boss,
    MidBoss,
}

/// One scheduled spawn of the stage timeline.
#[derive(Debug, Clone)]
pub struct Stage {
    /// Absolute trigger tick.
    pub count: u32,
    pub char_type: CharType,
    /// How many times the descriptor re-fires after the first; drops to
    /// -1 when exhausted, at which point the director prunes it.
    pub repeat: i64,
    /// Ticks between repeats.
    pub interval: u32,
    /// Spawn position.
    pub point: Vec2,
    /// Added to the spawn position at each repeat.
    pub shift_point: Vec2,
    /// The spawned enemy's initial velocity.
    pub velocity: Vec2,
    /// The spawned enemy's initial life, in tenths.
    pub life: i64,
    /// The spawned enemy's movement-script.
    pub moving: Vec<MovingElement>,
}

/// The mathematical model of a descriptor: the same fields over `Seq`.
pub struct StageModel {
    pub count: u32,
    pub char_type: CharType,
    pub repeat: i64,
    pub interval: u32,
    pub point: Vec2,
    pub shift_point: Vec2,
    pub velocity: Vec2,
    pub life: i64,
    pub moving: Seq<MovingElement>,
}

impl View for Stage {
    type V = StageModel;

    open spec fn view(&self) -> StageModel {
        StageModel {
            count: self.count,
            char_type: self.char_type,
            repeat: self.repeat,
            interval: self.interval,
            point: self.point,
            shift_point: self.shift_point,
            velocity: self.velocity,
            life: self.life,
            moving: self.moving@,
        }
    }
}

impl Stage {
    pub open spec fn wf(self) -> bool {
        &&& self.point.wf()
        &&& self.shift_point.wf()
        &&& self.velocity.wf()
        &&& bounded(self.life as int)
        &&& bounded(self.repeat as int)
        &&& forall|i: int| 0 <= i < self.moving@.len() ==> (#[trigger] self.moving@[i]).wf()
    }
}

/// A movement-script with every trigger tick pushed later by `interval`.
pub open spec fn shift_moving(m: Seq<MovingElement>, interval: u32) -> Seq<MovingElement> {
    m.map_values(
        |e: MovingElement| MovingElement { count: add_sat_spec(e.count, interval), ..e },
    )
}

/// A descriptor fires when the stage tick reaches its trigger and it is
/// not yet exhausted.
pub open spec fn fires_at(m: StageModel, t: u32) -> bool {
    m.repeat >= 0 && m.count == t
}

/// What firing once does to a descriptor: a repeatable one is
/// rescheduled one interval later with its spawn point shifted and its
/// movement-script's timing shifted alike; one with no repeats left
/// drops to the below-zero sentinel.
pub open spec fn step_model(m: StageModel) -> StageModel {
    if m.repeat > 0 {
        StageModel {
            count: add_sat_spec(m.count, m.interval),
            repeat: (m.repeat - 1) as i64,
            point: Vec2 {
                x: cadd(m.point.x as int, m.shift_point.x as int) as i64,
                y: cadd(m.point.y as int, m.shift_point.y as int) as i64,
            },
            moving: shift_moving(m.moving, m.interval),
            ..m
        }
    } else {
        StageModel { repeat: -1i64, ..m }
    }
}

/// The descriptor after firing `k` times.
pub open spec fn steps(m: StageModel, k: nat) -> StageModel
    decreases k,
{
    if k == 0 {
        m
    } else {
        step_model(steps(m, (k - 1) as nat))
    }
}

/// The repeat schedule: a descriptor with repeat count `n` and trigger
/// `f`, fired `k <= n` times, stands rescheduled at trigger `f + k * I`
/// with `n - k` repeats left, its spawn point shifted `k` times, and
/// every trigger tick of its movement-script shifted by the same
/// cumulative `k * I` — so it fires at exactly the ticks
/// `f, f + I, ..., f + n * I`, `n + 1` firings in all.
pub proof fn lemma_repeat_schedule(m: StageModel, k: nat)
    requires
        0 <= k <= m.repeat,
        m.count + m.repeat * m.interval <= u32::MAX,
        forall|j: int|
            0 <= j < m.moving.len() ==> (#[trigger] m.moving[j]).count + m.repeat * m.interval
                <= u32::MAX,
    ensures
        steps(m, k).repeat == m.repeat - k,
        steps(m, k).count == m.count + k * m.interval,
        fires_at(steps(m, k), (m.count + k * m.interval) as u32),
        steps(m, k).interval == m.interval,
        steps(m, k).char_type == m.char_type,
        steps(m, k).shift_point == m.shift_point,
        steps(m, k).velocity == m.velocity,
        steps(m, k).life == m.life,
        steps(m, k).moving.len() == m.moving.len(),
        forall|j: int|
            0 <= j < m.moving.len() ==> #[trigger] steps(m, k).moving[j] == (MovingElement {
                count: (m.moving[j].count + k * m.interval) as u32,
                ..m.moving[j]
            }),
    decreases k,
{
    if k == 0 {
        assert(k * m.interval == 0) by (nonlinear_arith)
            requires
                k == 0,
        ;
    } else {
        lemma_repeat_schedule(m, (k - 1) as nat);
        let prev = steps(m, (k - 1) as nat);
        assert((k - 1) * m.interval + m.interval == k * m.interval) by (nonlinear_arith);
        assert((k - 1) * m.interval >= 0) by (nonlinear_arith)
            requires
                k >= 1,
                m.interval >= 0,
        ;
        assert(k * m.interval <= m.repeat * m.interval) by (nonlinear_arith)
            requires
                k <= m.repeat,
                m.interval >= 0,
        ;
        assert(steps(m, k) == step_model(prev));
        assert forall|j: int| 0 <= j < m.moving.len() implies #[trigger] steps(m, k).moving[j]
            == (MovingElement { count: (m.moving[j].count + k * m.interval) as u32, ..m.moving[j] })
            by {
            assert(steps(m, k).moving[j] == (MovingElement {
                count: add_sat_spec(prev.moving[j].count, m.interval),
                ..prev.moving[j]
            }));
        }
    }
}

/// After its last firing a descriptor's repeat count has gone below
/// zero: it never fires again, at any tick.
pub proof fn lemma_repeat_exhausted(m: StageModel)
    requires
        m.repeat >= 0,
        m.count + m.repeat * m.interval <= u32::MAX,
        forall|j: int|
            0 <= j < m.moving.len() ==> (#[trigger] m.moving[j]).count + m.repeat * m.interval
                <= u32::MAX,
    ensures
        steps(m, (m.repeat + 1) as nat).repeat == -1,
        forall|t: u32| !#[trigger] fires_at(steps(m, (m.repeat + 1) as nat), t),
{
    lemma_repeat_schedule(m, m.repeat as nat);
    assert(steps(m, (m.repeat + 1) as nat) == step_model(steps(m, m.repeat as nat)));
}

/// Reschedule a descriptor that has just fired.
pub fn fire_descriptor(st: &mut Stage)
    requires
        old(st).wf(),
    ensures
        final(st)@ == step_model(old(st)@),
        final(st).wf(),
{
    if st.repeat > 0 {
        let ghost orig = st@;
        st.count = add_sat(st.count, st.interval);
        st.repeat = st.repeat - 1;
        st.point.x = clamp_add(st.point.x, st.shift_point.x);
        st.point.y = clamp_add(st.point.y, st.shift_point.y);
        let mut i: usize = 0;
        while i < st.moving.len()
            invariant
                i <= st.moving@.len(),
                st.moving@.len() == orig.moving.len(),
                st.interval == orig.interval,
                forall|j: int|
                    0 <= j < i ==> #[trigger] st.moving@[j] == (MovingElement {
                        count: add_sat_spec(orig.moving[j].count, orig.interval),
                        ..orig.moving[j]
                    }),
                forall|j: int| i <= j < orig.moving.len() ==> st.moving@[j] == orig.moving[j],
                st.count == add_sat_spec(orig.count, orig.interval),
                st.repeat == orig.repeat - 1,
                st.point == (Vec2 {
                    x: cadd(orig.point.x as int, orig.shift_point.x as int) as i64,
                    y: cadd(orig.point.y as int, orig.shift_point.y as int) as i64,
                }),
                st.char_type == orig.char_type,
                st.shift_point == orig.shift_point,
                st.velocity == orig.velocity,
                st.life == orig.life,
                orig.point.wf(),
                orig.shift_point.wf(),
                st.velocity.wf(),
                bounded(st.life as int),
                bounded(st.repeat as int),
                forall|j: int| 0 <= j < orig.moving.len() ==> (#[trigger] orig.moving[j]).wf(),
            decreases st.moving@.len() - i,
        {
            let e = &mut st.moving[i];
            e.count = add_sat(e.count, st.interval);
            i = i + 1;
        }
        proof {
            assert(st@.moving =~= shift_moving(orig.moving, orig.interval));
            assert(st@ == step_model(orig));
            assert forall|j: int| 0 <= j < st.moving@.len() implies (
            #[trigger] st.moving@[j]).wf() by {
                assert(st.moving@[j].accel == orig.moving[j].accel);
            }
        }
    } else {
        st.repeat = -1;
    }
}

/// A descriptor with repeat count zero fires exactly once, at its
/// literal trigger tick: it triggers at that tick and no other, and
/// after that one firing it is exhausted and never fires again.
pub proof fn lemma_no_repeat_single_fire(m: StageModel)
    requires
        m.repeat == 0,
    ensures
        fires_at(m, m.count),
        forall|t: u32| t != m.count ==> !fires_at(m, t),
        steps(m, 1).repeat == -1,
        forall|t: u32| !#[trigger] fires_at(steps(m, 1), t),
{
    assert(steps(m, 1) == step_model(steps(m, 0)));
}

} // verus!
