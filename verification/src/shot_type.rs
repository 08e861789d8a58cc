//! The bullet-pattern engine.
//!
//! A pattern is a function of the acting actor, the opponent's position,
//! the shared live enemy-shot pool, the local tick count and, where the
//! pattern is randomized, one fresh uniform draw passed in as a plain
//! value.  Given the same tick count and draw, the output is exactly
//! determined, and each function's contract pins every appended shot's
//! angle-fraction and speed.
//!
//! Naming: `n_` patterns are fired by stage enemies, `m_` by the
//! mid-boss, `b_` by the stage boss; the rest are the shared building
//! blocks.
use vstd::prelude::*;

use crate::actor::is_enemy_shot;
use crate::actor::Actor;
use crate::actor::ActorKind;
use crate::actor::MovingElement;
use crate::actor::PatternKind;
use crate::actor::SubState;
use crate::actor::Vec2;
use crate::num::cadd;
use crate::num::clamp_add;
use crate::trig::angle_between;
use crate::trig::angle_to_spec;
use crate::FIX_MAX;
use crate::FRAC_ONE;
use crate::LIFE_ONE;

verus! {

/// A freshly spawned shot record with the given polar velocity, polar
/// acceleration and sub-state tag, and the defaults elsewhere.
pub open spec fn is_shot_rec(a: Actor, point: Vec2, velocity: Vec2, accel: Vec2, state: SubState)
    -> bool {
    &&& a.kind == ActorKind::EnShot
    &&& a.point == point
    &&& a.velocity == velocity
    &&& a.accel == accel
    &&& a.bbox_size == 10 * crate::PX
    &&& a.life == LIFE_ONE
    &&& a.moving@ == Seq::<MovingElement>::empty()
    &&& a.count == 0
    &&& a.state == state
    &&& a.pattern == PatternKind::Idle
}

/// Every entry of an enemy-shot pool is a well-formed shot with a binary
/// life flag.
pub open spec fn en_shots_ok(s: Seq<Actor>) -> bool {
    forall|i: int|
        0 <= i < s.len() ==> (#[trigger] s[i]).wf() && s[i].shot_flag() && s[i].kind
            == ActorKind::EnShot
}

/// The angle-fraction from `p1` toward `p2` (0 points straight down,
/// growing clockwise), in angle units.
pub fn get_angle_from_points(p1: Vec2, p2: Vec2) -> (r: i64)
    requires
        p1.wf(),
        p2.wf(),
    ensures
        r == angle_to_spec(p2.x - p1.x, p2.y - p1.y),
        -FRAC_ONE <= r <= FRAC_ONE,
{
    angle_between(p1.x, p1.y, p2.x, p2.y)
}

/// The spinning fan's offset at tick `count`, in angle units: one turn
/// every 30 ticks within each second, plus a slow drift of 0.00783 of a
/// fraction per tick.
pub open spec fn rotate_plus(count: u32) -> int {
    (count % 60) * 10000 + count * 2349
}

/// The `i`-th of six rotating-fan directions at tick `count`.
pub open spec fn rotate_angle(i: int, count: u32, right: bool) -> int {
    if right {
        i * 100000 + rotate_plus(count)
    } else {
        i * 100000 - rotate_plus(count)
    }
}

/// The rotating ring's whole effect on the shot pool: six new shots at
/// the tick's six rotated directions, everything else untouched.
pub open spec fn rotate_effect(pre: Seq<Actor>, post: Seq<Actor>, p: Vec2, count: u32,
    right: bool) -> bool {
    &&& post.len() == pre.len() + 6
    &&& forall|i: int| 0 <= i < pre.len() ==> post[i] == pre[i]
    &&& forall|j: int|
        0 <= j < 6 ==> is_enemy_shot(
            #[trigger] post[pre.len() + j],
            p,
            Vec2 { x: rotate_angle(j, count, right) as i64, y: 18000 },
        )
}

/// Rotating ring: six shots a third of a fraction apart, the whole fan
/// turned by an offset that grows with the tick count — clockwise when
/// `right`, counter-clockwise otherwise.
pub fn six_rotate(enemy: &mut Actor, p_point: Vec2, en_shots: &mut Vec<Actor>, count: u32,
    right: bool)
    requires
        old(enemy).wf(),
    ensures
        *final(enemy) == *old(enemy),
        rotate_effect(old(en_shots)@, final(en_shots)@, old(enemy).point, count, right),
        en_shots_ok(old(en_shots)@) ==> en_shots_ok(final(en_shots)@),
{
    let ghost orig = en_shots@;
    let angle_plus: i64 = ((count % 60) as i64) * 10000 + (count as i64) * 2349;
    let mut j: u32 = 0;
    while j < 6
        invariant
            j <= 6,
            enemy.wf(),
            angle_plus == rotate_plus(count),
            0 <= angle_plus <= 10090000000000,
            en_shots@.len() == orig.len() + j,
            forall|i: int| 0 <= i < orig.len() ==> en_shots@[i] == orig[i],
            forall|k: int|
                0 <= k < j ==> is_enemy_shot(
                    #[trigger] en_shots@[orig.len() + k],
                    enemy.point,
                    Vec2 { x: rotate_angle(k, count, right) as i64, y: 18000 },
                ),
        decreases 6 - j,
    {
        let angle: i64 = if right {
            (j as i64) * 100000 + angle_plus
        } else {
            (j as i64) * 100000 - angle_plus
        };
        en_shots.push(Actor::enemy_shot_new(enemy.point, Vec2 { x: angle, y: 18000 }));
        j = j + 1;
    }
    proof {
        if en_shots_ok(orig) {
            assert forall|i: int| 0 <= i < en_shots@.len() implies (#[trigger] en_shots@[i]).wf()
                && en_shots@[i].shot_flag() && en_shots@[i].kind == ActorKind::EnShot by {
                if i < orig.len() {
                    assert(en_shots@[i] == orig[i]);
                    assert(orig[i].wf() && orig[i].shot_flag() && orig[i].kind
                        == ActorKind::EnShot);
                } else {
                    let k = i - orig.len();
                    assert(en_shots@[i] == en_shots@[orig.len() + k]);
                    assert(is_enemy_shot(
                        en_shots@[orig.len() + k],
                        enemy.point,
                        Vec2 { x: rotate_angle(k, count, right) as i64, y: 18000 },
                    ));
                    assert(-FIX_MAX <= rotate_angle(k, count, right) <= FIX_MAX);
                }
            }
        }
    }
}

/// The `i, j, k`-indexed member of the dispersed four-way fan: direction
/// `i` (half a fraction apart), aimed at the opponent, shifted by the
/// invocation's shared jitter, split `k` a twentieth of a fraction to
/// either side, at the `j`-th of seven speeds.
pub open spec fn disp_angle(i: int, k: int, aim: int, jitter: int) -> int {
    i * 150000 + aim + jitter + if k == 0 {
        15000int
    } else {
        -15000int
    }
}

/// The dispersed fan's whole effect on the shot pool: 56 new shots,
/// indexed by direction, speed and side, everything else untouched.
pub open spec fn disp_effect(pre: Seq<Actor>, post: Seq<Actor>, ep: Vec2, pp: Vec2,
    jitter: int) -> bool {
    &&& post.len() == pre.len() + 56
    &&& forall|i: int| 0 <= i < pre.len() ==> post[i] == pre[i]
    &&& forall|i: int, j: int, k: int|
        0 <= i < 4 && 0 <= j < 7 && 0 <= k < 2 ==> is_enemy_shot(
            #[trigger] post[pre.len() + i * 14 + j * 2 + k],
            ep,
            Vec2 {
                x: disp_angle(i, k, angle_to_spec(pp.x - ep.x, pp.y - ep.y), jitter) as i64,
                y: (7200 + j * 1800) as i64,
            },
        )
}

/// Randomized fan: four aimed directions, each split into two and fired
/// at seven speeds, all 56 shots sharing the invocation's jitter.
pub fn four_two_disp(enemy: &mut Actor, p_point: Vec2, en_shots: &mut Vec<Actor>, jitter: i64)
    requires
        old(enemy).wf(),
        p_point.wf(),
        -15000 <= jitter <= 15000,
    ensures
        *final(enemy) == *old(enemy),
        disp_effect(old(en_shots)@, final(en_shots)@, old(enemy).point, p_point, jitter as int),
        en_shots_ok(old(en_shots)@) ==> en_shots_ok(final(en_shots)@),
{
    let ghost orig = en_shots@;
    let aim = get_angle_from_points(enemy.point, p_point);
    let ghost aim_s = angle_to_spec(p_point.x - enemy.point.x, p_point.y - enemy.point.y);
    let mut i: u32 = 0;
    while i < 4
        invariant
            i <= 4,
            enemy.wf(),
            aim == aim_s,
            -FRAC_ONE <= aim <= FRAC_ONE,
            -15000 <= jitter <= 15000,
            en_shots@.len() == orig.len() + i * 14,
            forall|n: int| 0 <= n < orig.len() ==> en_shots@[n] == orig[n],
            forall|a: int, b: int, c: int|
                0 <= a < i && 0 <= b < 7 && 0 <= c < 2 ==> is_enemy_shot(
                    #[trigger] en_shots@[orig.len() + a * 14 + b * 2 + c],
                    enemy.point,
                    Vec2 { x: disp_angle(a, c, aim_s, jitter as int) as i64, y: (7200 + b * 1800) as i64 },
                ),
        decreases 4 - i,
    {
        let rand_angle: i64 = (i as i64) * 150000 + aim + jitter;
        let mut j: u32 = 0;
        while j < 7
            invariant
                i < 4,
                j <= 7,
                enemy.wf(),
                aim == aim_s,
                -FRAC_ONE <= aim <= FRAC_ONE,
                -15000 <= jitter <= 15000,
                rand_angle == i * 150000 + aim_s + jitter,
                en_shots@.len() == orig.len() + i * 14 + j * 2,
                forall|n: int| 0 <= n < orig.len() ==> en_shots@[n] == orig[n],
                forall|a: int, b: int, c: int|
                    0 <= a < 4 && 0 <= b < 7 && 0 <= c < 2 && a * 14 + b * 2 + c < i * 14 + j * 2
                        ==> is_enemy_shot(
                        #[trigger] en_shots@[orig.len() + a * 14 + b * 2 + c],
                        enemy.point,
                        Vec2 { x: disp_angle(a, c, aim_s, jitter as int) as i64, y: (7200 + b * 1800) as i64 },
                    ),
            decreases 7 - j,
        {
            let speed: i64 = 7200 + (j as i64) * 1800;
            en_shots.push(
                Actor::enemy_shot_new(enemy.point, Vec2 { x: rand_angle + 15000, y: speed }),
            );
            en_shots.push(
                Actor::enemy_shot_new(enemy.point, Vec2 { x: rand_angle - 15000, y: speed }),
            );
            j = j + 1;
        }
        i = i + 1;
    }
    proof {
        if en_shots_ok(orig) {
            assert forall|n: int| 0 <= n < en_shots@.len() implies (#[trigger] en_shots@[n]).wf()
                && en_shots@[n].shot_flag() && en_shots@[n].kind == ActorKind::EnShot by {
                if n < orig.len() {
                    assert(en_shots@[n] == orig[n]);
                    assert(orig[n].wf() && orig[n].shot_flag() && orig[n].kind
                        == ActorKind::EnShot);
                } else {
                    let d = n - orig.len();
                    let a = d / 14;
                    let rem = d % 14;
                    let b = rem / 2;
                    let c = rem % 2;
                    vstd::arithmetic::div_mod::lemma_fundamental_div_mod(d, 14);
                    vstd::arithmetic::div_mod::lemma_mod_bound(d, 14);
                    vstd::arithmetic::div_mod::lemma_fundamental_div_mod(rem, 2);
                    vstd::arithmetic::div_mod::lemma_mod_bound(rem, 2);
                    assert(0 <= a < 4 && 0 <= b < 7 && 0 <= c < 2) by (nonlinear_arith)
                        requires
                            0 <= d < 56,
                            d == 14 * a + rem,
                            0 <= rem < 14,
                            rem == 2 * b + c,
                            0 <= c < 2,
                    ;
                    assert(d == a * 14 + b * 2 + c);
                    assert(en_shots@[n] == en_shots@[orig.len() + a * 14 + b * 2 + c]);
                    assert(is_enemy_shot(
                        en_shots@[orig.len() + a * 14 + b * 2 + c],
                        enemy.point,
                        Vec2 {
                            x: disp_angle(a, c, aim_s, jitter as int) as i64,
                            y: (7200 + b * 1800) as i64,
                        },
                    ));
                }
            }
        }
    }
}

/// How many children one shot owes when the split pattern scans the
/// pool: a due origin yields the first mirrored fan, a due split the
/// wider terminal one.
pub open spec fn ff_count(a: Actor) -> int {
    if a.state == SubState::Origin && a.count == 60 {
        8
    } else if a.state == SubState::Split && a.count == 60 {
        12
    } else {
        0
    }
}

/// The split children owed by the first `n` shots of the pool.
pub open spec fn ff_tally(s: Seq<Actor>, n: int) -> int
    decreases n,
{
    if n <= 0 {
        0
    } else {
        ff_tally(s, n - 1) + ff_count(s[n - 1])
    }
}

/// The running child total is non-negative and monotone.
pub proof fn lemma_ff_tally_mono(s: Seq<Actor>, a: int, b: int)
    requires
        0 <= a <= b,
    ensures
        0 <= ff_tally(s, a) <= ff_tally(s, b),
    decreases b,
{
    if b > 0 {
        if a == b {
            lemma_ff_tally_mono(s, if a > 0 { a - 1 } else { 0int }, b - 1);
        } else {
            lemma_ff_tally_mono(s, a, b - 1);
        }
    }
}

/// Every child index `d` within the total lies inside exactly one due
/// parent's block.
pub proof fn lemma_ff_tally_find(s: Seq<Actor>, n: int, d: int)
    requires
        0 <= n <= s.len(),
        0 <= d < ff_tally(s, n),
    ensures
        exists|k: int|
            0 <= k < n && ff_tally(s, k) <= d < ff_tally(s, k) + ff_count(#[trigger] s[k]),
    decreases n,
{
    if n > 0 {
        if d >= ff_tally(s, n - 1) {
            assert(0 <= n - 1 < n && ff_tally(s, n - 1) <= d < ff_tally(s, n - 1) + ff_count(
                s[n - 1],
            ));
        } else {
            lemma_ff_tally_find(s, n - 1, d);
        }
    }
}

/// What the split-pattern scan leaves of an existing shot: a due origin
/// or split is retagged done and killed, an already done one is killed,
/// anything else is untouched.
pub open spec fn ff_mark(a: Actor) -> Actor {
    if a.state == SubState::Origin && a.count == 60 {
        Actor { state: SubState::OriginDone, life: 0, ..a }
    } else if a.state == SubState::Split && a.count == 60 {
        Actor { state: SubState::SplitDone, life: 0, ..a }
    } else if a.state == SubState::OriginDone || a.state == SubState::SplitDone {
        Actor { life: 0, ..a }
    } else {
        a
    }
}

/// The `j`-th child angle of a split: the parent's angle fanned
/// symmetrically in steps of 0.18 of a fraction — from step 0 for the
/// first generation, from step 1 for the terminal one.
pub open spec fn ff_child_angle(base: int, gen1: bool, j: int) -> int {
    let i = if gen1 {
        j / 2
    } else {
        1 + j / 2
    };
    if j % 2 == 0 {
        cadd(base, 54000 * i)
    } else {
        cadd(base, -54000 * i)
    }
}

/// The `j`-th child a due parent owes: fired from the parent's position
/// at 250 pixels per second, tagged split after an origin and untagged
/// (terminal) after a split.
pub open spec fn ff_child_ok(parent: Actor, c: Actor, j: int) -> bool {
    if parent.state == SubState::Origin {
        is_shot_rec(
            c,
            parent.point,
            Vec2 { x: ff_child_angle(parent.velocity.x as int, true, j) as i64, y: 15000 },
            Vec2 { x: 0, y: 0 },
            SubState::Split,
        )
    } else {
        is_shot_rec(
            c,
            parent.point,
            Vec2 { x: ff_child_angle(parent.velocity.x as int, false, j) as i64, y: 15000 },
            Vec2 { x: 0, y: 0 },
            SubState::Plain,
        )
    }
}

/// `s` is exactly the child block a due parent owes.
pub open spec fn ff_children_ok(parent: Actor, s: Seq<Actor>) -> bool {
    &&& s.len() == ff_count(parent)
    &&& forall|j: int| 0 <= j < s.len() ==> ff_child_ok(parent, #[trigger] s[j], j)
}

/// The angle of the `i`-th shot of a radial burst of `num` shots offset
/// by the angle `sa`: the fractions `(i + 2 * sa) * 2 / num` around the
/// full circle.
pub open spec fn ff_origin_angle(i: int, num: int, sa: int) -> int {
    (2 * i * FRAC_ONE + 4 * sa) / num
}

/// A radial burst of origin-tagged shots: `num` new shots evenly spaced
/// around the full circle, offset by `sa`, decelerating as they fly.
pub open spec fn ff_origin_effect(pre: Seq<Actor>, post: Seq<Actor>, p: Vec2, num: int,
    sa: int) -> bool {
    &&& post.len() == pre.len() + num
    &&& forall|i: int| 0 <= i < pre.len() ==> post[i] == pre[i]
    &&& forall|i: int|
        0 <= i < num ==> is_shot_rec(
            #[trigger] post[pre.len() + i],
            p,
            Vec2 { x: ff_origin_angle(i, num, sa) as i64, y: 18000 },
            Vec2 { x: 0, y: -300i64 },
            SubState::Origin,
        )
}

/// The split-pattern scan's whole effect on the pool: every existing
/// shot is marked per [`ff_mark`], and after them stand exactly the
/// child blocks of the due shots, in pool order.
pub open spec fn ff_scan_effect(pre: Seq<Actor>, post: Seq<Actor>) -> bool {
    &&& post.len() == pre.len() + ff_tally(pre, pre.len() as int)
    &&& forall|i: int| 0 <= i < pre.len() ==> post[i] == ff_mark(#[trigger] pre[i])
    &&& forall|i: int|
        0 <= i < pre.len() ==> #[trigger] ff_children_ok(
            pre[i],
            post.subrange(
                pre.len() + ff_tally(pre, i),
                pre.len() + ff_tally(pre, i) + ff_count(pre[i]),
            ),
        )
}

/// Staged split ("fireflower").  With `origin` set, fires a radial burst
/// of origin-tagged shots.  Without it, scans the pool: an origin that
/// has lived exactly 60 of its own ticks dies and leaves 8 split-tagged
/// children fanned around its velocity; a split likewise dies after its
/// own 60 ticks and leaves 12 wider, terminal children.  New children
/// are buffered during the scan and appended after it, so a child is
/// never re-examined in the pass that created it.
pub fn fireflower(enemy: &mut Actor, p_point: Vec2, en_shots: &mut Vec<Actor>, count: u32,
    shot_num: u32, shot_angle: i64, origin: bool)
    requires
        old(enemy).wf(),
        en_shots_ok(old(en_shots)@),
        1 <= shot_num <= 64,
        0 <= shot_angle <= FRAC_ONE,
    ensures
        *final(enemy) == *old(enemy),
        origin ==> ff_origin_effect(
            old(en_shots)@,
            final(en_shots)@,
            old(enemy).point,
            shot_num as int,
            shot_angle as int,
        ),
        !origin ==> ff_scan_effect(old(en_shots)@, final(en_shots)@),
        en_shots_ok(final(en_shots)@),
{
    let ghost orig = en_shots@;
    if origin {
        let mut i: u32 = 0;
        while i < shot_num
            invariant
                i <= shot_num,
                1 <= shot_num <= 64,
                0 <= shot_angle <= FRAC_ONE,
                enemy.wf(),
                en_shots_ok(orig),
                en_shots@.len() == orig.len() + i,
                forall|n: int| 0 <= n < orig.len() ==> en_shots@[n] == orig[n],
                forall|k: int|
                    0 <= k < i ==> is_shot_rec(
                        #[trigger] en_shots@[orig.len() + k],
                        enemy.point,
                        Vec2 {
                            x: ff_origin_angle(k, shot_num as int, shot_angle as int) as i64,
                            y: 18000,
                        },
                        Vec2 { x: 0, y: -300i64 },
                        SubState::Origin,
                    ),
            decreases shot_num - i,
        {
            let angle = crate::num::div_pos(
                2 * (i as i64) * FRAC_ONE + 4 * shot_angle,
                shot_num as i64,
            );
            let shot = Actor {
                point: enemy.point,
                velocity: Vec2 { x: angle, y: 18000 },
                accel: Vec2 { x: 0, y: -300i64 },
                state: SubState::Origin,
                ..Default::default()
            };
            en_shots.push(shot);
            i = i + 1;
        }
        proof {
            assert forall|n: int| 0 <= n < en_shots@.len() implies (#[trigger] en_shots@[n]).wf()
                && en_shots@[n].shot_flag() && en_shots@[n].kind == ActorKind::EnShot by {
                if n < orig.len() {
                    assert(en_shots@[n] == orig[n]);
                    assert(orig[n].wf() && orig[n].shot_flag() && orig[n].kind
                        == ActorKind::EnShot);
                } else {
                    let k = n - orig.len();
                    assert(en_shots@[n] == en_shots@[orig.len() + k]);
                    assert(is_shot_rec(
                        en_shots@[orig.len() + k],
                        enemy.point,
                        Vec2 {
                            x: ff_origin_angle(k, shot_num as int, shot_angle as int) as i64,
                            y: 18000,
                        },
                        Vec2 { x: 0, y: -300i64 },
                        SubState::Origin,
                    ));
                }
            }
        }
    } else {
        let mut buf: Vec<Actor> = Vec::new();
        let mut i: usize = 0;
        while i < en_shots.len()
            invariant
                i <= en_shots@.len(),
                en_shots_ok(orig),
                en_shots@.len() == orig.len(),
                forall|k: int| i <= k < orig.len() ==> en_shots@[k] == orig[k],
                forall|k: int| 0 <= k < i ==> en_shots@[k] == ff_mark(#[trigger] orig[k]),
                buf@.len() == ff_tally(orig, i as int),
                forall|k: int|
                    0 <= k < i ==> #[trigger] ff_children_ok(
                        orig[k],
                        buf@.subrange(ff_tally(orig, k), ff_tally(orig, k) + ff_count(orig[k])),
                    ),
            decreases en_shots@.len() - i,
        {
            proof {
                lemma_ff_tally_mono(orig, i as int, i as int);
                assert(ff_tally(orig, i as int + 1) == ff_tally(orig, i as int) + ff_count(
                    orig[i as int],
                ));
            }
            let ghost buf0 = buf@;
            let ghost base = ff_tally(orig, i as int);
            let es = &mut en_shots[i];
            let ghost parent = orig[i as int];
            assert(*es == parent);
            if es.state == SubState::Origin && es.count == 60 {
                es.state = SubState::OriginDone;
                es.life = 0;
                let mut j: u32 = 0;
                while j < 8
                    invariant
                        j <= 8,
                        parent.wf(),
                        parent.state == SubState::Origin,
                        es.point == parent.point,
                        es.velocity == parent.velocity,
                        buf@.len() == buf0.len() + j,
                        forall|n: int| 0 <= n < buf0.len() ==> buf@[n] == buf0[n],
                        forall|jj: int|
                            0 <= jj < j ==> ff_child_ok(parent, #[trigger] buf@[buf0.len() + jj], jj),
                    decreases 8 - j,
                {
                    let step: i64 = 54000 * ((j / 2) as i64);
                    let off: i64 = if j % 2 == 0 { step } else { -step };
                    let angle = clamp_add(es.velocity.x, off);
                    let child = Actor {
                        point: es.point,
                        velocity: Vec2 { x: angle, y: 15000 },
                        state: SubState::Split,
                        ..Default::default()
                    };
                    buf.push(child);
                    j = j + 1;
                }
            } else if es.state == SubState::Split && es.count == 60 {
                es.state = SubState::SplitDone;
                es.life = 0;
                let mut j: u32 = 0;
                while j < 12
                    invariant
                        j <= 12,
                        parent.wf(),
                        parent.state == SubState::Split,
                        es.point == parent.point,
                        es.velocity == parent.velocity,
                        buf@.len() == buf0.len() + j,
                        forall|n: int| 0 <= n < buf0.len() ==> buf@[n] == buf0[n],
                        forall|jj: int|
                            0 <= jj < j ==> ff_child_ok(parent, #[trigger] buf@[buf0.len() + jj], jj),
                    decreases 12 - j,
                {
                    let step: i64 = 54000 * (1 + (j / 2) as i64);
                    let off: i64 = if j % 2 == 0 { step } else { -step };
                    let angle = clamp_add(es.velocity.x, off);
                    let child = Actor {
                        point: es.point,
                        velocity: Vec2 { x: angle, y: 15000 },
                        state: SubState::Plain,
                        ..Default::default()
                    };
                    buf.push(child);
                    j = j + 1;
                }
            } else if es.state == SubState::OriginDone || es.state == SubState::SplitDone {
                es.life = 0;
            }
            i = i + 1;
            proof {
                assert(en_shots@[i - 1] == ff_mark(parent));
                assert(ff_tally(orig, i - 1) + ff_count(orig[i - 1]) == ff_tally(orig, i as int));
                assert forall|k: int|
                    0 <= k < i implies #[trigger] ff_children_ok(
                        orig[k],
                        buf@.subrange(ff_tally(orig, k), ff_tally(orig, k) + ff_count(orig[k])),
                    ) by {
                    let a = ff_tally(orig, k);
                    let b = a + ff_count(orig[k]);
                    lemma_ff_tally_mono(orig, k, k + 1);
                    assert(ff_tally(orig, k + 1) == b);
                    if k < i - 1 {
                        lemma_ff_tally_mono(orig, k + 1, i - 1);
                        assert(ff_children_ok(orig[k], buf0.subrange(a, b)));
                        assert forall|m: int| 0 <= m < b - a implies #[trigger] buf@.subrange(
                            a,
                            b,
                        )[m] == buf0.subrange(a, b)[m] by {
                            assert(buf@[a + m] == buf0[a + m]);
                        }
                        assert(buf@.subrange(a, b) =~= buf0.subrange(a, b));
                    } else {
                        lemma_ff_tally_mono(orig, k + 1, i as int);
                        assert(a == base && b == base + ff_count(parent));
                        assert(buf@.subrange(a, b).len() == ff_count(parent));
                        assert forall|j: int|
                            0 <= j < ff_count(parent) implies ff_child_ok(
                            parent,
                            #[trigger] buf@.subrange(a, b)[j],
                            j,
                        ) by {
                            assert(buf@.subrange(a, b)[j] == buf@[base + j]);
                        }
                    }
                }
            }
        }
        let ghost bufg = buf@;
        en_shots.append(&mut buf);
        proof {
            let pre = orig;
            let post = en_shots@;
            assert(post.len() == pre.len() + ff_tally(pre, pre.len() as int));
            assert forall|k: int|
                0 <= k < pre.len() implies #[trigger] ff_children_ok(
                    pre[k],
                    post.subrange(
                        pre.len() + ff_tally(pre, k),
                        pre.len() + ff_tally(pre, k) + ff_count(pre[k]),
                    ),
                ) by {
                let a = ff_tally(pre, k);
                let b = a + ff_count(pre[k]);
                lemma_ff_tally_mono(pre, k, k + 1);
                assert(ff_tally(pre, k + 1) == b);
                lemma_ff_tally_mono(pre, k + 1, pre.len() as int);
                assert(ff_children_ok(pre[k], bufg.subrange(a, b)));
                assert forall|m: int| 0 <= m < b - a implies #[trigger] post.subrange(
                    pre.len() + a,
                    pre.len() + b,
                )[m] == bufg.subrange(a, b)[m] by {
                    assert(post[pre.len() + a + m] == bufg[a + m]);
                }
                assert(post.subrange(pre.len() + a, pre.len() + b) =~= bufg.subrange(a, b));
            }
            assert(ff_scan_effect(pre, post));
            assert forall|n: int| 0 <= n < post.len() implies (#[trigger] post[n]).wf()
                && post[n].shot_flag() && post[n].kind == ActorKind::EnShot by {
                if n < pre.len() {
                    assert(post[n] == ff_mark(pre[n]));
                    assert(pre[n].wf() && pre[n].shot_flag() && pre[n].kind == ActorKind::EnShot);
                } else {
                    let d = n - pre.len();
                    lemma_ff_tally_find(pre, pre.len() as int, d);
                    let k = choose|k: int|
                        0 <= k < pre.len() && ff_tally(pre, k) <= d < ff_tally(pre, k) + ff_count(
                            #[trigger] pre[k],
                        );
                    let j = d - ff_tally(pre, k);
                    lemma_ff_tally_mono(pre, k, k + 1);
                    lemma_ff_tally_mono(pre, k + 1, pre.len() as int);
                    assert(ff_tally(pre, k + 1) == ff_tally(pre, k) + ff_count(pre[k]));
                    assert(ff_children_ok(
                        pre[k],
                        post.subrange(
                            pre.len() + ff_tally(pre, k),
                            pre.len() + ff_tally(pre, k) + ff_count(pre[k]),
                        ),
                    ));
                    assert(post.subrange(
                        pre.len() + ff_tally(pre, k),
                        pre.len() + ff_tally(pre, k) + ff_count(pre[k]),
                    )[j] == post[n]);
                    assert(ff_child_ok(pre[k], post[n], j));
                    assert(pre[k].wf() && pre[k].kind == ActorKind::EnShot);
                }
            }
        }
    }
}

/// A curving carpet-bomb origin shot: launched at 200 pixels per second
/// at the given angle, with a movement-script that bends its angle from
/// its 30th to its 120th tick while it is origin-tagged.
pub open spec fn is_carpet_origin(a: Actor, p: Vec2, angle: int) -> bool {
    &&& a.kind == ActorKind::EnShot
    &&& a.point == p
    &&& a.velocity == (Vec2 { x: angle as i64, y: 12000 })
    &&& a.accel == (Vec2 { x: 0, y: 0 })
    &&& a.bbox_size == 10 * crate::PX
    &&& a.life == LIFE_ONE
    &&& a.moving@ == seq![
        MovingElement {
            count: 30,
            accel: Vec2 { x: 3500, y: 0 },
            state: SubState::Origin,
            pattern: PatternKind::Idle,
        },
        MovingElement {
            count: 120,
            accel: Vec2 { x: 0, y: 0 },
            state: SubState::Plain,
            pattern: PatternKind::Idle,
        },
    ]
    &&& a.count == 0
    &&& a.state == SubState::Plain
    &&& a.pattern == PatternKind::Idle
}

/// The carpet bomb's launch effect: three origin shots two thirds of a
/// fraction apart, starting at the invocation's random angle.
pub open spec fn carpet_origin_effect(pre: Seq<Actor>, post: Seq<Actor>, p: Vec2,
    jitter: int) -> bool {
    &&& post.len() == pre.len() + 3
    &&& forall|i: int| 0 <= i < pre.len() ==> post[i] == pre[i]
    &&& forall|i: int|
        0 <= i < 3 ==> is_carpet_origin(#[trigger] post[pre.len() + i], p, jitter + i * 200000)
}

/// How many sub-wave children one shot owes when the carpet bomb scans
/// the pool: two per origin-tagged shot.
pub open spec fn cb_count(a: Actor) -> int {
    if a.state == SubState::Origin {
        2
    } else {
        0
    }
}

/// The sub-wave children owed by the first `n` shots of the pool.
pub open spec fn cb_tally(s: Seq<Actor>, n: int) -> int
    decreases n,
{
    if n <= 0 {
        0
    } else {
        cb_tally(s, n - 1) + cb_count(s[n - 1])
    }
}

/// The running sub-wave total is non-negative and monotone.
pub proof fn lemma_cb_tally_mono(s: Seq<Actor>, a: int, b: int)
    requires
        0 <= a <= b,
    ensures
        0 <= cb_tally(s, a) <= cb_tally(s, b),
    decreases b,
{
    if b > 0 {
        if a == b {
            lemma_cb_tally_mono(s, if a > 0 { a - 1 } else { 0int }, b - 1);
        } else {
            lemma_cb_tally_mono(s, a, b - 1);
        }
    }
}

/// Every sub-wave child index lies inside exactly one origin's block.
pub proof fn lemma_cb_tally_find(s: Seq<Actor>, n: int, d: int)
    requires
        0 <= n <= s.len(),
        0 <= d < cb_tally(s, n),
    ensures
        exists|k: int|
            0 <= k < n && cb_tally(s, k) <= d < cb_tally(s, k) + cb_count(#[trigger] s[k]),
    decreases n,
{
    if n > 0 {
        if d >= cb_tally(s, n - 1) {
            assert(0 <= n - 1 < n && cb_tally(s, n - 1) <= d < cb_tally(s, n - 1) + cb_count(
                s[n - 1],
            ));
        } else {
            lemma_cb_tally_find(s, n - 1, d);
        }
    }
}

/// The `j`-th sub-wave child an origin owes: fired from the origin's
/// position at 250 pixels per second, bent 0.7 of a fraction to either
/// side of the origin's angle.
pub open spec fn cb_child_ok(parent: Actor, c: Actor, j: int) -> bool {
    is_shot_rec(
        c,
        parent.point,
        Vec2 {
            x: (if j == 0 {
                cadd(parent.velocity.x as int, 210000)
            } else {
                cadd(parent.velocity.x as int, -210000)
            }) as i64,
            y: 15000,
        },
        Vec2 { x: 0, y: 0 },
        SubState::Plain,
    )
}

/// `s` is exactly the sub-wave block an origin owes.
pub open spec fn cb_children_ok(parent: Actor, s: Seq<Actor>) -> bool {
    &&& s.len() == cb_count(parent)
    &&& forall|j: int| 0 <= j < s.len() ==> cb_child_ok(parent, #[trigger] s[j], j)
}

/// The carpet bomb's sub-wave effect: nothing existing changes, and
/// after the pool stand exactly the two-shot blocks of the live
/// origin-tagged shots, in pool order.
pub open spec fn carpet_scan_effect(pre: Seq<Actor>, post: Seq<Actor>) -> bool {
    &&& post.len() == pre.len() + cb_tally(pre, pre.len() as int)
    &&& forall|i: int| 0 <= i < pre.len() ==> post[i] == pre[i]
    &&& forall|i: int|
        0 <= i < pre.len() ==> #[trigger] cb_children_ok(
            pre[i],
            post.subrange(
                pre.len() + cb_tally(pre, i),
                pre.len() + cb_tally(pre, i) + cb_count(pre[i]),
            ),
        )
}

/// Curving carpet bomb.  With `shot_origin` set, launches three origin
/// shots at the invocation's random angle, each scripted to bend for a
/// short window and then fly straight.  Without it, every fifth tick
/// emits a symmetric pair of child shots from each live origin's current
/// position and angle; the pairs are buffered and appended after the
/// scan.
pub fn carpet_bomb(enemy: &mut Actor, p_point: Vec2, en_shots: &mut Vec<Actor>, count: u32,
    jitter: i64, shot_origin: bool)
    requires
        old(enemy).wf(),
        en_shots_ok(old(en_shots)@),
        0 <= jitter < crate::FRAC_TWO,
    ensures
        *final(enemy) == *old(enemy),
        shot_origin ==> carpet_origin_effect(
            old(en_shots)@,
            final(en_shots)@,
            old(enemy).point,
            jitter as int,
        ),
        !shot_origin && count % 5 == 0 ==> carpet_scan_effect(old(en_shots)@, final(en_shots)@),
        !shot_origin && count % 5 != 0 ==> final(en_shots)@ == old(en_shots)@,
        en_shots_ok(final(en_shots)@),
{
    let ghost orig = en_shots@;
    if shot_origin {
        let bend = MovingElement {
            count: 30,
            accel: Vec2 { x: 3500, y: 0 },
            state: SubState::Origin,
            pattern: PatternKind::Idle,
        };
        let straight = MovingElement {
            count: 120,
            accel: Vec2 { x: 0, y: 0 },
            state: SubState::Plain,
            pattern: PatternKind::Idle,
        };
        let mut i: u32 = 0;
        while i < 3
            invariant
                i <= 3,
                enemy.wf(),
                en_shots_ok(orig),
                0 <= jitter < crate::FRAC_TWO,
                bend == (MovingElement {
                    count: 30,
                    accel: Vec2 { x: 3500, y: 0 },
                    state: SubState::Origin,
                    pattern: PatternKind::Idle,
                }),
                straight == (MovingElement {
                    count: 120,
                    accel: Vec2 { x: 0, y: 0 },
                    state: SubState::Plain,
                    pattern: PatternKind::Idle,
                }),
                en_shots@.len() == orig.len() + i,
                forall|n: int| 0 <= n < orig.len() ==> en_shots@[n] == orig[n],
                forall|k: int|
                    0 <= k < i ==> is_carpet_origin(
                        #[trigger] en_shots@[orig.len() + k],
                        enemy.point,
                        jitter + k * 200000,
                    ),
            decreases 3 - i,
        {
            let mut moving: Vec<MovingElement> = Vec::new();
            moving.push(bend);
            moving.push(straight);
            let shot = Actor {
                point: enemy.point,
                velocity: Vec2 { x: jitter + (i as i64) * 200000, y: 12000 },
                moving,
                ..Default::default()
            };
            en_shots.push(shot);
            proof {
                assert(en_shots@[orig.len() + i] == shot);
                assert(shot.moving@ =~= seq![bend, straight]);
            }
            i = i + 1;
        }
        proof {
            assert forall|n: int| 0 <= n < en_shots@.len() implies (#[trigger] en_shots@[n]).wf()
                && en_shots@[n].shot_flag() && en_shots@[n].kind == ActorKind::EnShot by {
                if n < orig.len() {
                    assert(en_shots@[n] == orig[n]);
                    assert(orig[n].wf() && orig[n].shot_flag() && orig[n].kind
                        == ActorKind::EnShot);
                } else {
                    let k = n - orig.len();
                    assert(en_shots@[n] == en_shots@[orig.len() + k]);
                    assert(is_carpet_origin(
                        en_shots@[orig.len() + k],
                        enemy.point,
                        jitter + k * 200000,
                    ));
                }
            }
        }
    } else {
        if count % 5 != 0 {
            return ;
        }
        let mut buf: Vec<Actor> = Vec::new();
        let mut i: usize = 0;
        while i < en_shots.len()
            invariant
                i <= en_shots@.len(),
                en_shots_ok(orig),
                en_shots@ == orig,
                buf@.len() == cb_tally(orig, i as int),
                forall|k: int|
                    0 <= k < i ==> #[trigger] cb_children_ok(
                        orig[k],
                        buf@.subrange(cb_tally(orig, k), cb_tally(orig, k) + cb_count(orig[k])),
                    ),
            decreases en_shots@.len() - i,
        {
            proof {
                assert(cb_tally(orig, i as int + 1) == cb_tally(orig, i as int) + cb_count(
                    orig[i as int],
                ));
            }
            let ghost buf0 = buf@;
            let ghost base = cb_tally(orig, i as int);
            let ghost parent = orig[i as int];
            if en_shots[i].state == SubState::Origin {
                let pv = en_shots[i].velocity;
                let pp2 = en_shots[i].point;
                let c0 = Actor {
                    point: pp2,
                    velocity: Vec2 { x: clamp_add(pv.x, 210000), y: 15000 },
                    ..Default::default()
                };
                let c1 = Actor {
                    point: pp2,
                    velocity: Vec2 { x: clamp_add(pv.x, -210000), y: 15000 },
                    ..Default::default()
                };
                buf.push(c0);
                buf.push(c1);
                proof {
                    assert(buf@[base] == c0 && buf@[base + 1] == c1);
                    assert(cb_child_ok(parent, c0, 0) && cb_child_ok(parent, c1, 1));
                }
            }
            i = i + 1;
            proof {
                assert forall|k: int|
                    0 <= k < i implies #[trigger] cb_children_ok(
                        orig[k],
                        buf@.subrange(cb_tally(orig, k), cb_tally(orig, k) + cb_count(orig[k])),
                    ) by {
                    let a = cb_tally(orig, k);
                    let b = a + cb_count(orig[k]);
                    lemma_cb_tally_mono(orig, k, k + 1);
                    assert(cb_tally(orig, k + 1) == b);
                    if k < i - 1 {
                        lemma_cb_tally_mono(orig, k + 1, i - 1);
                        assert(cb_children_ok(orig[k], buf0.subrange(a, b)));
                        assert forall|m: int| 0 <= m < b - a implies #[trigger] buf@.subrange(
                            a,
                            b,
                        )[m] == buf0.subrange(a, b)[m] by {
                            assert(buf@[a + m] == buf0[a + m]);
                        }
                        assert(buf@.subrange(a, b) =~= buf0.subrange(a, b));
                    } else {
                        lemma_cb_tally_mono(orig, k + 1, i as int);
                        assert(a == base && b == base + cb_count(parent));
                        assert(buf@.subrange(a, b).len() == cb_count(parent));
                        assert forall|j: int|
                            0 <= j < cb_count(parent) implies cb_child_ok(
                            parent,
                            #[trigger] buf@.subrange(a, b)[j],
                            j,
                        ) by {
                            assert(buf@.subrange(a, b)[j] == buf@[base + j]);
                        }
                    }
                }
            }
        }
        let ghost bufg = buf@;
        en_shots.append(&mut buf);
        proof {
            let pre = orig;
            let post = en_shots@;
            assert(post.len() == pre.len() + cb_tally(pre, pre.len() as int));
            assert forall|k: int|
                0 <= k < pre.len() implies #[trigger] cb_children_ok(
                    pre[k],
                    post.subrange(
                        pre.len() + cb_tally(pre, k),
                        pre.len() + cb_tally(pre, k) + cb_count(pre[k]),
                    ),
                ) by {
                let a = cb_tally(pre, k);
                let b = a + cb_count(pre[k]);
                lemma_cb_tally_mono(pre, k, k + 1);
                assert(cb_tally(pre, k + 1) == b);
                lemma_cb_tally_mono(pre, k + 1, pre.len() as int);
                assert(cb_children_ok(pre[k], bufg.subrange(a, b)));
                assert forall|m: int| 0 <= m < b - a implies #[trigger] post.subrange(
                    pre.len() + a,
                    pre.len() + b,
                )[m] == bufg.subrange(a, b)[m] by {
                    assert(post[pre.len() + a + m] == bufg[a + m]);
                }
                assert(post.subrange(pre.len() + a, pre.len() + b) =~= bufg.subrange(a, b));
            }
            assert(carpet_scan_effect(pre, post));
            assert forall|n: int| 0 <= n < post.len() implies (#[trigger] post[n]).wf()
                && post[n].shot_flag() && post[n].kind == ActorKind::EnShot by {
                if n < pre.len() {
                    assert(post[n] == pre[n]);
                    assert(pre[n].wf() && pre[n].shot_flag() && pre[n].kind == ActorKind::EnShot);
                } else {
                    let d = n - pre.len();
                    lemma_cb_tally_find(pre, pre.len() as int, d);
                    let k = choose|k: int|
                        0 <= k < pre.len() && cb_tally(pre, k) <= d < cb_tally(pre, k) + cb_count(
                            #[trigger] pre[k],
                        );
                    let j = d - cb_tally(pre, k);
                    lemma_cb_tally_mono(pre, k, k + 1);
                    lemma_cb_tally_mono(pre, k + 1, pre.len() as int);
                    assert(cb_tally(pre, k + 1) == cb_tally(pre, k) + cb_count(pre[k]));
                    assert(cb_children_ok(
                        pre[k],
                        post.subrange(
                            pre.len() + cb_tally(pre, k),
                            pre.len() + cb_tally(pre, k) + cb_count(pre[k]),
                        ),
                    ));
                    assert(post.subrange(
                        pre.len() + cb_tally(pre, k),
                        pre.len() + cb_tally(pre, k) + cb_count(pre[k]),
                    )[j] == post[n]);
                    assert(cb_child_ok(pre[k], post[n], j));
                    assert(pre[k].wf() && pre[k].kind == ActorKind::EnShot);
                }
            }
        }
    }
}

/// How many shots each of the six aimed directions fires: the pattern
/// upgrades from three to seven per direction late in the stage.
pub open spec fn n_six_block(count: u32) -> int {
    if count >= 3060 {
        7
    } else {
        3
    }
}

/// The angle of the `j`-th shot in aimed direction `i`: the three base
/// shots fly straight at the target, the upgrade adds two near misses
/// and two wide flanks.
pub open spec fn n_six_angle(i: int, j: int, aim: int) -> int {
    let base = i * 100000 + aim;
    if j < 3 {
        base
    } else if j == 3 {
        base + 36000
    } else if j == 4 {
        base - 36000
    } else if j == 5 {
        base + 396000
    } else {
        base - 396000
    }
}

/// The speed of the `j`-th shot of one aimed direction.
pub open spec fn n_six_speed(j: int) -> int {
    if j < 3 {
        8400 + j * 2400
    } else if j < 5 {
        9600
    } else {
        11400
    }
}

/// The aimed six-way volley's whole effect on the pool.
pub open spec fn n_six_effect(pre: Seq<Actor>, post: Seq<Actor>, ep: Vec2, pp: Vec2,
    count: u32) -> bool {
    let b = n_six_block(count);
    let aim = angle_to_spec(pp.x - ep.x, pp.y - ep.y);
    &&& post.len() == pre.len() + 6 * b
    &&& forall|i: int| 0 <= i < pre.len() ==> post[i] == pre[i]
    &&& forall|i: int, j: int|
        0 <= i < 6 && 0 <= j < b ==> is_enemy_shot(
            #[trigger] post[pre.len() + i * b + j],
            ep,
            Vec2 { x: n_six_angle(i, j, aim) as i64, y: n_six_speed(j) as i64 },
        )
}

/// Stage-enemy pattern: one aimed volley in six directions a third of a
/// fraction apart, at three stacked speeds — seven late in the stage —
/// then the enemy's pattern slot is cleared so it fires once per
/// script trigger.
pub fn n_six(enemy: &mut Actor, p_point: Vec2, en_shots: &mut Vec<Actor>, count: u32)
    requires
        old(enemy).wf(),
        p_point.wf(),
    ensures
        *final(enemy) == (Actor { pattern: PatternKind::Idle, ..*old(enemy) }),
        n_six_effect(old(en_shots)@, final(en_shots)@, old(enemy).point, p_point, count),
        en_shots_ok(old(en_shots)@) ==> en_shots_ok(final(en_shots)@),
{
    let ghost orig = en_shots@;
    let b: u32 = if count >= 3060 {
        7
    } else {
        3
    };
    let aim = get_angle_from_points(enemy.point, p_point);
    let ghost aim_s = angle_to_spec(p_point.x - enemy.point.x, p_point.y - enemy.point.y);
    let mut i: u32 = 0;
    while i < 6
        invariant
            i <= 6,
            enemy.wf(),
            aim == aim_s,
            -FRAC_ONE <= aim <= FRAC_ONE,
            b == n_six_block(count),
            en_shots@.len() == orig.len() + i * b,
            forall|n: int| 0 <= n < orig.len() ==> en_shots@[n] == orig[n],
            forall|a: int, c: int|
                0 <= a < i && 0 <= c < b ==> is_enemy_shot(
                    #[trigger] en_shots@[orig.len() + a * b + c],
                    enemy.point,
                    Vec2 { x: n_six_angle(a, c, aim_s) as i64, y: n_six_speed(c) as i64 },
                ),
        decreases 6 - i,
    {
        let base: i64 = (i as i64) * 100000 + aim;
        let mut j: u32 = 0;
        while j < b
            invariant
                i < 6,
                j <= b,
                enemy.wf(),
                aim == aim_s,
                -FRAC_ONE <= aim <= FRAC_ONE,
                b == n_six_block(count),
                base == i * 100000 + aim_s,
                en_shots@.len() == orig.len() + i * b + j,
                forall|n: int| 0 <= n < orig.len() ==> en_shots@[n] == orig[n],
                forall|a: int, c: int|
                    0 <= a < 6 && 0 <= c < b && a * b + c < i * b + j ==> is_enemy_shot(
                        #[trigger] en_shots@[orig.len() + a * b + c],
                        enemy.point,
                        Vec2 { x: n_six_angle(a, c, aim_s) as i64, y: n_six_speed(c) as i64 },
                    ),
            decreases b - j,
        {
            let angle: i64 = if j < 3 {
                base
            } else if j == 3 {
                base + 36000
            } else if j == 4 {
                base - 36000
            } else if j == 5 {
                base + 396000
            } else {
                base - 396000
            };
            let speed: i64 = if j < 3 {
                8400 + (j as i64) * 2400
            } else if j < 5 {
                9600
            } else {
                11400
            };
            en_shots.push(Actor::enemy_shot_new(enemy.point, Vec2 { x: angle, y: speed }));
            j = j + 1;
        }
        i = i + 1;
    }
    enemy.pattern = PatternKind::Idle;
    proof {
        if en_shots_ok(orig) {
            assert forall|n: int| 0 <= n < en_shots@.len() implies (#[trigger] en_shots@[n]).wf()
                && en_shots@[n].shot_flag() && en_shots@[n].kind == ActorKind::EnShot by {
                if n < orig.len() {
                    assert(en_shots@[n] == orig[n]);
                    assert(orig[n].wf() && orig[n].shot_flag() && orig[n].kind
                        == ActorKind::EnShot);
                } else {
                    let d = n - orig.len();
                    let bb = n_six_block(count);
                    let a = d / bb;
                    let c = d % bb;
                    vstd::arithmetic::div_mod::lemma_fundamental_div_mod(d, bb);
                    vstd::arithmetic::div_mod::lemma_mod_bound(d, bb);
                    assert(0 <= a < 6) by (nonlinear_arith)
                        requires
                            0 <= d < 6 * bb,
                            d == bb * a + c,
                            0 <= c < bb,
                            bb == 3 || bb == 7,
                    ;
                    assert(d == a * bb + c);
                    assert(en_shots@[n] == en_shots@[orig.len() + a * bb + c]);
                    assert(is_enemy_shot(
                        en_shots@[orig.len() + a * bb + c],
                        enemy.point,
                        Vec2 { x: n_six_angle(a, c, aim_s) as i64, y: n_six_speed(c) as i64 },
                    ));
                }
            }
        }
    }
}

/// Stage-enemy pattern: one dispersed four-way fan, then the enemy's
/// pattern slot is cleared so it fires once per script trigger.  `rnd`
/// is the invocation's fresh uniform draw.
pub fn n_four_two_disp(enemy: &mut Actor, p_point: Vec2, en_shots: &mut Vec<Actor>, rnd: u32)
    requires
        old(enemy).wf(),
        p_point.wf(),
    ensures
        *final(enemy) == (Actor { pattern: PatternKind::Idle, ..*old(enemy) }),
        disp_effect(
            old(en_shots)@,
            final(en_shots)@,
            old(enemy).point,
            p_point,
            (rnd % 30001) - 15000,
        ),
        en_shots_ok(old(en_shots)@) ==> en_shots_ok(final(en_shots)@),
{
    let jitter: i64 = ((rnd % 30001) as i64) - 15000;
    four_two_disp(enemy, p_point, en_shots, jitter);
    enemy.pattern = PatternKind::Idle;
}

/// Mid-boss pattern: after a 50-tick wind-up, the clockwise rotating
/// ring fires every third tick.
pub fn m_six_rotate(enemy: &mut Actor, p_point: Vec2, en_shots: &mut Vec<Actor>, count: u32)
    requires
        old(enemy).wf(),
    ensures
        *final(enemy) == *old(enemy),
        count > 50 && count % 3 == 0 ==> rotate_effect(
            old(en_shots)@,
            final(en_shots)@,
            old(enemy).point,
            count,
            true,
        ),
        !(count > 50 && count % 3 == 0) ==> final(en_shots)@ == old(en_shots)@,
        en_shots_ok(old(en_shots)@) ==> en_shots_ok(final(en_shots)@),
{
    if count > 50 && count % 3 == 0 {
        six_rotate(enemy, p_point, en_shots, count, true);
    }
}

/// Mid-boss pattern: on a 300-tick cycle, launch a six-way split burst
/// at the cycle's 50th tick, and run the split scan on every other tick.
pub fn m_six_fireflower(enemy: &mut Actor, p_point: Vec2, en_shots: &mut Vec<Actor>, count: u32)
    requires
        old(enemy).wf(),
        en_shots_ok(old(en_shots)@),
    ensures
        *final(enemy) == *old(enemy),
        count >= 50 && count % 300 == 50 ==> ff_origin_effect(
            old(en_shots)@,
            final(en_shots)@,
            old(enemy).point,
            6,
            0,
        ),
        !(count >= 50 && count % 300 == 50) ==> ff_scan_effect(old(en_shots)@, final(en_shots)@),
        en_shots_ok(final(en_shots)@),
{
    let shot_time = count % 300;
    if count >= 50 && shot_time == 50 {
        fireflower(enemy, p_point, en_shots, shot_time, 6, 0, true);
    } else {
        fireflower(enemy, p_point, en_shots, shot_time, 6, 0, false);
    }
}

/// The boss volley's whole effect on the pool: a sixteen-way radial
/// burst, offset by the invocation's random angle, at three stacked
/// speeds.
pub open spec fn bn_effect(pre: Seq<Actor>, post: Seq<Actor>, ep: Vec2, ru: int) -> bool {
    &&& post.len() == pre.len() + 48
    &&& forall|i: int| 0 <= i < pre.len() ==> post[i] == pre[i]
    &&& forall|i: int, j: int|
        0 <= i < 16 && 0 <= j < 3 ==> is_enemy_shot(
            #[trigger] post[pre.len() + i * 3 + j],
            ep,
            Vec2 { x: ff_origin_angle(i, 16, ru) as i64, y: (8400 + j * 2400) as i64 },
        )
}

/// Boss pattern: twice per 60-tick cycle, a randomly rotated sixteen-way
/// radial burst at three stacked speeds.  `rnd` is the invocation's
/// fresh uniform draw.
pub fn b_normal(enemy: &mut Actor, p_point: Vec2, en_shots: &mut Vec<Actor>, count: u32,
    rnd: u32)
    requires
        old(enemy).wf(),
    ensures
        *final(enemy) == *old(enemy),
        count % 60 == 0 || count % 60 == 20 ==> bn_effect(
            old(en_shots)@,
            final(en_shots)@,
            old(enemy).point,
            (rnd % 300000) as int,
        ),
        !(count % 60 == 0 || count % 60 == 20) ==> final(en_shots)@ == old(en_shots)@,
        en_shots_ok(old(en_shots)@) ==> en_shots_ok(final(en_shots)@),
{
    let ghost orig = en_shots@;
    let rate = count % 60;
    if !(rate == 0 || rate == 20) {
        return ;
    }
    let ru: i64 = (rnd % 300000) as i64;
    let mut i: u32 = 0;
    while i < 16
        invariant
            i <= 16,
            enemy.wf(),
            0 <= ru < FRAC_ONE,
            ru == (rnd % 300000) as int,
            en_shots@.len() == orig.len() + i * 3,
            forall|n: int| 0 <= n < orig.len() ==> en_shots@[n] == orig[n],
            forall|a: int, c: int|
                0 <= a < i && 0 <= c < 3 ==> is_enemy_shot(
                    #[trigger] en_shots@[orig.len() + a * 3 + c],
                    enemy.point,
                    Vec2 {
                        x: ff_origin_angle(a, 16, ru as int) as i64,
                        y: (8400 + c * 2400) as i64,
                    },
                ),
        decreases 16 - i,
    {
        let angle = crate::num::div_pos(2 * (i as i64) * FRAC_ONE + 4 * ru, 16);
        let mut j: u32 = 0;
        while j < 3
            invariant
                i < 16,
                j <= 3,
                enemy.wf(),
                0 <= ru < FRAC_ONE,
                ru == (rnd % 300000) as int,
                angle == ff_origin_angle(i as int, 16, ru as int),
                en_shots@.len() == orig.len() + i * 3 + j,
                forall|n: int| 0 <= n < orig.len() ==> en_shots@[n] == orig[n],
                forall|a: int, c: int|
                    0 <= a < 16 && 0 <= c < 3 && a * 3 + c < i * 3 + j ==> is_enemy_shot(
                        #[trigger] en_shots@[orig.len() + a * 3 + c],
                        enemy.point,
                        Vec2 {
                            x: ff_origin_angle(a, 16, ru as int) as i64,
                            y: (8400 + c * 2400) as i64,
                        },
                    ),
            decreases 3 - j,
        {
            let speed: i64 = 8400 + (j as i64) * 2400;
            en_shots.push(Actor::enemy_shot_new(enemy.point, Vec2 { x: angle, y: speed }));
            j = j + 1;
        }
        i = i + 1;
    }
    proof {
        if en_shots_ok(orig) {
            assert forall|n: int| 0 <= n < en_shots@.len() implies (#[trigger] en_shots@[n]).wf()
                && en_shots@[n].shot_flag() && en_shots@[n].kind == ActorKind::EnShot by {
                if n < orig.len() {
                    assert(en_shots@[n] == orig[n]);
                    assert(orig[n].wf() && orig[n].shot_flag() && orig[n].kind
                        == ActorKind::EnShot);
                } else {
                    let d = n - orig.len();
                    let a = d / 3;
                    let c = d % 3;
                    vstd::arithmetic::div_mod::lemma_fundamental_div_mod(d, 3);
                    vstd::arithmetic::div_mod::lemma_mod_bound(d, 3);
                    assert(0 <= a < 16) by (nonlinear_arith)
                        requires
                            0 <= d < 48,
                            d == 3 * a + c,
                            0 <= c < 3,
                    ;
                    assert(d == a * 3 + c);
                    assert(en_shots@[n] == en_shots@[orig.len() + a * 3 + c]);
                    assert(is_enemy_shot(
                        en_shots@[orig.len() + a * 3 + c],
                        enemy.point,
                        Vec2 {
                            x: ff_origin_angle(a, 16, (rnd % 300000) as int) as i64,
                            y: (8400 + c * 2400) as i64,
                        },
                    ));
                }
            }
        }
    }
}

/// The carpet bomb's per-tick sub-wave: the scan effect on every fifth
/// tick, nothing otherwise.
pub open spec fn carpet_wave(pre: Seq<Actor>, post: Seq<Actor>, count: u32) -> bool {
    if count % 5 == 0 {
        carpet_scan_effect(pre, post)
    } else {
        post == pre
    }
}

/// Boss pattern: on a 350-tick cycle, a clockwise rotating ring every
/// fifth tick for the first quarter, a counter-clockwise one for the
/// second, then dispersed fans every thirtieth tick.  `rnd` is the
/// invocation's fresh uniform draw.
pub fn b_6rotate_4rand(enemy: &mut Actor, p_point: Vec2, en_shots: &mut Vec<Actor>, count: u32,
    rnd: u32)
    requires
        old(enemy).wf(),
        p_point.wf(),
    ensures
        *final(enemy) == *old(enemy),
        ({
            let rate = count % 350;
            &&& (rate % 5 == 0 && rate <= 90) ==> rotate_effect(
                old(en_shots)@,
                final(en_shots)@,
                old(enemy).point,
                count,
                true,
            )
            &&& (!(rate % 5 == 0 && rate <= 90) && rate % 5 == 0 && rate <= 200 && rate >= 110)
                ==> rotate_effect(
                old(en_shots)@,
                final(en_shots)@,
                old(enemy).point,
                count,
                false,
            )
            &&& (!(rate % 5 == 0 && rate <= 90) && rate % 5 == 0 && rate <= 200 && rate < 110)
                ==> final(en_shots)@ == old(en_shots)@
            &&& (!(rate % 5 == 0 && rate <= 90) && !(rate % 5 == 0 && rate <= 200) && rate % 30
                == 0 && rate <= 320) ==> disp_effect(
                old(en_shots)@,
                final(en_shots)@,
                old(enemy).point,
                p_point,
                (rnd % 30001) - 15000,
            )
            &&& (!(rate % 5 == 0 && rate <= 90) && !(rate % 5 == 0 && rate <= 200) && !(rate % 30
                == 0 && rate <= 320)) ==> final(en_shots)@ == old(en_shots)@
        }),
        en_shots_ok(old(en_shots)@) ==> en_shots_ok(final(en_shots)@),
{
    let rate = count % 350;
    if rate % 5 == 0 && rate <= 90 {
        six_rotate(enemy, p_point, en_shots, count, true);
    } else if rate % 5 == 0 && rate <= 200 {
        if rate >= 110 {
            six_rotate(enemy, p_point, en_shots, count, false);
        }
    } else if rate % 30 == 0 && rate <= 320 {
        let jitter: i64 = ((rnd % 30001) as i64) - 15000;
        four_two_disp(enemy, p_point, en_shots, jitter);
    }
}

/// Boss pattern: on a 300-tick cycle, two-way split bursts every
/// thirtieth tick of the first quarter at a random offset, dispersed
/// fans every thirtieth tick after that, and the split scan on every
/// tick.  `rnd` is the invocation's fresh uniform draw.
pub fn b_2fireflower_4pdis(enemy: &mut Actor, p_point: Vec2, en_shots: &mut Vec<Actor>,
    count: u32, rnd: u32)
    requires
        old(enemy).wf(),
        p_point.wf(),
        en_shots_ok(old(en_shots)@),
    ensures
        *final(enemy) == *old(enemy),
        ({
            let rate = count % 300;
            &&& (rate % 30 == 0 && rate <= 90) ==> exists|mid: Seq<Actor>|
                #[trigger] ff_origin_effect(
                    old(en_shots)@,
                    mid,
                    old(enemy).point,
                    2,
                    (rnd % 300000) as int,
                ) && ff_scan_effect(mid, final(en_shots)@)
            &&& (!(rate % 30 == 0 && rate <= 90) && rate % 30 == 0 && rate <= 210) ==> exists|
                mid: Seq<Actor>,
            |
                #[trigger] disp_effect(
                    old(en_shots)@,
                    mid,
                    old(enemy).point,
                    p_point,
                    (rnd % 30001) - 15000,
                ) && ff_scan_effect(mid, final(en_shots)@)
            &&& (!(rate % 30 == 0 && rate <= 210)) ==> ff_scan_effect(
                old(en_shots)@,
                final(en_shots)@,
            )
        }),
        en_shots_ok(final(en_shots)@),
{
    let ghost orig = en_shots@;
    let rate = count % 300;
    if rate % 30 == 0 && rate <= 90 {
        let ru: i64 = (rnd % 300000) as i64;
        fireflower(enemy, p_point, en_shots, rate, 2, ru, true);
        let ghost mid = en_shots@;
        fireflower(enemy, p_point, en_shots, rate, 2, 0, false);
        proof {
            assert(ff_origin_effect(orig, mid, enemy.point, 2, (rnd % 300000) as int)
                && ff_scan_effect(mid, en_shots@));
        }
    } else if rate % 30 == 0 && rate <= 210 {
        let jitter: i64 = ((rnd % 30001) as i64) - 15000;
        four_two_disp(enemy, p_point, en_shots, jitter);
        let ghost mid = en_shots@;
        fireflower(enemy, p_point, en_shots, rate, 2, 0, false);
        proof {
            assert(disp_effect(orig, mid, enemy.point, p_point, (rnd % 30001) - 15000)
                && ff_scan_effect(mid, en_shots@));
        }
    } else {
        fireflower(enemy, p_point, en_shots, rate, 2, 0, false);
    }
}

/// Boss pattern: on a 500-tick cycle, rotating rings through the first
/// half, carpet-bomb launches every thirtieth tick of the second half,
/// and the carpet sub-wave through half of every 40-tick window.  `rnd`
/// is the invocation's fresh uniform draw.
pub fn b_6carpet_fireflower(enemy: &mut Actor, p_point: Vec2, en_shots: &mut Vec<Actor>,
    count: u32, rnd: u32)
    requires
        old(enemy).wf(),
        en_shots_ok(old(en_shots)@),
    ensures
        *final(enemy) == *old(enemy),
        ({
            let rate = count % 500;
            let c1 = rate % 3 == 0 && rate % 90 <= 60 && rate <= 240;
            let c2 = !c1 && rate >= 250 && rate % 30 == 0;
            let sub = rate % 40 < 20;
            &&& (c1 && sub) ==> exists|mid: Seq<Actor>|
                #[trigger] rotate_effect(old(en_shots)@, mid, old(enemy).point, count, true)
                    && carpet_wave(mid, final(en_shots)@, count)
            &&& (c1 && !sub) ==> rotate_effect(
                old(en_shots)@,
                final(en_shots)@,
                old(enemy).point,
                count,
                true,
            )
            &&& (c2 && sub) ==> exists|mid: Seq<Actor>|
                #[trigger] carpet_origin_effect(
                    old(en_shots)@,
                    mid,
                    old(enemy).point,
                    (rnd % 600000) as int,
                ) && carpet_wave(mid, final(en_shots)@, count)
            &&& (c2 && !sub) ==> carpet_origin_effect(
                old(en_shots)@,
                final(en_shots)@,
                old(enemy).point,
                (rnd % 600000) as int,
            )
            &&& (!c1 && !c2 && sub) ==> carpet_wave(old(en_shots)@, final(en_shots)@, count)
            &&& (!c1 && !c2 && !sub) ==> final(en_shots)@ == old(en_shots)@
        }),
        en_shots_ok(final(en_shots)@),
{
    let rate = count % 500;
    if rate % 3 == 0 && rate % 90 <= 60 && rate <= 240 {
        six_rotate(enemy, p_point, en_shots, count, true);
    } else if rate >= 250 && rate % 30 == 0 {
        let jitter: i64 = (rnd % 600000) as i64;
        carpet_bomb(enemy, p_point, en_shots, count, jitter, true);
    }
    if rate % 40 < 20 {
        carpet_bomb(enemy, p_point, en_shots, count, 0, false);
    }
}

/// A radial burst of six shots with no offset fires at exactly the
/// angle-fractions 0, 1/3, 2/3, 1, 4/3 and 5/3.
pub proof fn lemma_radial_six_angles()
    ensures
        forall|i: int| 0 <= i < 6 ==> #[trigger] ff_origin_angle(i, 6, 0) == i * 100000,
{
    assert forall|i: int| 0 <= i < 6 implies #[trigger] ff_origin_angle(i, 6, 0) == i * 100000 by {
        assert(2 * i * FRAC_ONE == (i * 100000) * 6) by (nonlinear_arith)
            requires
                FRAC_ONE == 300000,
        ;
        vstd::arithmetic::div_mod::lemma_div_multiples_vanish(i * 100000, 6);
        assert((2 * i * FRAC_ONE + 4 * 0) / 6 == (6 * (i * 100000)) / 6) by (nonlinear_arith)
            requires
                2 * i * FRAC_ONE == (i * 100000) * 6,
                FRAC_ONE == 300000,
        ;
    }
}

} // verus!
