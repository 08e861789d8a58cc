//! The session: per-tick state machine, stage director, boss phase
//! controller, collision resolver and lifecycle reaper.
use vstd::prelude::*;

use crate::actor::bounded;
use crate::actor::Actor;
use crate::actor::ActorKind;
use crate::actor::PatternKind;
use crate::actor::SubState;
use crate::actor::Vec2;
use crate::shot_type::en_shots_ok;
use crate::stage::Stage;
use crate::stage::StageModel;
use crate::FIX_MAX;
use crate::LIFE_ONE;

verus! {

/// Which screen the session is on; gameplay advances only in `Gaming`,
/// `GamingBoss` and the `GameClear` pause.
#[derive(Debug, Clone, Copy, PartialEq, Eq, Structural)]
pub enum WindowState {
    Title,
    Gaming,
    GamingBoss,
    GameOver,
    GameClear,
    ThankYouForPlaying,
}

/// What a tick tells the surrounding application: keep running, or the
/// session ended in a loss or a win.
#[derive(Debug, Clone, Copy, PartialEq, Eq, Structural)]
pub enum Outcome {
    Playing,
    Lose,
    Win,
}

/// The per-tick intents handed in by the input collaborator.
#[derive(Debug, Clone, Copy, PartialEq, Eq, Structural)]
pub struct InputState {
    pub up: bool,
    pub down: bool,
    pub right: bool,
    pub left: bool,
    pub shift: bool,
    pub shot: bool,
    pub bomb: bool,
}

impl InputState {
    /// No intent on any channel.
    pub fn new() -> (r: InputState)
        ensures
            r == (InputState {
                up: false,
                down: false,
                right: false,
                left: false,
                shift: false,
                shot: false,
                bomb: false,
            }),
    {
        InputState {
            up: false,
            down: false,
            right: false,
            left: false,
            shift: false,
            shot: false,
            bomb: false,
        }
    }
}

/// One boss-combat segment: the pattern it fires, the boss-local tick at
/// which it ends, and the boss life it starts with.
#[derive(Debug, Clone, Copy, PartialEq, Eq, Structural)]
pub struct Phase {
    pub pattern: PatternKind,
    pub until: u32,
    pub life: i64,
}

/// Every entry is a well-formed player shot with a binary life flag.
pub open spec fn pl_shots_ok(s: Seq<Actor>) -> bool {
    forall|i: int|
        0 <= i < s.len() ==> (#[trigger] s[i]).wf() && s[i].shot_flag() && s[i].kind
            == ActorKind::PlShot
}

/// Every entry is a well-formed enemy.
pub open spec fn enemies_ok(s: Seq<Actor>) -> bool {
    forall|i: int| 0 <= i < s.len() ==> (#[trigger] s[i]).wf() && s[i].kind == ActorKind::Enemy
}

/// Every entry is a well-formed effect with a binary life flag.
pub open spec fn effects_ok(s: Seq<Actor>) -> bool {
    forall|i: int|
        0 <= i < s.len() ==> (#[trigger] s[i]).wf() && s[i].shot_flag() && s[i].kind
            == ActorKind::Effect
}

/// The models of a timeline, in order.
pub open spec fn stage_models(s: Seq<Stage>) -> Seq<StageModel> {
    s.map_values(|st: Stage| st@)
}

/// The whole simulation state for one session.
#[derive(Debug)]
pub struct MainState {
    pub window_state: WindowState,
    pub player: Actor,
    pub plshots: Vec<Actor>,
    pub enemys: Vec<Actor>,
    pub boss: Option<Actor>,
    pub enshots: Vec<Actor>,
    pub effects: Vec<Actor>,
    /// The active spawn timeline.
    pub stage: Vec<Stage>,
    /// The boss's phase table, installed at boss entry.
    pub boss_phases: Vec<Phase>,
    /// Index of the current phase within the table.
    pub boss_phase_idx: usize,
    /// Edge latches: a held shot fires the title/menu action once, a
    /// spent bomb blocks re-triggering until invulnerability ends.
    pub input_break: InputState,
    /// The stage tick counter.
    pub game_count: u32,
    /// The boss-local tick counter.
    pub boss_count: u32,
    /// Bombs left.
    pub bomb: u32,
    pub score: u32,
}

impl MainState {
    /// Structural soundness of the whole session: every actor
    /// well-formed and of the collection's kind, every shot's life a
    /// binary flag, every timeline entry well-formed and not yet
    /// exhausted, and the boss present whenever boss combat is on, with
    /// its phase index inside the table.
    pub open spec fn wf(self) -> bool {
        &&& self.player.wf()
        &&& self.player.kind == ActorKind::Player
        &&& pl_shots_ok(self.plshots@)
        &&& en_shots_ok(self.enshots@)
        &&& enemies_ok(self.enemys@)
        &&& effects_ok(self.effects@)
        &&& match self.boss {
            Option::Some(b) => b.wf() && b.kind == ActorKind::Boss && self.boss_phase_idx
                < self.boss_phases@.len(),
            Option::None => true,
        }
        &&& forall|i: int|
            0 <= i < self.stage@.len() ==> (#[trigger] self.stage@[i]).wf() && self.stage@[i].repeat
                >= 0
        &&& forall|i: int|
            0 <= i < self.boss_phases@.len() ==> bounded(
                (#[trigger] self.boss_phases@[i]).life as int,
            )
        &&& self.window_state == WindowState::GamingBoss ==> self.boss is Some
    }

    /// A fresh session on the given pre-parsed timeline, at the title
    /// screen, with the stage tick counter set to the timeline's initial
    /// offset.
    pub fn new(stage: Vec<Stage>, initial_count: u32) -> (r: MainState)
        requires
            forall|i: int|
                0 <= i < stage@.len() ==> (#[trigger] stage@[i]).wf() && stage@[i].repeat >= 0,
        ensures
            r.window_state == WindowState::Title,
            r.player.kind == ActorKind::Player,
            r.player.point == (Vec2 { x: 1584000, y: 2880000 }),
            r.player.life == 3 * LIFE_ONE,
            r.player.state == SubState::Plain,
            r.player.count == 0,
            r.plshots@ == Seq::<Actor>::empty(),
            r.enemys@ == Seq::<Actor>::empty(),
            r.boss is None,
            r.enshots@ == Seq::<Actor>::empty(),
            r.effects@ == Seq::<Actor>::empty(),
            r.stage@ == stage@,
            r.input_break == (InputState {
                up: false,
                down: false,
                right: false,
                left: false,
                shift: false,
                shot: false,
                bomb: false,
            }),
            r.game_count == initial_count,
            r.boss_count == 0,
            r.bomb == 4,
            r.score == 0,
            r.wf(),
    {
        MainState {
            window_state: WindowState::Title,
            player: Actor::player_new(),
            plshots: Vec::new(),
            enemys: Vec::new(),
            boss: Option::None,
            enshots: Vec::new(),
            effects: Vec::new(),
            stage,
            boss_phases: Vec::new(),
            boss_phase_idx: 0,
            input_break: InputState::new(),
            game_count: initial_count,
            boss_count: 0,
            bomb: 4,
            score: 0,
        }
    }
}

/// Relies on `rand::random`: one uniform draw from the thread-local
/// generator; nothing is promised of its value.
#[verifier::external_body]
fn random_u32() -> u32 {
    rand::random::<u32>()
}

/// The entries of `s` whose life is positive, in order: what the
/// lifecycle reaper keeps.
pub open spec fn live(s: Seq<Actor>) -> Seq<Actor> {
    s.filter(|a: Actor| a.life > 0)
}

/// The sole removal path: keep exactly the actors whose life is
/// positive.
pub fn reap(v: &mut Vec<Actor>)
    ensures
        final(v)@ == live(old(v)@),
{
    let ghost orig = old(v)@;
    let mut tmp: Vec<Actor> = Vec::new();
    while v.len() > 0
        invariant
            v@ == orig.take(v@.len() as int),
            tmp@.len() == orig.len() - v@.len(),
            forall|j: int| 0 <= j < tmp@.len() ==> tmp@[j] == orig[orig.len() - 1 - j],
        decreases v@.len(),
    {
        proof {
            assert(v@[v@.len() - 1] == orig[v@.len() - 1]);
        }
        let x = v.pop().unwrap();
        tmp.push(x);
        proof {
            assert(v@ =~= orig.take(v@.len() as int));
        }
    }
    let mut out: Vec<Actor> = Vec::new();
    while tmp.len() > 0
        invariant
            tmp@.len() <= orig.len(),
            forall|j: int| 0 <= j < tmp@.len() ==> tmp@[j] == orig[orig.len() - 1 - j],
            out@ == orig.take(orig.len() - tmp@.len()).filter(|a: Actor| a.life > 0),
        decreases tmp@.len(),
    {
        let ghost done = orig.len() - tmp@.len();
        proof {
            assert(tmp@[tmp@.len() - 1] == orig[done]);
            assert(orig.take(done + 1) =~= orig.take(done as int).push(orig[done]));
            reveal(Seq::filter);
            assert(orig.take(done as int).push(orig[done]).drop_last() =~= orig.take(done as int));
        }
        let x = tmp.pop().unwrap();
        if x.life > 0 {
            out.push(x);
        }
    }
    proof {
        assert(orig.take(orig.len() as int) =~= orig);
    }
    *v = out;
}

/// Every survivor of the reaper is one of the actors that went in (with
/// a positive life).
pub proof fn lemma_live_members(s: Seq<Actor>)
    ensures
        forall|j: int|
            #![trigger live(s)[j]]
            0 <= j < live(s).len() ==> exists|k: int| 0 <= k < s.len() && live(s)[j] == s[k],
    decreases s.len(),
{
    reveal(Seq::filter);
    if s.len() > 0 {
        let d = s.drop_last();
        lemma_live_members(d);
        assert forall|j: int| #![trigger live(s)[j]] 0 <= j < live(s).len() implies exists|k: int|
            0 <= k < s.len() && live(s)[j] == s[k] by {
            if j < live(d).len() {
                assert(live(s)[j] == live(d)[j]);
                let k = choose|k: int| 0 <= k < d.len() && live(d)[j] == d[k];
                assert(s[k] == d[k]);
            } else {
                assert(live(s)[j] == s[s.len() - 1]);
            }
        }
    }
}

/// Whether a descriptor kind is one of the special markers that switch
/// the session instead of spawning an enemy.
pub open spec fn is_marker(c: crate::stage::CharType) -> bool {
    c != crate::stage::CharType::Normal
}

/// The least index at or after `i` whose descriptor triggers at tick `t`
/// with a marker kind, or the timeline's length if none does.
pub open spec fn first_marker_from(s: Seq<StageModel>, t: u32, i: int) -> int
    decreases s.len() - i,
{
    if i < 0 || i >= s.len() {
        s.len() as int
    } else if s[i].count == t && is_marker(s[i].char_type) {
        i
    } else {
        first_marker_from(s, t, i + 1)
    }
}

/// The pre-states of the normal descriptors among the first `n` that
/// trigger at tick `t`, in timeline order: what the director spawns.
pub open spec fn fired_normals(s: Seq<StageModel>, n: int, t: u32) -> Seq<StageModel>
    decreases n,
{
    if n <= 0 {
        Seq::empty()
    } else {
        fired_normals(s, n - 1, t) + if s[n - 1].count == t && s[n - 1].char_type
            == crate::stage::CharType::Normal {
            seq![s[n - 1]]
        } else {
            Seq::empty()
        }
    }
}

/// The timeline after the director has processed its first `upto`
/// entries at tick `t`: each triggered normal descriptor rescheduled,
/// everything else untouched.
pub open spec fn director_processed(s: Seq<StageModel>, upto: int, t: u32) -> Seq<StageModel> {
    Seq::new(
        s.len(),
        |k: int|
            if k < upto && s[k].count == t && s[k].char_type == crate::stage::CharType::Normal {
                crate::stage::step_model(s[k])
            } else {
                s[k]
            },
    )
}

/// The enemy the director spawns from a triggered descriptor.
pub open spec fn is_spawned_enemy(a: Actor, m: StageModel) -> bool {
    &&& a.kind == ActorKind::Enemy
    &&& a.point == m.point
    &&& a.velocity == m.velocity
    &&& a.accel == (Vec2 { x: 0, y: 0 })
    &&& a.bbox_size == 20 * crate::PX
    &&& a.life == m.life
    &&& a.moving@ == m.moving
    &&& a.count == 0
    &&& a.state == SubState::Plain
    &&& a.pattern == PatternKind::Idle
}

/// The mid-boss's phase table: a wind-up, then a rotating ring and a
/// split pattern, 1500 boss ticks and 500 life each.
pub open spec fn mid_boss_phase_table() -> Seq<Phase> {
    seq![
        Phase { pattern: PatternKind::Waiting, until: 30, life: 1 },
        Phase { pattern: PatternKind::MSixRotate, until: 1500, life: 5000 },
        Phase { pattern: PatternKind::MSixFireflower, until: 1500, life: 5000 },
    ]
}

/// The stage boss's phase table: a wind-up, then six full phases
/// alternating the radial volley with the composite patterns.
pub open spec fn boss_phase_table() -> Seq<Phase> {
    seq![
        Phase { pattern: PatternKind::Waiting, until: 30, life: 1 },
        Phase { pattern: PatternKind::BNormal, until: 1500, life: 5000 },
        Phase { pattern: PatternKind::BRotateRand, until: 1500, life: 5000 },
        Phase { pattern: PatternKind::BNormal, until: 1500, life: 5000 },
        Phase { pattern: PatternKind::BFireflowerDisp, until: 1500, life: 5000 },
        Phase { pattern: PatternKind::BNormal, until: 1500, life: 5000 },
        Phase { pattern: PatternKind::BCarpetFireflower, until: 1500, life: 5000 },
    ]
}

/// The boss actor as it enters, before its first phase transition.
pub open spec fn is_boss_enter(b: Actor) -> bool {
    &&& b.kind == ActorKind::Boss
    &&& b.point == (Vec2 { x: 1620000, y: 720000 })
    &&& b.velocity == (Vec2 { x: 0, y: 0 })
    &&& b.accel == (Vec2 { x: 0, y: 0 })
    &&& b.bbox_size == 30 * crate::PX
    &&& b.life == 1
    &&& b.moving@ == Seq::<crate::actor::MovingElement>::empty()
    &&& b.count == 0
    &&& b.state == SubState::Plain
    &&& b.pattern == PatternKind::Waiting
}

/// Remove the exhausted descriptors (repeat count below zero) from the
/// timeline.
fn prune_stage(v: &mut Vec<Stage>)
    ensures
        stage_models(final(v)@) == stage_models(old(v)@).filter(
            |m: StageModel| m.repeat >= 0,
        ),
        (forall|i: int| 0 <= i < old(v)@.len() ==> (#[trigger] old(v)@[i]).wf()) ==> (forall|
            i: int,
        |
            0 <= i < final(v)@.len() ==> (#[trigger] final(v)@[i]).wf() && final(v)@[i].repeat
                >= 0),
{
    let ghost orig = old(v)@;
    let ghost p = |m: StageModel| m.repeat >= 0;
    let mut tmp: Vec<Stage> = Vec::new();
    while v.len() > 0
        invariant
            v@ == orig.take(v@.len() as int),
            tmp@.len() == orig.len() - v@.len(),
            forall|j: int| 0 <= j < tmp@.len() ==> tmp@[j] == orig[orig.len() - 1 - j],
        decreases v@.len(),
    {
        proof {
            assert(v@[v@.len() - 1] == orig[v@.len() - 1]);
        }
        let x = v.pop().unwrap();
        tmp.push(x);
        proof {
            assert(v@ =~= orig.take(v@.len() as int));
        }
    }
    let mut out: Vec<Stage> = Vec::new();
    while tmp.len() > 0
        invariant
            p == (|m: StageModel| m.repeat >= 0),
            tmp@.len() <= orig.len(),
            forall|j: int| 0 <= j < tmp@.len() ==> tmp@[j] == orig[orig.len() - 1 - j],
            stage_models(out@) == stage_models(orig.take(orig.len() - tmp@.len())).filter(p),
            forall|j: int|
                0 <= j < out@.len() ==> (#[trigger] out@[j]).repeat >= 0 && exists|k: int|
                    0 <= k < orig.len() && out@[j] == orig[k],
        decreases tmp@.len(),
    {
        let ghost done = orig.len() - tmp@.len();
        proof {
            assert(tmp@[tmp@.len() - 1] == orig[done]);
            assert(stage_models(orig.take(done + 1)) =~= stage_models(
                orig.take(done as int),
            ).push(orig[done]@));
            reveal(Seq::filter);
            assert(stage_models(orig.take(done as int)).push(orig[done]@).drop_last()
                =~= stage_models(orig.take(done as int)));
        }
        let x = tmp.pop().unwrap();
        if x.repeat >= 0 {
            proof {
                assert(exists|k: int| 0 <= k < orig.len() && x == orig[k]);
            }
            out.push(x);
            proof {
                assert(stage_models(out@) =~= stage_models(orig.take(done + 1)).filter(p));
            }
        } else {
            proof {
                assert(stage_models(out@) =~= stage_models(orig.take(done + 1)).filter(p));
            }
        }
    }
    proof {
        assert(orig.take(orig.len() as int) =~= orig);
        assert(stage_models(orig.take(orig.len() as int)) =~= stage_models(orig));
    }
    *v = out;
    proof {
        if forall|i: int| 0 <= i < orig.len() ==> (#[trigger] orig[i]).wf() {
            assert forall|i: int| 0 <= i < v@.len() implies (#[trigger] v@[i]).wf() && v@[i].repeat
                >= 0 by {
                let k = choose|k: int| 0 <= k < orig.len() && v@[i] == orig[k];
                assert(orig[k].wf());
            }
        }
    }
}

impl MainState {
    /// One stage-director pass at the current stage tick: fire every
    /// descriptor whose trigger equals the tick, in timeline order.  A
    /// triggered normal descriptor spawns its enemy and is rescheduled;
    /// a stage-clear marker empties the enemies, switches to the clear
    /// screen, resets the stage tick and stops the pass; a boss marker
    /// clears enemies and enemy shots, installs the kind's phase table,
    /// spawns the boss in its wind-up phase and stops the pass.
    /// Exhausted descriptors are then pruned.
    pub fn director_step(&mut self)
        requires
            old(self).wf(),
            old(self).window_state == WindowState::Gaming,
        ensures
            final(self).wf(),
            director_rel(*old(self), *final(self)),
    {
        let ghost s = stage_models(self.stage@);
        let t = self.game_count;
        let ghost old_enemys = self.enemys@;
        let mut i: usize = 0;
        let mut found: Option<crate::stage::CharType> = Option::None;
        while i < self.stage.len() && found.is_none()
            invariant
                i <= self.stage@.len(),
                s == stage_models(old(self).stage@),
                t == old(self).game_count,
                old_enemys == old(self).enemys@,
                self.stage@.len() == s.len(),
                self.window_state == WindowState::Gaming,
                self.game_count == t,
                self.player == old(self).player,
                self.plshots == old(self).plshots,
                self.enshots == old(self).enshots,
                self.effects == old(self).effects,
                self.boss == old(self).boss,
                self.boss_count == old(self).boss_count,
                self.boss_phases == old(self).boss_phases,
                self.boss_phase_idx == old(self).boss_phase_idx,
                self.input_break == old(self).input_break,
                self.bomb == old(self).bomb,
                self.score == old(self).score,
                old(self).wf(),
                self.player.wf(),
                pl_shots_ok(self.plshots@),
                en_shots_ok(self.enshots@),
                enemies_ok(self.enemys@),
                effects_ok(self.effects@),
                forall|k: int| 0 <= k < self.stage@.len() ==> (#[trigger] self.stage@[k]).wf(),
                forall|k: int|
                    0 <= k < i ==> (#[trigger] self.stage@[k])@ == director_processed(
                        s,
                        i as int,
                        t,
                    )[k],
                forall|k: int| i <= k < s.len() ==> (#[trigger] self.stage@[k])@ == s[k],
                found is None ==> first_marker_from(s, t, 0) == first_marker_from(s, t, i as int),
                found is Some ==> i < s.len() && first_marker_from(s, t, 0) == i && s[i as int].count
                    == t && s[i as int].char_type == found->0 && is_marker(found->0),
                self.enemys@.len() == old_enemys.len() + fired_normals(s, i as int, t).len(),
                forall|k: int| 0 <= k < old_enemys.len() ==> self.enemys@[k] == old_enemys[k],
                forall|j: int|
                    0 <= j < fired_normals(s, i as int, t).len() ==> is_spawned_enemy(
                        #[trigger] self.enemys@[old_enemys.len() + j],
                        fired_normals(s, i as int, t)[j],
                    ),
            decreases self.stage@.len() - i, (if found is None { 1int } else { 0int }),
        {
            let ghost fired_pre = fired_normals(s, i as int, t);
            if self.stage[i].count == t {
                let ct = self.stage[i].char_type;
                if ct == crate::stage::CharType::Normal {
                    let p = self.stage[i].point;
                    let v = self.stage[i].velocity;
                    let l = self.stage[i].life;
                    let mv = crate::actor::clone_moving(&self.stage[i].moving);
                    self.enemys.push(Actor::enemy_s_new(p, v, l, mv));
                    crate::stage::fire_descriptor(&mut self.stage[i]);
                    proof {
                        assert(fired_normals(s, i + 1, t) =~= fired_pre.push(s[i as int]));
                        assert(is_spawned_enemy(
                            self.enemys@[old_enemys.len() + fired_pre.len() as int],
                            s[i as int],
                        ));
                    }
                    i = i + 1;
                } else {
                    found = Option::Some(ct);
                }
            } else {
                proof {
                    assert(fired_normals(s, i + 1, t) =~= fired_normals(s, i as int, t));
                }
                i = i + 1;
            }
        }
        let ghost fm = first_marker_from(s, t, 0);
        let ghost stop = i as int;
        proof {
            if found is None {
                assert(first_marker_from(s, t, s.len() as int) == s.len());
                assert(fm == s.len());
            } else {
                assert(fm == stop);
            }
            assert(stage_models(self.stage@) =~= director_processed(s, stop, t));
            assert(director_processed(s, stop, t) =~= director_processed(s, fm, t));
        }
        match found {
            Option::None => {},
            Option::Some(ct) => {
                if ct == crate::stage::CharType::Clear {
                    self.enemys = Vec::new();
                    self.window_state = WindowState::GameClear;
                    self.game_count = 0;
                } else {
                    self.window_state = WindowState::GamingBoss;
                    self.game_count = crate::num::inc_sat(self.game_count);
                    self.enemys = Vec::new();
                    self.enshots = Vec::new();
                    let mut phases: Vec<Phase> = Vec::new();
                    phases.push(Phase { pattern: PatternKind::Waiting, until: 30, life: 1 });
                    if ct == crate::stage::CharType::MidBoss {
                        phases.push(
                            Phase { pattern: PatternKind::MSixRotate, until: 1500, life: 5000 },
                        );
                        phases.push(
                            Phase {
                                pattern: PatternKind::MSixFireflower,
                                until: 1500,
                                life: 5000,
                            },
                        );
                        proof {
                            assert(phases@ =~= mid_boss_phase_table());
                        }
                    } else {
                        phases.push(
                            Phase { pattern: PatternKind::BNormal, until: 1500, life: 5000 },
                        );
                        phases.push(
                            Phase { pattern: PatternKind::BRotateRand, until: 1500, life: 5000 },
                        );
                        phases.push(
                            Phase { pattern: PatternKind::BNormal, until: 1500, life: 5000 },
                        );
                        phases.push(
                            Phase {
                                pattern: PatternKind::BFireflowerDisp,
                                until: 1500,
                                life: 5000,
                            },
                        );
                        phases.push(
                            Phase { pattern: PatternKind::BNormal, until: 1500, life: 5000 },
                        );
                        phases.push(
                            Phase {
                                pattern: PatternKind::BCarpetFireflower,
                                until: 1500,
                                life: 5000,
                            },
                        );
                        proof {
                            assert(phases@ =~= boss_phase_table());
                        }
                    }
                    self.boss_phases = phases;
                    self.boss_phase_idx = 0;
                    self.boss_count = 0;
                    self.boss = Option::Some(
                        Actor::boss_new(
                            Vec2 { x: 1620000, y: 720000 },
                            Vec2 { x: 0, y: 0 },
                            1,
                            Vec::new(),
                            PatternKind::Waiting,
                        ),
                    );
                }
            },
        }
        prune_stage(&mut self.stage);
    }
}

/// What one firing of the boss's active pattern does to the enemy-shot
/// pool, for some value of the tick's fresh random draw: each pattern's
/// own cycle gating, with the draw-derived offset or jitter bound
/// existentially where the pattern is randomized.
pub open spec fn boss_volley(b: Actor, pp: Vec2, gc: u32, pre: Seq<Actor>, post: Seq<
    Actor,
>) -> bool {
    if b.pattern == PatternKind::MSixRotate {
        if gc > 50 && gc % 3 == 0 {
            crate::shot_type::rotate_effect(pre, post, b.point, gc, true)
        } else {
            post == pre
        }
    } else if b.pattern == PatternKind::MSixFireflower {
        if gc >= 50 && gc % 300 == 50 {
            crate::shot_type::ff_origin_effect(pre, post, b.point, 6, 0)
        } else {
            crate::shot_type::ff_scan_effect(pre, post)
        }
    } else if b.pattern == PatternKind::BNormal {
        if gc % 60 == 0 || gc % 60 == 20 {
            exists|ru: int|
                0 <= ru < crate::FRAC_ONE && #[trigger] crate::shot_type::bn_effect(
                    pre,
                    post,
                    b.point,
                    ru,
                )
        } else {
            post == pre
        }
    } else if b.pattern == PatternKind::BRotateRand {
        let rate = gc % 350;
        if rate % 5 == 0 && rate <= 90 {
            crate::shot_type::rotate_effect(pre, post, b.point, gc, true)
        } else if rate % 5 == 0 && rate <= 200 {
            if rate >= 110 {
                crate::shot_type::rotate_effect(pre, post, b.point, gc, false)
            } else {
                post == pre
            }
        } else if rate % 30 == 0 && rate <= 320 {
            exists|jit: int|
                -15000 <= jit <= 15000 && #[trigger] crate::shot_type::disp_effect(
                    pre,
                    post,
                    b.point,
                    pp,
                    jit,
                )
        } else {
            post == pre
        }
    } else if b.pattern == PatternKind::BFireflowerDisp {
        let rate = gc % 300;
        if rate % 30 == 0 && rate <= 90 {
            exists|ru: int, mid: Seq<Actor>|
                0 <= ru < crate::FRAC_ONE && #[trigger] crate::shot_type::ff_origin_effect(
                    pre,
                    mid,
                    b.point,
                    2,
                    ru,
                ) && crate::shot_type::ff_scan_effect(mid, post)
        } else if rate % 30 == 0 && rate <= 210 {
            exists|jit: int, mid: Seq<Actor>|
                -15000 <= jit <= 15000 && #[trigger] crate::shot_type::disp_effect(
                    pre,
                    mid,
                    b.point,
                    pp,
                    jit,
                ) && crate::shot_type::ff_scan_effect(mid, post)
        } else {
            crate::shot_type::ff_scan_effect(pre, post)
        }
    } else if b.pattern == PatternKind::BCarpetFireflower {
        let rate = gc % 500;
        let c1 = rate % 3 == 0 && rate % 90 <= 60 && rate <= 240;
        let c2 = !c1 && rate >= 250 && rate % 30 == 0;
        let sub = rate % 40 < 20;
        if c1 && sub {
            exists|mid: Seq<Actor>|
                #[trigger] crate::shot_type::rotate_effect(pre, mid, b.point, gc, true)
                    && crate::shot_type::carpet_wave(mid, post, gc)
        } else if c1 {
            crate::shot_type::rotate_effect(pre, post, b.point, gc, true)
        } else if c2 && sub {
            exists|ang: int, mid: Seq<Actor>|
                0 <= ang < crate::FRAC_TWO && #[trigger] crate::shot_type::carpet_origin_effect(
                    pre,
                    mid,
                    b.point,
                    ang,
                ) && crate::shot_type::carpet_wave(mid, post, gc)
        } else if c2 {
            exists|ang: int|
                0 <= ang < crate::FRAC_TWO && #[trigger] crate::shot_type::carpet_origin_effect(
                    pre,
                    post,
                    b.point,
                    ang,
                )
        } else if sub {
            crate::shot_type::carpet_wave(pre, post, gc)
        } else {
            post == pre
        }
    } else {
        post == pre
    }
}

/// The boss pattern dispatch relation: the boss record and everything
/// outside the enemy-shot pool untouched, and the pool extended per the
/// active pattern's own contract, for some value of the tick's draw.
pub open spec fn boss_pattern_rel(pre: MainState, post: MainState, gc: u32) -> bool {
    &&& post.boss == pre.boss
    &&& post.player == pre.player
    &&& post.plshots == pre.plshots
    &&& post.enemys == pre.enemys
    &&& post.effects == pre.effects
    &&& post.stage == pre.stage
    &&& post.window_state == pre.window_state
    &&& post.game_count == pre.game_count
    &&& post.boss_count == pre.boss_count
    &&& post.boss_phases == pre.boss_phases
    &&& post.boss_phase_idx == pre.boss_phase_idx
    &&& post.input_break == pre.input_break
    &&& post.bomb == pre.bomb
    &&& post.score == pre.score
    &&& en_shots_ok(post.enshots@)
    &&& match pre.boss {
        Option::None => post.enshots == pre.enshots,
        Option::Some(b) => boss_volley(b, pre.player.point, gc, pre.enshots@, post.enshots@),
    }
}

impl MainState {
    /// Fire the boss's active pattern for this boss tick, threading one
    /// fresh random draw into the patterns that want one.  The boss
    /// record itself is unchanged; what lands in the enemy-shot pool is
    /// the active pattern's own pinned effect, for the value the draw
    /// took.
    pub fn boss_pattern_step(&mut self, gc: u32)
        requires
            old(self).wf(),
        ensures
            final(self).wf(),
            boss_pattern_rel(*old(self), *final(self), gc),
    {
        let ghost pre = *old(self);
        let pp = self.player.point;
        let rnd = random_u32();
        match &mut self.boss {
            Option::Some(b) => {
                let pat = b.pattern;
                if pat == PatternKind::MSixRotate {
                    crate::shot_type::m_six_rotate(b, pp, &mut self.enshots, gc);
                } else if pat == PatternKind::MSixFireflower {
                    crate::shot_type::m_six_fireflower(b, pp, &mut self.enshots, gc);
                } else if pat == PatternKind::BNormal {
                    crate::shot_type::b_normal(b, pp, &mut self.enshots, gc, rnd);
                    proof {
                        if gc % 60 == 0 || gc % 60 == 20 {
                            let ru = (rnd % 300000) as int;
                            assert(0 <= ru < crate::FRAC_ONE && crate::shot_type::bn_effect(
                                pre.enshots@,
                                self.enshots@,
                                pre.boss->Some_0.point,
                                ru,
                            ));
                        }
                    }
                } else if pat == PatternKind::BRotateRand {
                    crate::shot_type::b_6rotate_4rand(b, pp, &mut self.enshots, gc, rnd);
                    proof {
                        let rate = gc % 350;
                        if !(rate % 5 == 0 && rate <= 90) && !(rate % 5 == 0 && rate <= 200)
                            && rate % 30 == 0 && rate <= 320 {
                            let jit = (rnd % 30001) - 15000;
                            assert(-15000 <= jit <= 15000 && crate::shot_type::disp_effect(
                                pre.enshots@,
                                self.enshots@,
                                pre.boss->Some_0.point,
                                pp,
                                jit,
                            ));
                        }
                    }
                } else if pat == PatternKind::BFireflowerDisp {
                    crate::shot_type::b_2fireflower_4pdis(b, pp, &mut self.enshots, gc, rnd);
                    proof {
                        let rate = gc % 300;
                        let bp = pre.boss->Some_0.point;
                        if rate % 30 == 0 && rate <= 90 {
                            let ru = (rnd % 300000) as int;
                            let mid = choose|mid: Seq<Actor>|
                                #[trigger] crate::shot_type::ff_origin_effect(
                                    pre.enshots@,
                                    mid,
                                    bp,
                                    2,
                                    ru,
                                ) && crate::shot_type::ff_scan_effect(mid, self.enshots@);
                            assert(0 <= ru < crate::FRAC_ONE
                                && crate::shot_type::ff_origin_effect(pre.enshots@, mid, bp, 2, ru)
                                && crate::shot_type::ff_scan_effect(mid, self.enshots@));
                        } else if rate % 30 == 0 && rate <= 210 {
                            let jit = (rnd % 30001) - 15000;
                            let mid = choose|mid: Seq<Actor>|
                                #[trigger] crate::shot_type::disp_effect(
                                    pre.enshots@,
                                    mid,
                                    bp,
                                    pp,
                                    jit,
                                ) && crate::shot_type::ff_scan_effect(mid, self.enshots@);
                            assert(-15000 <= jit <= 15000 && crate::shot_type::disp_effect(
                                pre.enshots@,
                                mid,
                                bp,
                                pp,
                                jit,
                            ) && crate::shot_type::ff_scan_effect(mid, self.enshots@));
                        }
                    }
                } else if pat == PatternKind::BCarpetFireflower {
                    crate::shot_type::b_6carpet_fireflower(b, pp, &mut self.enshots, gc, rnd);
                    proof {
                        let rate = gc % 500;
                        let c1 = rate % 3 == 0 && rate % 90 <= 60 && rate <= 240;
                        let c2 = !c1 && rate >= 250 && rate % 30 == 0;
                        let sub = rate % 40 < 20;
                        let bp = pre.boss->Some_0.point;
                        let ang = (rnd % 600000) as int;
                        if c1 && sub {
                            let mid = choose|mid: Seq<Actor>|
                                #[trigger] crate::shot_type::rotate_effect(
                                    pre.enshots@,
                                    mid,
                                    bp,
                                    gc,
                                    true,
                                ) && crate::shot_type::carpet_wave(mid, self.enshots@, gc);
                            assert(crate::shot_type::rotate_effect(pre.enshots@, mid, bp, gc, true)
                                && crate::shot_type::carpet_wave(mid, self.enshots@, gc));
                        } else if c2 && sub {
                            let mid = choose|mid: Seq<Actor>|
                                #[trigger] crate::shot_type::carpet_origin_effect(
                                    pre.enshots@,
                                    mid,
                                    bp,
                                    ang,
                                ) && crate::shot_type::carpet_wave(mid, self.enshots@, gc);
                            assert(0 <= ang < crate::FRAC_TWO
                                && crate::shot_type::carpet_origin_effect(
                                pre.enshots@,
                                mid,
                                bp,
                                ang,
                            ) && crate::shot_type::carpet_wave(mid, self.enshots@, gc));
                        } else if c2 {
                            assert(0 <= ang < crate::FRAC_TWO
                                && crate::shot_type::carpet_origin_effect(
                                pre.enshots@,
                                self.enshots@,
                                bp,
                                ang,
                            ));
                        }
                    }
                }
            },
            Option::None => {},
        }
    }

    /// The boss phase transition check for this boss tick: when the boss
    /// life has dropped below zero or the boss-local counter has reached
    /// the phase's end, consume the phase.  With phases remaining, the
    /// enemy-shot pool is emptied and the boss restarts the counter with
    /// exactly the next phase's configured life and pattern; after the
    /// last phase, boss and enemy shots are cleared and the session
    /// returns to normal stage progression.
    pub fn boss_phase_step(&mut self, gc: u32)
        requires
            old(self).wf(),
            old(self).window_state == WindowState::GamingBoss,
        ensures
            final(self).wf(),
            boss_phase_rel(*old(self), *final(self), gc),
    {
        let fire: bool;
        let until = self.boss_phases[self.boss_phase_idx].until;
        match &self.boss {
            Option::Some(b) => {
                fire = b.life < 0 || gc == until;
            },
            Option::None => {
                fire = false;
            },
        }
        if !fire {
            return ;
        }
        let n = self.boss_phases.len();
        proof {
            assert(old(self).boss is Some);
            assert(self.boss_phase_idx < n);
        }
        if self.boss_phase_idx + 1 < n {
            self.boss_count = 1;
            self.boss_phase_idx = self.boss_phase_idx + 1;
            let next = self.boss_phases[self.boss_phase_idx];
            match &mut self.boss {
                Option::Some(b) => {
                    b.life = next.life;
                    b.pattern = next.pattern;
                },
                Option::None => {},
            }
            self.enshots = Vec::new();
        } else {
            self.boss = Option::None;
            self.enshots = Vec::new();
            self.window_state = WindowState::Gaming;
        }
    }
}

/// The player's commanded per-tick velocity: opposed intents cancel, and
/// the speed modifier selects slow, focused movement.
pub open spec fn commanded_velocity(input: InputState) -> Vec2 {
    let f: i64 = if input.shift {
        9000
    } else {
        21000
    };
    let vy: i64 = if input.up && input.down {
        0
    } else if input.up {
        (-f) as i64
    } else if input.down {
        f
    } else {
        0
    };
    let vx: i64 = if input.right && input.left {
        0
    } else if input.right {
        f
    } else if input.left {
        (-f) as i64
    } else {
        0
    };
    Vec2 { x: vx, y: vy }
}

/// The invulnerable replacement player carrying the given life.
pub open spec fn is_trans_player(a: Actor, life: i64) -> bool {
    &&& a.kind == ActorKind::Player
    &&& a.point == (Vec2 { x: 1584000, y: 2880000 })
    &&& a.velocity == (Vec2 { x: 0, y: 0 })
    &&& a.accel == (Vec2 { x: 0, y: 0 })
    &&& a.bbox_size == 0
    &&& a.life == life
    &&& a.moving@ == Seq::<crate::actor::MovingElement>::empty()
    &&& a.count == 0
    &&& a.state == SubState::Trans
    &&& a.pattern == PatternKind::Idle
}

/// A fresh player shot at `p`, flying straight up.
pub open spec fn is_player_shot(a: Actor, p: Vec2) -> bool {
    &&& a.kind == ActorKind::PlShot
    &&& a.point == p
    &&& a.velocity == (Vec2 { x: crate::FRAC_ONE, y: 180000 })
    &&& a.accel == (Vec2 { x: 0, y: 0 })
    &&& a.bbox_size == 10 * crate::PX
    &&& a.life == LIFE_ONE
    &&& a.moving@ == Seq::<crate::actor::MovingElement>::empty()
    &&& a.count == 0
    &&& a.state == SubState::Plain
    &&& a.pattern == PatternKind::Idle
}

/// What one tick does to an effect: the bomb wave ages and dies at 180
/// of its own ticks; other effects are untouched.
pub open spec fn effect_step(a: Actor) -> Actor {
    if a.state == SubState::BombWave {
        let c = crate::num::inc_sat_spec(a.count);
        Actor { count: c, life: if c >= 180 { 0 } else { a.life }, ..a }
    } else {
        a
    }
}

impl MainState {
    /// Set the player's velocity from the tick's intents, integrate its
    /// motion, and fall to the game-over screen once its life is gone.
    pub fn move_player(&mut self, input: InputState)
        requires
            old(self).wf(),
        ensures
            final(self).wf(),
            move_player_rel(*old(self), *final(self), input),
    {
        let f: i64 = if input.shift {
            9000
        } else {
            21000
        };
        let vy: i64 = if input.up && input.down {
            0
        } else if input.up {
            -f
        } else if input.down {
            f
        } else {
            0
        };
        let vx: i64 = if input.right && input.left {
            0
        } else if input.right {
            f
        } else if input.left {
            -f
        } else {
            0
        };
        self.player.velocity = Vec2 { x: vx, y: vy };
        Actor::update_point(&mut self.player);
        if self.player.life <= 0 {
            self.window_state = WindowState::GameOver;
            self.game_count = 0;
        }
    }

    /// While the fire intent is held, two player shots leave every third
    /// tick, 20 pixels to either side of the player.
    pub fn spawn_player_shots(&mut self, input: InputState, gc: u32)
        requires
            old(self).wf(),
        ensures
            final(self).wf(),
            spawn_player_shots_rel(*old(self), *final(self), input, gc),
    {
        if input.shot && gc % 3 == 0 {
            let right = Vec2 {
                x: crate::num::clamp_add(self.player.point.x, 72000),
                y: self.player.point.y,
            };
            let left = Vec2 {
                x: crate::num::clamp_add(self.player.point.x, -72000),
                y: self.player.point.y,
            };
            self.plshots.push(Actor::player_shot_new(right));
            self.plshots.push(Actor::player_shot_new(left));
        }
    }

    /// Integrate every player shot one tick.
    pub fn move_player_shots(&mut self)
        requires
            old(self).wf(),
        ensures
            final(self).wf(),
            move_player_shots_rel(*old(self), *final(self)),
    {
        let ghost orig = self.plshots@;
        let mut i: usize = 0;
        while i < self.plshots.len()
            invariant
                i <= orig.len(),
                self.plshots@.len() == orig.len(),
                pl_shots_ok(orig),
                pl_shots_ok(self.plshots@),
                *self == (MainState { plshots: self.plshots, ..*old(self) }),
                forall|k: int|
                    0 <= k < i ==> self.plshots@[k] == crate::motion::update_point_shot_spec(
                        #[trigger] orig[k],
                    ),
                forall|k: int| i <= k < orig.len() ==> self.plshots@[k] == orig[k],
            decreases orig.len() - i,
        {
            let sref = &mut self.plshots[i];
            proof {
                assert(*sref == orig[i as int]);
            }
            Actor::update_point_shot(sref);
            i = i + 1;
        }
    }

    /// An edge-triggered bomb: if one is available and the latch is
    /// clear, the player turns invulnerable, a bomb wave effect appears
    /// at its position, and the latch blocks another bomb until the
    /// invulnerability ends.
    pub fn apply_bomb(&mut self, input: InputState)
        requires
            old(self).wf(),
        ensures
            final(self).wf(),
            apply_bomb_rel(*old(self), *final(self), input),
    {
        if input.bomb && !self.input_break.bomb && self.bomb > 0 {
            self.player.state = SubState::Trans;
            self.input_break.bomb = true;
            self.bomb = self.bomb - 1;
            let ef = Actor::effect_new(
                self.player.point,
                Vec2 { x: 0, y: 0 },
                Vec::new(),
                SubState::BombWave,
            );
            self.effects.push(ef);
        }
    }

    /// The invulnerability countdown: the timed state ages one tick and
    /// clears — releasing the bomb latch — once it has lasted its full
    /// 180 ticks.
    pub fn player_trans_countdown(&mut self)
        requires
            old(self).wf(),
        ensures
            final(self).wf(),
            trans_countdown_rel(*old(self), *final(self)),
    {
        if self.player.state == SubState::Trans {
            self.player.count = crate::num::inc_sat(self.player.count);
            if self.player.count > 180 {
                self.player.state = SubState::Plain;
                self.input_break.bomb = false;
                self.player.count = 0;
            }
        }
    }

    /// Age every effect one tick.
    pub fn update_effects(&mut self)
        requires
            old(self).wf(),
        ensures
            final(self).wf(),
            update_effects_rel(*old(self), *final(self)),
    {
        let ghost orig = self.effects@;
        let mut i: usize = 0;
        while i < self.effects.len()
            invariant
                i <= orig.len(),
                self.effects@.len() == orig.len(),
                effects_ok(orig),
                effects_ok(self.effects@),
                *self == (MainState { effects: self.effects, ..*old(self) }),
                forall|k: int| 0 <= k < i ==> self.effects@[k] == effect_step(#[trigger] orig[k]),
                forall|k: int| i <= k < orig.len() ==> self.effects@[k] == orig[k],
            decreases orig.len() - i,
        {
            let ef = &mut self.effects[i];
            proof {
                assert(*ef == orig[i as int]);
            }
            if ef.state == SubState::BombWave {
                ef.count = crate::num::inc_sat(ef.count);
                if ef.count >= 180 {
                    ef.life = 0;
                }
            }
            i = i + 1;
        }
    }
}

/// A shot qualifies as a hit on `t` when it overlaps `t` and is still
/// live; its life is zeroed at the hit, so one shot is consumed by at
/// most one hit per tick.
pub open spec fn shot_consumed(t: Actor, a: Actor) -> bool {
    crate::collide::collide_spec(t, a) && a.life > 0
}

/// A shot after the pass over target `t`: consumed ones are dead.
pub open spec fn zero_consumed(t: Actor, a: Actor) -> Actor {
    if shot_consumed(t, a) {
        Actor { life: 0, ..a }
    } else {
        a
    }
}

/// The target's life after the first `n` shots have been resolved: each
/// consumed shot's life is subtracted in order.
pub open spec fn hit_life(t: Actor, s: Seq<Actor>, n: int) -> int
    decreases n,
{
    if n <= 0 {
        t.life as int
    } else {
        let prev = hit_life(t, s, n - 1);
        if shot_consumed(t, s[n - 1]) {
            crate::num::cadd(prev, -s[n - 1].life)
        } else {
            prev
        }
    }
}

/// The score after the first `n` shots have been resolved: the fixed
/// bonus is awarded exactly once, at the hit that takes the target's
/// life from positive to zero or below.
pub open spec fn hit_score(t: Actor, s: Seq<Actor>, n: int, sc: u32) -> u32
    decreases n,
{
    if n <= 0 {
        sc
    } else {
        let sc1 = hit_score(t, s, n - 1, sc);
        if shot_consumed(t, s[n - 1]) && hit_life(t, s, n - 1) > 0 && hit_life(t, s, n) <= 0 {
            crate::num::add_sat_spec(sc1, 30)
        } else {
            sc1
        }
    }
}

/// The target's life stays within the global bound through a hit pass.
pub proof fn lemma_hit_life_bounded(t: Actor, s: Seq<Actor>, n: int)
    requires
        t.wf(),
    ensures
        -FIX_MAX <= hit_life(t, s, n) <= FIX_MAX,
    decreases n,
{
    if n > 0 {
        lemma_hit_life_bounded(t, s, n - 1);
    }
}

/// Resolve one target against the player-shot pool: every live
/// overlapping shot is consumed, its life is taken from the target, and
/// the kill bonus is scored exactly once, at the crossing.
pub fn hit_target(target: &mut Actor, shots: &mut Vec<Actor>, score: &mut u32)
    requires
        old(target).wf(),
        pl_shots_ok(old(shots)@),
    ensures
        *final(target) == (Actor {
            life: hit_life(*old(target), old(shots)@, old(shots)@.len() as int) as i64,
            ..*old(target)
        }),
        final(target).wf(),
        final(shots)@.len() == old(shots)@.len(),
        forall|i: int|
            0 <= i < old(shots)@.len() ==> final(shots)@[i] == zero_consumed(
                *old(target),
                #[trigger] old(shots)@[i],
            ),
        pl_shots_ok(final(shots)@),
        *final(score) == hit_score(*old(target), old(shots)@, old(shots)@.len() as int, *old(
            score,
        )),
{
    let ghost t0 = *old(target);
    let ghost orig = old(shots)@;
    let ghost sc0 = *old(score);
    let mut i: usize = 0;
    while i < shots.len()
        invariant
            i <= orig.len(),
            shots@.len() == orig.len(),
            t0.wf(),
            pl_shots_ok(orig),
            pl_shots_ok(shots@),
            *target == (Actor { life: hit_life(t0, orig, i as int) as i64, ..t0 }),
            *score == hit_score(t0, orig, i as int, sc0),
            forall|k: int|
                0 <= k < i ==> shots@[k] == zero_consumed(t0, #[trigger] orig[k]),
            forall|k: int| i <= k < orig.len() ==> shots@[k] == orig[k],
        decreases orig.len() - i,
    {
        proof {
            lemma_hit_life_bounded(t0, orig, i as int);
            lemma_hit_life_bounded(t0, orig, i as int + 1);
        }
        let live_before = target.life > 0;
        let hit = {
            let ps = &shots[i];
            ps.life > 0 && crate::collide::in_bbox(target, ps)
        };
        if hit {
            let dmg = shots[i].life;
            target.life = crate::num::clamp_add(target.life, -dmg);
            let ps = &mut shots[i];
            ps.life = 0;
            if live_before && target.life <= 0 {
                *score = crate::num::add_sat(*score, 30);
            }
        }
        i = i + 1;
    }
    proof {
        assert forall|j: int| 0 <= j < target.moving@.len() implies (
        #[trigger] target.moving@[j]).wf() by {
            assert(target.moving@[j] == t0.moving@[j]);
        }
        lemma_hit_life_bounded(t0, orig, orig.len() as int);
        assert(target.wf());
    }
}

/// The least index at or after `i` of a script element triggering at
/// tick `t`, or the script's length if none does.
pub open spec fn first_script_match(m: Seq<crate::actor::MovingElement>, t: u32, i: int) -> int
    decreases m.len() - i,
{
    if i < 0 || i >= m.len() {
        m.len() as int
    } else if m[i].count == t {
        i
    } else {
        first_script_match(m, t, i + 1)
    }
}

/// Apply the actor's movement-script at tick `t`: the first element
/// whose trigger equals `t` installs its acceleration, sub-state and
/// pattern; with no match the actor is untouched.
pub fn apply_script(a: &mut Actor, t: u32)
    requires
        old(a).wf(),
    ensures
        final(a).wf(),
        ({
            let fm = first_script_match(old(a).moving@, t, 0);
            if fm < old(a).moving@.len() {
                *final(a) == (Actor {
                    accel: old(a).moving@[fm].accel,
                    state: old(a).moving@[fm].state,
                    pattern: old(a).moving@[fm].pattern,
                    ..*old(a)
                })
            } else {
                *final(a) == *old(a)
            }
        }),
{
    let ghost m = a.moving@;
    let mut i: usize = 0;
    while i < a.moving.len()
        invariant
            i <= m.len(),
            a.wf(),
            *a == *old(a),
            m == a.moving@,
            first_script_match(m, t, 0) == first_script_match(m, t, i as int),
        decreases m.len() - i,
    {
        if a.moving[i].count == t {
            let e = a.moving[i];
            a.accel = e.accel;
            a.state = e.state;
            a.pattern = e.pattern;
            proof {
                assert(m[i as int].wf());
            }
            return ;
        }
        i = i + 1;
    }
}

/// The actor after its movement-script is applied at tick `t`.
pub open spec fn script_applied(a: Actor, t: u32) -> Actor {
    let fm = first_script_match(a.moving@, t, 0);
    if fm < a.moving@.len() {
        Actor {
            accel: a.moving@[fm].accel,
            state: a.moving@[fm].state,
            pattern: a.moving@[fm].pattern,
            ..a
        }
    } else {
        a
    }
}

/// One enemy's deterministic record evolution over a tick: its script
/// applies at the stage tick, a fired one-shot volley clears its own
/// pattern slot, and its motion integrates.  What the volley adds to the
/// shot pool is pinned by the pattern functions themselves.
pub open spec fn enemy_tick_spec(a: Actor, t: u32) -> Actor {
    let a1 = script_applied(a, t);
    let a2 = if a1.pattern == PatternKind::Six || a1.pattern == PatternKind::FourTwoDisp {
        Actor { pattern: PatternKind::Idle, ..a1 }
    } else {
        a1
    };
    crate::motion::update_point_spec(a2)
}

/// One enemy shot's record evolution over a tick, apart from the player
/// hit: its private counter advances, its script applies at its own age,
/// and its polar motion integrates.
pub open spec fn enshot_tick_spec(a: Actor) -> Actor {
    let c = crate::num::inc_sat_spec(a.count);
    let a1 = script_applied(Actor { count: c, ..a }, c);
    crate::motion::update_point_shot_spec(a1)
}

/// What one enemy's dispatch adds to the enemy-shot pool: the aimed
/// six-way volley's pinned effect, the dispersed fan's effect for some
/// jitter, or nothing, by the pattern the enemy holds after its script
/// applied.
pub open spec fn volley_step(e: Actor, pp: Vec2, gc: u32, pre: Seq<Actor>, post: Seq<
    Actor,
>) -> bool {
    if e.pattern == PatternKind::Six {
        crate::shot_type::n_six_effect(pre, post, e.point, pp, gc)
    } else if e.pattern == PatternKind::FourTwoDisp {
        exists|jit: int|
            -15000 <= jit <= 15000 && #[trigger] crate::shot_type::disp_effect(
                pre,
                post,
                e.point,
                pp,
                jit,
            )
    } else {
        post == pre
    }
}

/// The enemy-shot pool after the first `n` enemies have fired, in order:
/// a chain of [`volley_step`]s through existentially bound intermediate
/// pools.
pub open spec fn volleys_ok(enemys: Seq<Actor>, n: int, pp: Vec2, t: u32, gc: u32, pre: Seq<
    Actor,
>, post: Seq<Actor>) -> bool
    decreases n,
{
    if n <= 0 {
        post == pre
    } else {
        exists|mid: Seq<Actor>|
            volleys_ok(enemys, n - 1, pp, t, gc, pre, mid) && #[trigger] volley_step(
                script_applied(enemys[n - 1], t),
                pp,
                gc,
                mid,
                post,
            )
    }
}

/// Extending a volley chain by one more enemy's dispatch.
pub proof fn lemma_volleys_snoc(enemys: Seq<Actor>, n: int, pp: Vec2, t: u32, gc: u32, pre: Seq<
    Actor,
>, mid: Seq<Actor>, post: Seq<Actor>)
    requires
        n >= 1,
        volleys_ok(enemys, n - 1, pp, t, gc, pre, mid),
        volley_step(script_applied(enemys[n - 1], t), pp, gc, mid, post),
    ensures
        volleys_ok(enemys, n, pp, t, gc, pre, post),
{
    assert(volleys_ok(enemys, n - 1, pp, t, gc, pre, mid) && volley_step(
        script_applied(enemys[n - 1], t),
        pp,
        gc,
        mid,
        post,
    ));
}

/// The score after the bomb latch has cleared `n` enemies, 30 apiece.
pub open spec fn bomb_score(sc: u32, n: int) -> u32
    decreases n,
{
    if n <= 0 {
        sc
    } else {
        crate::num::add_sat_spec(bomb_score(sc, n - 1), 30)
    }
}

/// What one tick does to one enemy shot and to the player it may hit:
/// under the bomb latch the shot ages and dies; otherwise it ages,
/// applies its script at its own age and integrates, and then — exactly
/// when the player is vulnerable and the moved shot is live and
/// overlapping — the shot is consumed and the player is replaced by the
/// invulnerable respawn with one life less.
pub open spec fn enshot_hit_step(a0: Actor, a1: Actor, pm: Actor, p1: Actor, bomb: bool) -> bool {
    if bomb {
        &&& a1 == (Actor { count: crate::num::inc_sat_spec(a0.count), life: 0, ..a0 })
        &&& p1 == pm
    } else {
        let moved = enshot_tick_spec(a0);
        if pm.state != SubState::Trans && moved.life > 0 && crate::collide::collide_spec(
            pm,
            moved,
        ) {
            &&& a1 == (Actor { life: 0, ..moved })
            &&& is_trans_player(p1, crate::num::cadd(pm.life as int, -LIFE_ONE) as i64)
        } else {
            &&& a1 == moved
            &&& p1 == pm
        }
    }
}

/// The shot pool and the player after the first `n` enemy shots have
/// been resolved, in order: a chain of [`enshot_hit_step`]s through the
/// existentially bound intermediate player.
pub open spec fn enshots_resolved(s0: Seq<Actor>, s1: Seq<Actor>, n: int, p0: Actor, p1: Actor,
    bomb: bool) -> bool
    decreases n,
{
    if n <= 0 {
        p1 == p0
    } else {
        exists|pm: Actor|
            enshots_resolved(s0, s1, n - 1, p0, pm, bomb) && #[trigger] enshot_hit_step(
                s0[n - 1],
                s1[n - 1],
                pm,
                p1,
                bomb,
            )
    }
}

/// The resolution chain reads only the first `n` entries of the
/// resolved pool.
pub proof fn lemma_enshots_resolved_stable(s0: Seq<Actor>, s1a: Seq<Actor>, s1b: Seq<Actor>,
    n: int, p0: Actor, p1: Actor, bomb: bool)
    requires
        enshots_resolved(s0, s1a, n, p0, p1, bomb),
        forall|k: int| 0 <= k < n ==> s1a[k] == s1b[k],
    ensures
        enshots_resolved(s0, s1b, n, p0, p1, bomb),
    decreases n,
{
    if n > 0 {
        let pm = choose|pm: Actor|
            enshots_resolved(s0, s1a, n - 1, p0, pm, bomb) && #[trigger] enshot_hit_step(
                s0[n - 1],
                s1a[n - 1],
                pm,
                p1,
                bomb,
            );
        lemma_enshots_resolved_stable(s0, s1a, s1b, n - 1, p0, pm, bomb);
        assert(enshot_hit_step(s0[n - 1], s1b[n - 1], pm, p1, bomb));
    }
}

/// Extending a resolution chain by one more shot.
pub proof fn lemma_enshots_resolved_snoc(s0: Seq<Actor>, s1: Seq<Actor>, n: int, p0: Actor,
    pm: Actor, p1: Actor, bomb: bool)
    requires
        n >= 1,
        enshots_resolved(s0, s1, n - 1, p0, pm, bomb),
        enshot_hit_step(s0[n - 1], s1[n - 1], pm, p1, bomb),
    ensures
        enshots_resolved(s0, s1, n, p0, p1, bomb),
{
}

/// What resolving one enemy does: the player shots are folded over it
/// per [`hit_life`]/[`hit_score`] with each consumed shot zeroed, and
/// then body contact with the resolved enemy — exactly when the player
/// is vulnerable and overlapping — replaces the player with the
/// invulnerable respawn at one life less.
pub open spec fn enemy_hit_step(e0: Actor, e1: Actor, sm: Seq<Actor>, s1: Seq<Actor>, pm: Actor,
    p1: Actor, scm: u32, sc1: u32) -> bool {
    &&& e1 == (Actor { life: hit_life(e0, sm, sm.len() as int) as i64, ..e0 })
    &&& s1.len() == sm.len()
    &&& forall|k: int| 0 <= k < sm.len() ==> s1[k] == zero_consumed(e0, #[trigger] sm[k])
    &&& sc1 == hit_score(e0, sm, sm.len() as int, scm)
    &&& if pm.state != SubState::Trans && crate::collide::collide_spec(pm, e1) {
        is_trans_player(p1, crate::num::cadd(pm.life as int, -LIFE_ONE) as i64)
    } else {
        p1 == pm
    }
}

/// The enemies, shot pool, player and score after the first `n` enemies
/// have been resolved, in order: a chain of [`enemy_hit_step`]s through
/// existentially bound intermediate pools, players and scores.
pub open spec fn enemies_resolved(en0: Seq<Actor>, en1: Seq<Actor>, n: int, s0: Seq<Actor>,
    s1: Seq<Actor>, p0: Actor, p1: Actor, sc0: u32, sc1: u32) -> bool
    decreases n,
{
    if n <= 0 {
        s1 == s0 && p1 == p0 && sc1 == sc0
    } else {
        exists|sm: Seq<Actor>, pm: Actor, scm: u32|
            enemies_resolved(en0, en1, n - 1, s0, sm, p0, pm, sc0, scm)
                && #[trigger] enemy_hit_step(en0[n - 1], en1[n - 1], sm, s1, pm, p1, scm, sc1)
    }
}

/// The resolution chain reads only the first `n` entries of the
/// resolved enemies.
pub proof fn lemma_enemies_resolved_stable(en0: Seq<Actor>, en1a: Seq<Actor>, en1b: Seq<Actor>,
    n: int, s0: Seq<Actor>, s1: Seq<Actor>, p0: Actor, p1: Actor, sc0: u32, sc1: u32)
    requires
        enemies_resolved(en0, en1a, n, s0, s1, p0, p1, sc0, sc1),
        forall|k: int| 0 <= k < n ==> en1a[k] == en1b[k],
    ensures
        enemies_resolved(en0, en1b, n, s0, s1, p0, p1, sc0, sc1),
    decreases n,
{
    if n > 0 {
        let (sm, pm, scm) = choose|sm: Seq<Actor>, pm: Actor, scm: u32|
            enemies_resolved(en0, en1a, n - 1, s0, sm, p0, pm, sc0, scm)
                && #[trigger] enemy_hit_step(en0[n - 1], en1a[n - 1], sm, s1, pm, p1, scm, sc1);
        lemma_enemies_resolved_stable(en0, en1a, en1b, n - 1, s0, sm, p0, pm, sc0, scm);
        assert(enemy_hit_step(en0[n - 1], en1b[n - 1], sm, s1, pm, p1, scm, sc1));
    }
}

/// Extending a resolution chain by one more enemy.
pub proof fn lemma_enemies_resolved_snoc(en0: Seq<Actor>, en1: Seq<Actor>, n: int, s0: Seq<
    Actor,
>, sm: Seq<Actor>, s1: Seq<Actor>, p0: Actor, pm: Actor, p1: Actor, sc0: u32, scm: u32,
    sc1: u32)
    requires
        n >= 1,
        enemies_resolved(en0, en1, n - 1, s0, sm, p0, pm, sc0, scm),
        enemy_hit_step(en0[n - 1], en1[n - 1], sm, s1, pm, p1, scm, sc1),
    ensures
        enemies_resolved(en0, en1, n, s0, s1, p0, p1, sc0, sc1),
{
}

/// The relation [`MainState::move_player`] establishes between its
/// pre- and post-states.
pub open spec fn move_player_rel(pre: MainState, post: MainState, input: InputState) -> bool {
    &&& (post.player == crate::motion::update_point_spec(
                Actor { velocity: commanded_velocity(input), ..pre.player },
            ))
    &&& (post.player.life <= 0 ==> post.window_state == WindowState::GameOver
                && post.game_count == 0)
    &&& (post.player.life > 0 ==> post.window_state == pre.window_state
                && post.game_count == pre.game_count)
    &&& (post.plshots == pre.plshots)
    &&& (post.enemys == pre.enemys)
    &&& (post.boss == pre.boss)
    &&& (post.enshots == pre.enshots)
    &&& (post.effects == pre.effects)
    &&& (post.stage == pre.stage)
    &&& (post.boss_count == pre.boss_count)
    &&& (post.boss_phases == pre.boss_phases)
    &&& (post.boss_phase_idx == pre.boss_phase_idx)
    &&& (post.input_break == pre.input_break)
    &&& (post.bomb == pre.bomb)
    &&& (post.score == pre.score)
}

/// The relation [`MainState::spawn_player_shots`] establishes between its
/// pre- and post-states.
pub open spec fn spawn_player_shots_rel(pre: MainState, post: MainState, input: InputState, gc: u32) -> bool {
    &&& (post == (MainState { plshots: post.plshots, ..pre }))
    &&& (({
                let fire = input.shot && gc % 3 == 0;
                let n = pre.plshots@.len() as int;
                &&& !fire ==> post.plshots == pre.plshots
                &&& fire ==> {
                    &&& post.plshots@.len() == n + 2
                    &&& forall|i: int|
                        0 <= i < n ==> post.plshots@[i] == pre.plshots@[i]
                    &&& is_player_shot(
                        post.plshots@[n],
                        Vec2 {
                            x: crate::num::cadd(pre.player.point.x as int, 72000) as i64,
                            y: pre.player.point.y,
                        },
                    )
                    &&& is_player_shot(
                        post.plshots@[n + 1],
                        Vec2 {
                            x: crate::num::cadd(pre.player.point.x as int, -72000) as i64,
                            y: pre.player.point.y,
                        },
                    )
                }
            }))
}

/// The relation [`MainState::move_player_shots`] establishes between its
/// pre- and post-states.
pub open spec fn move_player_shots_rel(pre: MainState, post: MainState) -> bool {
    &&& (post == (MainState { plshots: post.plshots, ..pre }))
    &&& (post.plshots@.len() == pre.plshots@.len())
    &&& (forall|i: int|
                0 <= i < pre.plshots@.len() ==> post.plshots@[i]
                    == crate::motion::update_point_shot_spec(#[trigger] pre.plshots@[i]))
}

/// The relation [`MainState::apply_bomb`] establishes between its
/// pre- and post-states.
pub open spec fn apply_bomb_rel(pre: MainState, post: MainState, input: InputState) -> bool {
    &&& (({
                let fire = input.bomb && !pre.input_break.bomb && pre.bomb > 0;
                &&& !fire ==> post == pre
                &&& fire ==> {
                    &&& post.player == (Actor { state: SubState::Trans, ..pre.player })
                    &&& post.input_break == (InputState {
                        bomb: true,
                        ..pre.input_break
                    })
                    &&& post.bomb == pre.bomb - 1
                    &&& post.effects@.len() == pre.effects@.len() + 1
                    &&& forall|i: int|
                        0 <= i < pre.effects@.len() ==> post.effects@[i] == pre.effects@[i]
                    &&& {
                        let e = post.effects@[pre.effects@.len() as int];
                        e.kind == ActorKind::Effect && e.point == pre.player.point && e.state
                            == SubState::BombWave && e.life == LIFE_ONE && e.count == 0
                    }
                    &&& post == (MainState {
                        player: post.player,
                        input_break: post.input_break,
                        bomb: post.bomb,
                        effects: post.effects,
                        ..pre
                    })
                }
            }))
}

/// The relation [`MainState::player_trans_countdown`] establishes between its
/// pre- and post-states.
pub open spec fn trans_countdown_rel(pre: MainState, post: MainState) -> bool {
    &&& (pre.player.state != SubState::Trans ==> post == pre)
    &&& (pre.player.state == SubState::Trans ==> {
                let c = crate::num::inc_sat_spec(pre.player.count);
                &&& (c <= 180) ==> post == (MainState {
                    player: (Actor { count: c, ..pre.player }),
                    ..pre
                })
                &&& (c > 180) ==> post == (MainState {
                    player: (Actor { count: 0, state: SubState::Plain, ..pre.player }),
                    input_break: (InputState { bomb: false, ..pre.input_break }),
                    ..pre
                })
            })
}

/// The relation [`MainState::update_effects`] establishes between its
/// pre- and post-states.
pub open spec fn update_effects_rel(pre: MainState, post: MainState) -> bool {
    &&& (post == (MainState { effects: post.effects, ..pre }))
    &&& (post.effects@.len() == pre.effects@.len())
    &&& (forall|i: int|
                0 <= i < pre.effects@.len() ==> post.effects@[i] == effect_step(
                    #[trigger] pre.effects@[i],
                ))
}

/// The relation [`MainState::hit_boss`] establishes between its
/// pre- and post-states.
pub open spec fn hit_boss_rel(pre: MainState, post: MainState) -> bool {
    &&& (post == (MainState {
                boss: post.boss,
                plshots: post.plshots,
                score: post.score,
                ..pre
            }))
    &&& (pre.boss is None ==> post == pre)
    &&& (pre.boss is Some ==> {
                let b = pre.boss->Some_0;
                let n = pre.plshots@.len() as int;
                &&& post.boss == Option::Some(
                    Actor { life: hit_life(b, pre.plshots@, n) as i64, ..b },
                )
                &&& post.plshots@.len() == n
                &&& forall|k: int|
                    0 <= k < n ==> post.plshots@[k] == zero_consumed(
                        b,
                        #[trigger] pre.plshots@[k],
                    )
                &&& post.score == hit_score(b, pre.plshots@, n, pre.score)
            })
}

/// The relation [`MainState::update_enemies`] establishes between its
/// pre- and post-states.
pub open spec fn update_enemies_rel(pre: MainState, post: MainState, gc: u32) -> bool {
    &&& (post.player == pre.player)
    &&& (post.plshots == pre.plshots)
    &&& (post.boss == pre.boss)
    &&& (post.effects == pre.effects)
    &&& (post.stage == pre.stage)
    &&& (post.window_state == pre.window_state)
    &&& (post.game_count == pre.game_count)
    &&& (post.boss_count == pre.boss_count)
    &&& (post.boss_phases == pre.boss_phases)
    &&& (post.boss_phase_idx == pre.boss_phase_idx)
    &&& (post.input_break == pre.input_break)
    &&& (post.bomb == pre.bomb)
    &&& (post.enemys@.len() == pre.enemys@.len())
    &&& (pre.score <= post.score)
    &&& (pre.input_break.bomb ==> {
                &&& forall|i: int|
                    0 <= i < pre.enemys@.len() ==> post.enemys@[i] == (Actor {
                        life: 0,
                        ..#[trigger] pre.enemys@[i]
                    })
                &&& post.score == bomb_score(pre.score, pre.enemys@.len() as int)
                &&& post.enshots == pre.enshots
            })
    &&& (!pre.input_break.bomb ==> {
                &&& forall|i: int|
                    0 <= i < pre.enemys@.len() ==> post.enemys@[i] == enemy_tick_spec(
                        #[trigger] pre.enemys@[i],
                        pre.game_count,
                    )
                &&& post.score == pre.score
                &&& volleys_ok(
                    pre.enemys@,
                    pre.enemys@.len() as int,
                    pre.player.point,
                    pre.game_count,
                    gc,
                    pre.enshots@,
                    post.enshots@,
                )
            })
}

/// The relation [`MainState::update_enemy_shots`] establishes between its
/// pre- and post-states.
pub open spec fn update_enemy_shots_rel(pre: MainState, post: MainState) -> bool {
    &&& (post.plshots == pre.plshots)
    &&& (post.enemys == pre.enemys)
    &&& (post.boss == pre.boss)
    &&& (post.effects == pre.effects)
    &&& (post.stage == pre.stage)
    &&& (post.window_state == pre.window_state)
    &&& (post.game_count == pre.game_count)
    &&& (post.boss_count == pre.boss_count)
    &&& (post.boss_phases == pre.boss_phases)
    &&& (post.boss_phase_idx == pre.boss_phase_idx)
    &&& (post.input_break == pre.input_break)
    &&& (post.bomb == pre.bomb)
    &&& (post.score == pre.score)
    &&& (post.enshots@.len() == pre.enshots@.len())
    &&& (pre.player.state == SubState::Trans ==> post.player == pre.player)
    &&& (post.player == pre.player || (pre.player.state != SubState::Trans
                && is_trans_player(
                post.player,
                crate::num::cadd(pre.player.life as int, -LIFE_ONE) as i64,
            )))
    &&& (enshots_resolved(
                pre.enshots@,
                post.enshots@,
                pre.enshots@.len() as int,
                pre.player,
                post.player,
                pre.input_break.bomb,
            ))
}

/// The relation [`MainState::hit_enemies`] establishes between its
/// pre- and post-states.
pub open spec fn hit_enemies_rel(pre: MainState, post: MainState) -> bool {
    &&& (post == (MainState {
                enemys: post.enemys,
                plshots: post.plshots,
                player: post.player,
                score: post.score,
                ..pre
            }))
    &&& (post.enemys@.len() == pre.enemys@.len())
    &&& (post.plshots@.len() == pre.plshots@.len())
    &&& (pre.score <= post.score)
    &&& (pre.player.state == SubState::Trans ==> post.player == pre.player)
    &&& (post.player == pre.player || (pre.player.state != SubState::Trans
                && is_trans_player(
                post.player,
                crate::num::cadd(pre.player.life as int, -LIFE_ONE) as i64,
            )))
    &&& (enemies_resolved(
                pre.enemys@,
                post.enemys@,
                pre.enemys@.len() as int,
                pre.plshots@,
                post.plshots@,
                pre.player,
                post.player,
                pre.score,
                post.score,
            ))
}

/// The relation [`MainState::director_step`] establishes between its
/// pre- and post-states.
pub open spec fn director_rel(pre: MainState, post: MainState) -> bool {
    &&& (post.player == pre.player)
    &&& (post.plshots == pre.plshots)
    &&& (post.effects == pre.effects)
    &&& (post.input_break == pre.input_break)
    &&& (post.bomb == pre.bomb)
    &&& (post.score == pre.score)
    &&& (({
                let s = stage_models(pre.stage@);
                let t = pre.game_count;
                let fm = first_marker_from(s, t, 0);
                let spawned = fired_normals(s, fm, t);
                &&& 0 <= fm <= s.len()
                &&& fm < s.len() ==> s[fm].count == t && is_marker(s[fm].char_type)
                &&& stage_models(post.stage@) == director_processed(s, fm, t).filter(
                    |m: StageModel| m.repeat >= 0,
                )
                &&& (fm == s.len()) ==> {
                    &&& post.window_state == WindowState::Gaming
                    &&& post.game_count == t
                    &&& post.boss == pre.boss
                    &&& post.boss_count == pre.boss_count
                    &&& post.enshots == pre.enshots
                    &&& post.enemys@.len() == pre.enemys@.len() + spawned.len()
                    &&& forall|i: int|
                        0 <= i < pre.enemys@.len() ==> post.enemys@[i] == pre.enemys@[i]
                    &&& forall|j: int|
                        0 <= j < spawned.len() ==> is_spawned_enemy(
                            #[trigger] post.enemys@[pre.enemys@.len() + j],
                            spawned[j],
                        )
                }
                &&& (fm < s.len() && s[fm].char_type == crate::stage::CharType::Clear) ==> {
                    &&& post.window_state == WindowState::GameClear
                    &&& post.game_count == 0
                    &&& post.enemys@.len() == 0
                    &&& post.enshots == pre.enshots
                    &&& post.boss == pre.boss
                }
                &&& (fm < s.len() && (s[fm].char_type == crate::stage::CharType::Boss
                    || s[fm].char_type == crate::stage::CharType::MidBoss)) ==> {
                    &&& post.window_state == WindowState::GamingBoss
                    &&& post.game_count == crate::num::inc_sat_spec(t)
                    &&& post.boss_count == 0
                    &&& post.enemys@.len() == 0
                    &&& post.enshots@.len() == 0
                    &&& post.boss_phase_idx == 0
                    &&& post.boss_phases@ == if s[fm].char_type
                        == crate::stage::CharType::MidBoss {
                        mid_boss_phase_table()
                    } else {
                        boss_phase_table()
                    }
                    &&& post.boss is Some
                    &&& is_boss_enter(post.boss->Some_0)
                }
            }))
}

/// The relation [`MainState::boss_phase_step`] establishes between its
/// pre- and post-states.
pub open spec fn boss_phase_rel(pre: MainState, post: MainState, gc: u32) -> bool {
    &&& (post.player == pre.player)
    &&& (post.plshots == pre.plshots)
    &&& (post.enemys == pre.enemys)
    &&& (post.effects == pre.effects)
    &&& (post.stage == pre.stage)
    &&& (post.game_count == pre.game_count)
    &&& (post.input_break == pre.input_break)
    &&& (post.bomb == pre.bomb)
    &&& (post.score == pre.score)
    &&& (post.boss_phases == pre.boss_phases)
    &&& (({
                let b = pre.boss->Some_0;
                let idx = pre.boss_phase_idx as int;
                let fire = b.life < 0 || gc == pre.boss_phases@[idx].until;
                &&& !fire ==> post == pre
                &&& (fire && idx + 1 < pre.boss_phases@.len()) ==> {
                    &&& post.window_state == WindowState::GamingBoss
                    &&& post.boss_count == 1
                    &&& post.enshots@.len() == 0
                    &&& post.boss_phase_idx == idx + 1
                    &&& post.boss is Some
                    &&& post.boss->Some_0 == (Actor {
                        life: pre.boss_phases@[idx + 1].life,
                        pattern: pre.boss_phases@[idx + 1].pattern,
                        ..b
                    })
                }
                &&& (fire && idx + 1 == pre.boss_phases@.len()) ==> {
                    &&& post.window_state == WindowState::Gaming
                    &&& post.boss is None
                    &&& post.enshots@.len() == 0
                    &&& post.boss_count == pre.boss_count
                }
            }))
}

/// The relation [`MainState::reap_all`] establishes between its
/// pre- and post-states.
pub open spec fn reap_rel(pre: MainState, post: MainState) -> bool {
    &&& (post.plshots@ == live(pre.plshots@))
    &&& (post.enemys@ == live(pre.enemys@))
    &&& (post.enshots@ == live(pre.enshots@))
    &&& (post.effects@ == live(pre.effects@))
    &&& (post == (MainState {
                plshots: post.plshots,
                enemys: post.enemys,
                enshots: post.enshots,
                effects: post.effects,
                ..pre
            }))
}

impl MainState {
    /// One tick of every enemy: while the bomb latch is held every enemy
    /// dies and scores; otherwise each enemy applies its script at the
    /// stage tick, fires its pattern into the enemy-shot pool, and
    /// integrates its motion.
    pub fn update_enemies(&mut self, gc: u32)
        requires
            old(self).wf(),
        ensures
            final(self).wf(),
            update_enemies_rel(*old(self), *final(self), gc),
    {
        let pp = self.player.point;
        let t = self.game_count;
        let n = self.enemys.len();
        let mut i: usize = 0;
        while i < n
            invariant
                i <= n,
                n == self.enemys@.len(),
                self.enemys@.len() == old(self).enemys@.len(),
                *self == (MainState {
                    enemys: self.enemys,
                    enshots: self.enshots,
                    score: self.score,
                    ..*old(self)
                }),
                pp == old(self).player.point,
                old(self).wf(),
                self.player.wf(),
                enemies_ok(self.enemys@),
                en_shots_ok(self.enshots@),
                t == old(self).game_count,
                old(self).score <= self.score,
                forall|k: int| i <= k < n ==> self.enemys@[k] == old(self).enemys@[k],
                old(self).input_break.bomb ==> {
                    &&& forall|k: int|
                        0 <= k < i ==> self.enemys@[k] == (Actor {
                            life: 0,
                            ..#[trigger] old(self).enemys@[k]
                        })
                    &&& self.score == bomb_score(old(self).score, i as int)
                    &&& self.enshots == old(self).enshots
                },
                !old(self).input_break.bomb ==> {
                    &&& forall|k: int|
                        0 <= k < i ==> self.enemys@[k] == enemy_tick_spec(
                            #[trigger] old(self).enemys@[k],
                            t,
                        )
                    &&& self.score == old(self).score
                    &&& volleys_ok(
                        old(self).enemys@,
                        i as int,
                        old(self).player.point,
                        t,
                        gc,
                        old(self).enshots@,
                        self.enshots@,
                    )
                },
            decreases n - i,
        {
            if self.input_break.bomb {
                let e = &mut self.enemys[i];
                e.life = 0;
                self.score = crate::num::add_sat(self.score, 30);
            } else {
                let ghost pool_mid = self.enshots@;
                let ghost e0 = old(self).enemys@[i as int];
                apply_script(&mut self.enemys[i], t);
                proof {
                    assert(self.enemys@[i as int] == script_applied(e0, t));
                }
                let ghost e1 = self.enemys@[i as int];
                let pat = self.enemys[i].pattern;
                if pat == PatternKind::Six {
                    crate::shot_type::n_six(&mut self.enemys[i], pp, &mut self.enshots, gc);
                    proof {
                        assert(volley_step(e1, pp, gc, pool_mid, self.enshots@));
                    }
                } else if pat == PatternKind::FourTwoDisp {
                    let rnd = random_u32();
                    crate::shot_type::n_four_two_disp(
                        &mut self.enemys[i],
                        pp,
                        &mut self.enshots,
                        rnd,
                    );
                    proof {
                        let jit = (rnd % 30001) - 15000;
                        assert(-15000 <= jit <= 15000 && crate::shot_type::disp_effect(
                            pool_mid,
                            self.enshots@,
                            e1.point,
                            pp,
                            jit,
                        ));
                        assert(volley_step(e1, pp, gc, pool_mid, self.enshots@));
                    }
                } else {
                    proof {
                        assert(volley_step(e1, pp, gc, pool_mid, self.enshots@));
                    }
                }
                Actor::update_point(&mut self.enemys[i]);
                proof {
                    assert(volleys_ok(
                        old(self).enemys@,
                        i as int,
                        old(self).player.point,
                        t,
                        gc,
                        old(self).enshots@,
                        pool_mid,
                    ));
                    assert(script_applied(old(self).enemys@[i as int], t) == e1);
                    assert(volley_step(e1, old(self).player.point, gc, pool_mid, self.enshots@));
                    lemma_volleys_snoc(
                        old(self).enemys@,
                        i as int + 1,
                        old(self).player.point,
                        t,
                        gc,
                        old(self).enshots@,
                        pool_mid,
                        self.enshots@,
                    );
                }
            }
            i = i + 1;
        }
    }

    /// One tick of every enemy shot: its private counter advances, the
    /// bomb latch kills it outright, otherwise it applies its script at
    /// its own age, integrates its polar motion, and — unless the player
    /// is invulnerable — a live overlapping shot is consumed, costs the
    /// player one life, and replaces the player with the invulnerable
    /// respawn.
    pub fn update_enemy_shots(&mut self)
        requires
            old(self).wf(),
        ensures
            final(self).wf(),
            update_enemy_shots_rel(*old(self), *final(self)),
    {
        let n = self.enshots.len();
        let mut i: usize = 0;
        while i < n
            invariant
                i <= n,
                n == self.enshots@.len(),
                self.enshots@.len() == old(self).enshots@.len(),
                *self == (MainState {
                    enshots: self.enshots,
                    player: self.player,
                    ..*old(self)
                }),
                old(self).wf(),
                self.player.wf(),
                self.player.kind == ActorKind::Player,
                en_shots_ok(self.enshots@),
                old(self).player.state == SubState::Trans ==> self.player == old(self).player,
                self.player == old(self).player || (old(self).player.state != SubState::Trans
                    && is_trans_player(
                    self.player,
                    crate::num::cadd(old(self).player.life as int, -LIFE_ONE) as i64,
                )),
                forall|k: int| i <= k < n ==> self.enshots@[k] == old(self).enshots@[k],
                enshots_resolved(
                    old(self).enshots@,
                    self.enshots@,
                    i as int,
                    old(self).player,
                    self.player,
                    old(self).input_break.bomb,
                ),
            decreases n - i,
        {
            let ghost orig_i = old(self).enshots@[i as int];
            let ghost p_pre = self.player;
            let ghost pool_pre = self.enshots@;
            proof {
                assert(self.enshots@[i as int] == orig_i);
            }
            {
                let es = &mut self.enshots[i];
                es.count = crate::num::inc_sat(es.count);
            }
            proof {
                assert(self.enshots@[i as int] == (Actor {
                    count: crate::num::inc_sat_spec(orig_i.count),
                    ..orig_i
                }));
            }
            if self.input_break.bomb {
                let es = &mut self.enshots[i];
                es.life = 0;
                proof {
                    assert(self.enshots@[i as int] == (Actor {
                        count: crate::num::inc_sat_spec(orig_i.count),
                        life: 0,
                        ..orig_i
                    }));
                    assert(enshot_hit_step(
                        orig_i,
                        self.enshots@[i as int],
                        p_pre,
                        self.player,
                        old(self).input_break.bomb,
                    ));
                }
            } else {
                let c = self.enshots[i].count;
                apply_script(&mut self.enshots[i], c);
                Actor::update_point_shot(&mut self.enshots[i]);
                proof {
                    assert(self.enshots@[i as int] == enshot_tick_spec(orig_i));
                }
                if self.player.state != SubState::Trans {
                    let hit = {
                        let es = &self.enshots[i];
                        es.life > 0 && crate::collide::in_bbox(&self.player, es)
                    };
                    if hit {
                        let es = &mut self.enshots[i];
                        es.life = 0;
                        let new_life = crate::num::clamp_add(self.player.life, -LIFE_ONE);
                        self.player = Actor::trans_player_new(new_life);
                    }
                }
                proof {
                    assert(enshot_hit_step(
                        orig_i,
                        self.enshots@[i as int],
                        p_pre,
                        self.player,
                        old(self).input_break.bomb,
                    ));
                }
            }
            proof {
                lemma_enshots_resolved_stable(
                    old(self).enshots@,
                    pool_pre,
                    self.enshots@,
                    i as int,
                    old(self).player,
                    p_pre,
                    old(self).input_break.bomb,
                );
                lemma_enshots_resolved_snoc(
                    old(self).enshots@,
                    self.enshots@,
                    i as int + 1,
                    old(self).player,
                    p_pre,
                    self.player,
                    old(self).input_break.bomb,
                );
            }
            i = i + 1;
        }
    }

    /// Resolve the player shots against the boss.
    pub fn hit_boss(&mut self)
        requires
            old(self).wf(),
        ensures
            final(self).wf(),
            hit_boss_rel(*old(self), *final(self)),
    {
        match &mut self.boss {
            Option::Some(b) => {
                hit_target(b, &mut self.plshots, &mut self.score);
            },
            Option::None => {},
        }
    }

    /// Resolve the player shots against every enemy in order, and the
    /// player's body against every enemy: body contact, while the player
    /// is not invulnerable, costs one life and triggers the invulnerable
    /// respawn exactly as an enemy-shot hit does.
    pub fn hit_enemies(&mut self)
        requires
            old(self).wf(),
        ensures
            final(self).wf(),
            hit_enemies_rel(*old(self), *final(self)),
    {
        let n = self.enemys.len();
        let mut i: usize = 0;
        while i < n
            invariant
                i <= n,
                n == self.enemys@.len(),
                self.enemys@.len() == old(self).enemys@.len(),
                self.plshots@.len() == old(self).plshots@.len(),
                *self == (MainState {
                    enemys: self.enemys,
                    plshots: self.plshots,
                    player: self.player,
                    score: self.score,
                    ..*old(self)
                }),
                old(self).wf(),
                self.player.wf(),
                self.player.kind == ActorKind::Player,
                enemies_ok(self.enemys@),
                pl_shots_ok(self.plshots@),
                old(self).score <= self.score,
                old(self).player.state == SubState::Trans ==> self.player == old(self).player,
                self.player == old(self).player || (old(self).player.state != SubState::Trans
                    && is_trans_player(
                    self.player,
                    crate::num::cadd(old(self).player.life as int, -LIFE_ONE) as i64,
                )),
                forall|k: int| i <= k < n ==> self.enemys@[k] == old(self).enemys@[k],
                enemies_resolved(
                    old(self).enemys@,
                    self.enemys@,
                    i as int,
                    old(self).plshots@,
                    self.plshots@,
                    old(self).player,
                    self.player,
                    old(self).score,
                    self.score,
                ),
            decreases n - i,
        {
            let ghost sc_before = self.score;
            let ghost t_pre = self.enemys@[i as int];
            let ghost shots_pre = self.plshots@;
            let ghost p_pre = self.player;
            let ghost en_pre = self.enemys@;
            hit_target(&mut self.enemys[i], &mut self.plshots, &mut self.score);
            proof {
                lemma_hit_score_grows(t_pre, shots_pre, shots_pre.len() as int, sc_before);
            }
            if self.player.state != SubState::Trans {
                let hit = {
                    let en = &self.enemys[i];
                    crate::collide::in_bbox(&self.player, en)
                };
                if hit {
                    let new_life = crate::num::clamp_add(self.player.life, -LIFE_ONE);
                    self.player = Actor::trans_player_new(new_life);
                }
            }
            proof {
                assert(enemy_hit_step(
                    old(self).enemys@[i as int],
                    self.enemys@[i as int],
                    shots_pre,
                    self.plshots@,
                    p_pre,
                    self.player,
                    sc_before,
                    self.score,
                ));
                lemma_enemies_resolved_stable(
                    old(self).enemys@,
                    en_pre,
                    self.enemys@,
                    i as int,
                    old(self).plshots@,
                    shots_pre,
                    old(self).player,
                    p_pre,
                    old(self).score,
                    sc_before,
                );
                lemma_enemies_resolved_snoc(
                    old(self).enemys@,
                    self.enemys@,
                    i as int + 1,
                    old(self).plshots@,
                    shots_pre,
                    self.plshots@,
                    old(self).player,
                    p_pre,
                    self.player,
                    old(self).score,
                    sc_before,
                    self.score,
                );
            }
            i = i + 1;
        }
    }
}

/// Resolving hits never lowers the score.
pub proof fn lemma_hit_score_grows(t: Actor, s: Seq<Actor>, n: int, sc: u32)
    ensures
        sc <= hit_score(t, s, n, sc),
    decreases n,
{
    if n > 0 {
        lemma_hit_score_grows(t, s, n - 1, sc);
    }
}

/// The whole between-director-and-reaper update pass as one relation:
/// the ten per-step relations chained, in the fixed order, through
/// existentially bound intermediate states.
pub open spec fn updates_rel(pre: MainState, post: MainState, input: InputState,
    gc: u32) -> bool {
    exists|
        m1: MainState,
        m2: MainState,
        m3: MainState,
        m4: MainState,
        m5: MainState,
        m6: MainState,
        m7: MainState,
        m8: MainState,
        m9: MainState,
    |
        #![trigger move_player_rel(pre, m1, input), spawn_player_shots_rel(m1, m2, input, gc),
            move_player_shots_rel(m2, m3), apply_bomb_rel(m3, m4, input), update_enemies_rel(m4,
            m5, gc), update_enemy_shots_rel(m5, m6), trans_countdown_rel(m6, m7), hit_boss_rel(m7,
            m8), hit_enemies_rel(m8, m9), update_effects_rel(m9, post)]
        {
            &&& move_player_rel(pre, m1, input)
            &&& spawn_player_shots_rel(m1, m2, input, gc)
            &&& move_player_shots_rel(m2, m3)
            &&& apply_bomb_rel(m3, m4, input)
            &&& update_enemies_rel(m4, m5, gc)
            &&& update_enemy_shots_rel(m5, m6)
            &&& trans_countdown_rel(m6, m7)
            &&& hit_boss_rel(m7, m8)
            &&& hit_enemies_rel(m8, m9)
            &&& update_effects_rel(m9, post)
        }
}

impl MainState {
    /// End-of-tick pruning: every actor collection except the singleton
    /// player and boss keeps exactly its live entries.  This is the sole
    /// removal path; no component removes entities mid-tick.
    pub fn reap_all(&mut self)
        requires
            old(self).wf(),
        ensures
            final(self).wf(),
            reap_rel(*old(self), *final(self)),
    {
        reap(&mut self.plshots);
        reap(&mut self.enemys);
        reap(&mut self.enshots);
        reap(&mut self.effects);
        proof {
            lemma_live_members(old(self).plshots@);
            lemma_live_members(old(self).enemys@);
            lemma_live_members(old(self).enshots@);
            lemma_live_members(old(self).effects@);
            assert forall|i: int| 0 <= i < self.plshots@.len() implies (
            #[trigger] self.plshots@[i]).wf() && self.plshots@[i].shot_flag()
                && self.plshots@[i].kind == ActorKind::PlShot by {
                let k = choose|k: int|
                    0 <= k < old(self).plshots@.len() && live(old(self).plshots@)[i] == old(
                        self,
                    ).plshots@[k];
                assert(old(self).plshots@[k].wf());
            }
            assert forall|i: int| 0 <= i < self.enemys@.len() implies (
            #[trigger] self.enemys@[i]).wf() && self.enemys@[i].kind == ActorKind::Enemy by {
                let k = choose|k: int|
                    0 <= k < old(self).enemys@.len() && live(old(self).enemys@)[i] == old(
                        self,
                    ).enemys@[k];
                assert(old(self).enemys@[k].wf());
            }
            assert forall|i: int| 0 <= i < self.enshots@.len() implies (
            #[trigger] self.enshots@[i]).wf() && self.enshots@[i].shot_flag()
                && self.enshots@[i].kind == ActorKind::EnShot by {
                let k = choose|k: int|
                    0 <= k < old(self).enshots@.len() && live(old(self).enshots@)[i] == old(
                        self,
                    ).enshots@[k];
                assert(old(self).enshots@[k].wf());
            }
            assert forall|i: int| 0 <= i < self.effects@.len() implies (
            #[trigger] self.effects@[i]).wf() && self.effects@[i].shot_flag()
                && self.effects@[i].kind == ActorKind::Effect by {
                let k = choose|k: int|
                    0 <= k < old(self).effects@.len() && live(old(self).effects@)[i] == old(
                        self,
                    ).effects@[k];
                assert(old(self).effects@[k].wf());
            }
        }
    }

    /// Every per-tick update between the state-machine branch and the
    /// reaper, in the fixed order: player motion, player shots, the
    /// bomb, enemies with their patterns, enemy shots with the player
    /// hit test, the invulnerability countdown, player shots against
    /// boss and enemies, and effect aging.  The whole pass is pinned by
    /// [`updates_rel`], the chain of the ten steps' own relations.
    ///
    /// For all ticks and all shots, life is exactly 0 or `LIFE_ONE`
    /// strictly before the reaper runs: the two shot-flag clauses below
    /// state it at precisely that point.
    pub fn run_updates(&mut self, input: InputState, gc: u32)
        requires
            old(self).wf(),
        ensures
            final(self).wf(),
            updates_rel(*old(self), *final(self), input, gc),
            forall|i: int|
                0 <= i < final(self).plshots@.len() ==> (
                #[trigger] final(self).plshots@[i]).shot_flag(),
            forall|i: int|
                0 <= i < final(self).enshots@.len() ==> (
                #[trigger] final(self).enshots@[i]).shot_flag(),
            final(self).stage == old(self).stage,
            final(self).boss_phases == old(self).boss_phases,
            final(self).boss_count == old(self).boss_count,
            final(self).window_state == old(self).window_state || final(self).window_state
                == WindowState::GameOver,
    {
        self.move_player(input);
        let ghost g1 = *self;
        self.spawn_player_shots(input, gc);
        let ghost g2 = *self;
        self.move_player_shots();
        let ghost g3 = *self;
        self.apply_bomb(input);
        let ghost g4 = *self;
        self.update_enemies(gc);
        let ghost g5 = *self;
        self.update_enemy_shots();
        let ghost g6 = *self;
        self.player_trans_countdown();
        let ghost g7 = *self;
        self.hit_boss();
        let ghost g8 = *self;
        self.hit_enemies();
        let ghost g9 = *self;
        self.update_effects();
        proof {
            assert(move_player_rel(*old(self), g1, input) && spawn_player_shots_rel(
                g1,
                g2,
                input,
                gc,
            ) && move_player_shots_rel(g2, g3) && apply_bomb_rel(g3, g4, input)
                && update_enemies_rel(g4, g5, gc) && update_enemy_shots_rel(g5, g6)
                && trans_countdown_rel(g6, g7) && hit_boss_rel(g7, g8) && hit_enemies_rel(g8, g9)
                && update_effects_rel(g9, *self));
        }
    }

    /// One fixed 1/60-second simulation tick.
    ///
    /// On the title screen a rising shot intent starts the game; on the
    /// game-over and ending screens a rising shot intent after the
    /// confirmation delay ends the session with the matching outcome;
    /// the clear screen pauses, then rolls to the ending.  In play, the
    /// stage director (or the boss controller) runs first, then every
    /// actor updates, collisions resolve, and the reaper prunes the dead.
    #[verifier::rlimit(60)]
    pub fn tick(&mut self, input: InputState) -> (o: Outcome)
        requires
            old(self).wf(),
        ensures
            final(self).wf(),
            old(self).window_state == WindowState::Title ==> {
                &&& o == Outcome::Playing
                &&& *final(self) == (MainState {
                    window_state: if input.shot && !old(self).input_break.shot {
                        WindowState::Gaming
                    } else {
                        WindowState::Title
                    },
                    input_break: (InputState { shot: input.shot, ..old(self).input_break }),
                    ..*old(self)
                })
            },
            old(self).window_state == WindowState::GameOver ==> {
                &&& o == (if crate::num::inc_sat_spec(old(self).game_count) >= 180 && input.shot
                    && !old(self).input_break.shot {
                    Outcome::Lose
                } else {
                    Outcome::Playing
                })
                &&& *final(self) == (MainState {
                    game_count: crate::num::inc_sat_spec(old(self).game_count),
                    input_break: (InputState { shot: input.shot, ..old(self).input_break }),
                    ..*old(self)
                })
            },
            old(self).window_state == WindowState::ThankYouForPlaying ==> {
                &&& o == (if crate::num::inc_sat_spec(old(self).game_count) >= 240 && input.shot
                    && !old(self).input_break.shot {
                    Outcome::Win
                } else {
                    Outcome::Playing
                })
                &&& *final(self) == (MainState {
                    game_count: crate::num::inc_sat_spec(old(self).game_count),
                    input_break: (InputState { shot: input.shot, ..old(self).input_break }),
                    ..*old(self)
                })
            },
            (old(self).window_state == WindowState::Gaming || old(self).window_state
                == WindowState::GamingBoss || old(self).window_state == WindowState::GameClear)
                ==> o == Outcome::Playing,
            old(self).window_state == WindowState::Gaming ==> (final(self).window_state
                == WindowState::Gaming || final(self).window_state == WindowState::GamingBoss
                || final(self).window_state == WindowState::GameClear || final(self).window_state
                == WindowState::GameOver),
            old(self).window_state == WindowState::GamingBoss ==> (final(self).window_state
                == WindowState::GamingBoss || final(self).window_state == WindowState::Gaming
                || final(self).window_state == WindowState::GameOver),
            old(self).window_state == WindowState::GameClear ==> (final(self).window_state
                == WindowState::GameClear || final(self).window_state
                == WindowState::ThankYouForPlaying || final(self).window_state
                == WindowState::GameOver),
            old(self).window_state == WindowState::Gaming ==> ({
                let t = crate::num::inc_sat_spec(old(self).game_count);
                let m0 = MainState { game_count: t, ..*old(self) };
                exists|m1: MainState, m2: MainState|
                    #![trigger director_rel(m0, m1), updates_rel(m1, m2, input, t)]
                    {
                        &&& director_rel(m0, m1)
                        &&& updates_rel(m1, m2, input, t)
                        &&& reap_rel(m2, *final(self))
                    }
            }),
            old(self).window_state == WindowState::GamingBoss ==> ({
                let gc = old(self).boss_count;
                let m0 = MainState {
                    boss_count: crate::num::inc_sat_spec(old(self).boss_count),
                    ..*old(self)
                };
                exists|m1: MainState, m2: MainState, m3: MainState|
                    #![trigger boss_pattern_rel(m0, m1, gc), boss_phase_rel(m1, m2, gc),
                        updates_rel(m2, m3, input, gc)]
                    {
                        &&& boss_pattern_rel(m0, m1, gc)
                        &&& boss_phase_rel(m1, m2, gc)
                        &&& updates_rel(m2, m3, input, gc)
                        &&& reap_rel(m3, *final(self))
                    }
            }),
            old(self).window_state == WindowState::GameClear ==> ({
                let c = crate::num::inc_sat_spec(old(self).game_count);
                exists|m0: MainState, m1: MainState|
                    #![trigger updates_rel(m0, m1, input, 0)]
                    {
                        &&& m0 == if c >= 180 {
                            MainState {
                                game_count: 0,
                                window_state: WindowState::ThankYouForPlaying,
                                ..*old(self)
                            }
                        } else {
                            MainState { game_count: c, ..*old(self) }
                        }
                        &&& updates_rel(m0, m1, input, 0)
                        &&& reap_rel(m1, *final(self))
                    }
            }),
    {
        let state0 = self.window_state;
        if state0 == WindowState::Title {
            let eff = input.shot && !self.input_break.shot;
            self.input_break.shot = input.shot;
            if eff {
                self.window_state = WindowState::Gaming;
            }
            return Outcome::Playing;
        }
        if state0 == WindowState::GameOver {
            let eff = input.shot && !self.input_break.shot;
            self.input_break.shot = input.shot;
            self.game_count = crate::num::inc_sat(self.game_count);
            if self.game_count >= 180 && eff {
                return Outcome::Lose;
            }
            return Outcome::Playing;
        }
        if state0 == WindowState::ThankYouForPlaying {
            let eff = input.shot && !self.input_break.shot;
            self.input_break.shot = input.shot;
            self.game_count = crate::num::inc_sat(self.game_count);
            if self.game_count >= 240 && eff {
                return Outcome::Win;
            }
            return Outcome::Playing;
        }
        let mut gc_use: u32 = 0;
        if state0 == WindowState::GameClear {
            self.game_count = crate::num::inc_sat(self.game_count);
            if self.game_count >= 180 {
                self.game_count = 0;
                self.window_state = WindowState::ThankYouForPlaying;
            }
            proof {
                let c = crate::num::inc_sat_spec(old(self).game_count);
                if c >= 180 {
                    assert(*self == (MainState {
                        game_count: 0,
                        window_state: WindowState::ThankYouForPlaying,
                        ..*old(self)
                    }));
                } else {
                    assert(*self == (MainState { game_count: c, ..*old(self) }));
                }
                assert(gc_use == 0);
            }
        } else if state0 == WindowState::Gaming {
            self.game_count = crate::num::inc_sat(self.game_count);
            gc_use = self.game_count;
            let ghost g0 = *self;
            self.director_step();
            proof {
                assert(director_rel(g0, *self));
            }
        } else {
            gc_use = self.boss_count;
            self.boss_count = crate::num::inc_sat(self.boss_count);
            let ghost g0 = *self;
            self.boss_pattern_step(gc_use);
            let ghost gp = *self;
            self.boss_phase_step(gc_use);
            proof {
                assert(boss_pattern_rel(g0, gp, gc_use) && boss_phase_rel(gp, *self, gc_use));
            }
        }
        let ghost before_updates = *self;
        self.run_updates(input, gc_use);
        let ghost before_reap = *self;
        self.reap_all();
        proof {
            assert(updates_rel(before_updates, before_reap, input, gc_use) && reap_rel(
                before_reap,
                *self,
            ));
            if state0 == WindowState::GameClear {
                assert(updates_rel(before_updates, before_reap, input, 0));
            }
        }
        Outcome::Playing
    }

    /// Whether the renderer should draw the player this tick: during the
    /// invulnerability sub-state the player blinks, hidden every third
    /// tick of the relevant counter.
    pub fn player_visible(&self, gc: u32) -> (r: bool)
        ensures
            r == !(self.player.state == SubState::Trans && gc % 3 == 0),
    {
        !(self.player.state == SubState::Trans && gc % 3 == 0)
    }

    /// The whole seconds left of the boss's current phase, for the
    /// renderer's countdown.
    pub fn boss_countdown(&self) -> (r: u32)
        requires
            self.wf(),
        ensures
            self.boss is Some ==> r == (if self.boss_phases@[self.boss_phase_idx as int].until
                >= self.boss_count {
                (self.boss_phases@[self.boss_phase_idx as int].until - self.boss_count) as u32
            } else {
                0u32
            }) / 60,
            self.boss is None ==> r == 0,
    {
        match &self.boss {
            Option::Some(_) => {
                let until = self.boss_phases[self.boss_phase_idx].until;
                if until >= self.boss_count {
                    (until - self.boss_count) / 60
                } else {
                    0
                }
            },
            Option::None => 0,
        }
    }
}

} // verus!
