use poi_project::actor::{Actor, MovingElement, PatternKind, SubState, Vec2};
use poi_project::session::{InputState, MainState, Phase, WindowState};
use poi_project::stage::{CharType, Stage};

fn idle() -> InputState {
    InputState::new()
}

fn plain_descriptor(count: u32, repeat: i64, interval: u32) -> Stage {
    Stage {
        count,
        char_type: CharType::Normal,
        repeat,
        interval,
        point: Vec2 {
            x: 1800000,
            y: 360000,
        },
        shift_point: Vec2 { x: 3600, y: 0 },
        velocity: Vec2 { x: 0, y: 3600 },
        life: 20,
        moving: vec![MovingElement {
            count: 8,
            accel: Vec2 { x: 0, y: 0 },
            state: SubState::Plain,
            pattern: PatternKind::Idle,
        }],
    }
}

#[test]
fn descriptor_with_no_repeats_fires_exactly_once() {
    let mut s = MainState::new(vec![plain_descriptor(5, 0, 10)], 0);
    s.window_state = WindowState::Gaming;
    let mut spawn_ticks: Vec<u32> = Vec::new();
    let mut seen: usize = 0;
    for t in 1u32..=40 {
        s.tick(idle());
        let total = s.enemys.len();
        if total > seen {
            spawn_ticks.push(t);
            seen = total;
        }
    }
    assert_eq!(spawn_ticks, vec![5]);
    // The exhausted descriptor was pruned from the active timeline.
    assert_eq!(s.stage.len(), 0);
}

#[test]
fn repeating_descriptor_fires_on_its_schedule_and_shifts() {
    let mut s = MainState::new(vec![plain_descriptor(5, 2, 10)], 0);
    s.window_state = WindowState::Gaming;

    let mut spawn_ticks: Vec<u32> = Vec::new();
    let mut seen: usize = 0;
    for t in 1u32..=5 {
        s.tick(idle());
        if s.enemys.len() > seen {
            spawn_ticks.push(t);
            seen = s.enemys.len();
        }
    }
    // After the first firing the descriptor is rescheduled one interval
    // later, its spawn point shifted, its script shifted alike.
    assert_eq!(s.stage.len(), 1);
    assert_eq!(s.stage[0].count, 15);
    assert_eq!(s.stage[0].repeat, 1);
    assert_eq!(s.stage[0].point.x, 1803600);
    assert_eq!(s.stage[0].moving[0].count, 18);

    for t in 6u32..=40 {
        s.tick(idle());
        if s.enemys.len() > seen {
            spawn_ticks.push(t);
            seen = s.enemys.len();
        }
    }
    // Three firings in all (repeat count 2), at f, f + 10, f + 20.
    assert_eq!(spawn_ticks, vec![5, 15, 25]);
    assert_eq!(s.stage.len(), 0);
}

fn boss_marker(count: u32, mid: bool) -> Stage {
    Stage {
        count,
        char_type: if mid { CharType::MidBoss } else { CharType::Boss },
        repeat: 0,
        interval: 0,
        point: Vec2 { x: 0, y: 0 },
        shift_point: Vec2 { x: 0, y: 0 },
        velocity: Vec2 { x: 0, y: 0 },
        life: 0,
        moving: Vec::new(),
    }
}

#[test]
fn boss_marker_enters_boss_combat_with_the_kind_phase_table() {
    let mut s = MainState::new(vec![boss_marker(2, false)], 0);
    s.window_state = WindowState::Gaming;
    s.enshots.push(Actor::enemy_shot_new(
        Vec2 {
            x: 1800000,
            y: 720000,
        },
        Vec2 { x: 0, y: 0 },
    ));
    s.tick(idle());
    s.tick(idle());
    assert_eq!(s.window_state, WindowState::GamingBoss);
    assert_eq!(s.enshots.len(), 0);
    assert_eq!(s.enemys.len(), 0);
    // The boss-local counter starts fresh at entry.
    assert_eq!(s.boss_count, 0);
    let b = s.boss.as_ref().unwrap();
    assert_eq!(b.life, 1);
    assert_eq!(b.pattern, PatternKind::Waiting);
    assert_eq!(s.boss_phases.len(), 7);
    assert_eq!(s.boss_phases[0].pattern, PatternKind::Waiting);
    assert_eq!(s.boss_phases[0].until, 30);
    assert_eq!(s.boss_phases[1].pattern, PatternKind::BNormal);
    assert_eq!(s.boss_phases[6].pattern, PatternKind::BCarpetFireflower);

    let mut m = MainState::new(vec![boss_marker(1, true)], 0);
    m.window_state = WindowState::Gaming;
    m.tick(idle());
    assert_eq!(m.boss_phases.len(), 3);
    assert_eq!(m.boss_phases[1].pattern, PatternKind::MSixRotate);
    assert_eq!(m.boss_phases[2].pattern, PatternKind::MSixFireflower);
}

fn boss_session() -> MainState {
    let mut s = MainState::new(Vec::new(), 0);
    s.window_state = WindowState::GamingBoss;
    s.boss = Some(Actor::boss_new(
        Vec2 {
            x: 1620000,
            y: 720000,
        },
        Vec2 { x: 0, y: 0 },
        1,
        Vec::new(),
        PatternKind::Waiting,
    ));
    s.boss_phases = vec![
        Phase {
            pattern: PatternKind::Waiting,
            until: 30,
            life: 1,
        },
        Phase {
            pattern: PatternKind::MSixRotate,
            until: 1500,
            life: 5000,
        },
    ];
    s.boss_phase_idx = 0;
    s
}

#[test]
fn phase_transition_resets_shots_life_and_counter() {
    let mut s = boss_session();
    s.enshots.push(Actor::enemy_shot_new(
        Vec2 {
            x: 1800000,
            y: 720000,
        },
        Vec2 { x: 0, y: 0 },
    ));
    // At the phase's end tick the transition fires: the enemy-shot pool
    // is empty and the boss carries exactly the next phase's configured
    // life and pattern.
    s.boss_phase_step(30);
    assert_eq!(s.enshots.len(), 0);
    assert_eq!(s.boss_phase_idx, 1);
    assert_eq!(s.boss_count, 1);
    let b = s.boss.as_ref().unwrap();
    assert_eq!(b.life, 5000);
    assert_eq!(b.pattern, PatternKind::MSixRotate);
}

#[test]
fn boss_death_in_a_phase_also_transitions() {
    let mut s = boss_session();
    if let Some(b) = s.boss.as_mut() {
        b.life = -9;
    }
    s.boss_phase_step(7);
    assert_eq!(s.boss_phase_idx, 1);
    assert_eq!(s.boss.as_ref().unwrap().life, 5000);
}

#[test]
fn consuming_the_last_phase_ends_boss_combat() {
    let mut s = boss_session();
    s.boss_phase_idx = 1;
    if let Some(b) = s.boss.as_mut() {
        b.life = -9;
    }
    s.enshots.push(Actor::enemy_shot_new(
        Vec2 {
            x: 1800000,
            y: 720000,
        },
        Vec2 { x: 0, y: 0 },
    ));
    s.boss_phase_step(200);
    assert!(s.boss.is_none());
    assert_eq!(s.enshots.len(), 0);
    assert_eq!(s.window_state, WindowState::Gaming);
}

#[test]
fn waiting_boss_fires_nothing_and_rotating_phase_fires() {
    let mut s = boss_session();
    // The wind-up phase ends at boss tick 30; until then nothing fires.
    for _ in 0..35 {
        s.tick(idle());
    }
    assert_eq!(s.boss_phase_idx, 1);
    assert_eq!(s.boss.as_ref().unwrap().pattern, PatternKind::MSixRotate);
    // The rotating ring starts firing after its own 50-tick wind-up, every
    // third tick.
    let before = s.enshots.len();
    assert_eq!(before, 0);
    for _ in 0..60 {
        s.tick(idle());
    }
    assert!(s.enshots.len() > 0);
}
