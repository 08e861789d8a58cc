use poi_project::actor::{Actor, ActorKind, MovingElement, PatternKind, SubState, Vec2};
use poi_project::session::{InputState, MainState, Outcome, Phase, WindowState};
use poi_project::stage::{CharType, Stage};
use poi_project::LIFE_ONE;

fn idle() -> InputState {
    InputState::new()
}

fn with_shot() -> InputState {
    let mut i = InputState::new();
    i.shot = true;
    i
}

#[test]
fn title_starts_only_on_a_rising_shot_intent() {
    let mut s = MainState::new(Vec::new(), 0);
    // A shot intent already latched (held from before) does not start.
    s.input_break.shot = true;
    assert_eq!(s.tick(with_shot()), Outcome::Playing);
    assert_eq!(s.window_state, WindowState::Title);
    // Releasing clears the latch.
    assert_eq!(s.tick(idle()), Outcome::Playing);
    assert_eq!(s.window_state, WindowState::Title);
    // The rising edge starts the game.
    assert_eq!(s.tick(with_shot()), Outcome::Playing);
    assert_eq!(s.window_state, WindowState::Gaming);
}

#[test]
fn game_over_confirms_after_its_delay() {
    let mut s = MainState::new(Vec::new(), 0);
    s.window_state = WindowState::GameOver;
    s.game_count = 10;
    assert_eq!(s.tick(with_shot()), Outcome::Playing);
    s.game_count = 200;
    // Still held from the previous tick: not a rising edge.
    assert_eq!(s.tick(with_shot()), Outcome::Playing);
    s.tick(idle());
    assert_eq!(s.tick(with_shot()), Outcome::Lose);
}

#[test]
fn clear_rolls_to_the_ending_and_confirms_a_win() {
    let mut s = MainState::new(Vec::new(), 0);
    s.window_state = WindowState::GameClear;
    s.game_count = 179;
    assert_eq!(s.tick(idle()), Outcome::Playing);
    assert_eq!(s.window_state, WindowState::ThankYouForPlaying);
    assert_eq!(s.game_count, 0);
    s.game_count = 300;
    assert_eq!(s.tick(with_shot()), Outcome::Win);
}

#[test]
fn player_death_falls_to_game_over() {
    let mut s = MainState::new(Vec::new(), 0);
    s.window_state = WindowState::Gaming;
    s.player.life = 0;
    s.tick(idle());
    assert_eq!(s.window_state, WindowState::GameOver);
    assert_eq!(s.game_count, 0);
}

#[test]
fn held_fire_spawns_a_shot_pair_every_third_tick() {
    let mut s = MainState::new(Vec::new(), 2);
    s.window_state = WindowState::Gaming;
    // game_count becomes 3 this tick: on the cadence.
    s.tick(with_shot());
    assert_eq!(s.plshots.len(), 2);
    assert_eq!(s.plshots[0].kind, ActorKind::PlShot);
    // Off the cadence: no new pair.
    s.tick(with_shot());
    assert_eq!(s.plshots.len(), 2);
}

#[test]
fn bomb_is_edge_triggered_and_spawns_its_wave() {
    let mut s = MainState::new(Vec::new(), 0);
    s.window_state = WindowState::Gaming;
    let mut input = InputState::new();
    input.bomb = true;
    s.tick(input);
    assert_eq!(s.bomb, 3);
    assert_eq!(s.player.state, SubState::Trans);
    assert!(s.input_break.bomb);
    assert_eq!(s.effects.len(), 1);
    assert_eq!(s.effects[0].state, SubState::BombWave);
    // Held bomb intent does not spend another bomb while latched.
    s.tick(input);
    assert_eq!(s.bomb, 3);
    assert_eq!(s.effects.len(), 1);
}

#[test]
fn bomb_latch_kills_enemies_and_scores() {
    let mut s = MainState::new(Vec::new(), 0);
    s.window_state = WindowState::Gaming;
    s.enemys.push(Actor::enemy_s_new(
        Vec2 {
            x: 1800000,
            y: 720000,
        },
        Vec2 { x: 0, y: 0 },
        20,
        Vec::new(),
    ));
    let mut input = InputState::new();
    input.bomb = true;
    s.tick(input);
    assert_eq!(s.enemys.len(), 0);
    assert_eq!(s.score, 30);
}

#[test]
fn invulnerability_lasts_exactly_180_ticks() {
    let mut s = MainState::new(Vec::new(), 0);
    s.window_state = WindowState::Gaming;
    // A motionless enemy shot sitting on the player.
    let pinned = Actor::enemy_shot_new(s.player.point, Vec2 { x: 0, y: 0 });
    s.enshots.push(pinned.clone());
    s.enshots.push(pinned);

    // The first shot hits: one life lost, invulnerability entered; the
    // second overlapping shot is blocked in the same tick.
    s.tick(idle());
    assert_eq!(s.player.life, 2 * LIFE_ONE);
    assert_eq!(s.player.state, SubState::Trans);
    assert_eq!(s.enshots.len(), 1);

    // For the rest of the 180-tick window the remaining shot cannot
    // take life.  The countdown advanced to 1 during the hit tick.
    for _ in 0..180 {
        s.tick(idle());
        assert_eq!(s.player.life, 2 * LIFE_ONE);
    }
    assert_eq!(s.player.state, SubState::Plain);
    // Damage resumes on the next qualifying hit.
    s.tick(idle());
    assert_eq!(s.player.life, LIFE_ONE);
    assert_eq!(s.player.state, SubState::Trans);
}

#[test]
fn body_contact_with_an_enemy_costs_a_life() {
    let mut s = MainState::new(Vec::new(), 0);
    s.window_state = WindowState::Gaming;
    s.enemys.push(Actor::enemy_s_new(
        s.player.point,
        Vec2 { x: 0, y: 0 },
        20,
        Vec::new(),
    ));
    s.tick(idle());
    assert_eq!(s.player.life, 2 * LIFE_ONE);
    assert_eq!(s.player.state, SubState::Trans);
}

#[test]
fn player_shots_damage_and_kill_an_enemy_scoring_once() {
    let mut s = MainState::new(Vec::new(), 0);
    s.window_state = WindowState::Gaming;
    let spot = Vec2 {
        x: 1800000,
        y: 720000,
    };
    s.enemys.push(Actor::enemy_s_new(
        spot,
        Vec2 { x: 0, y: 0 },
        2 * LIFE_ONE,
        Vec::new(),
    ));
    // Three overlapping player shots, brought to rest on the enemy.
    for _ in 0..3 {
        let mut ps = Actor::player_shot_new(spot);
        ps.velocity = Vec2 { x: 0, y: 0 };
        s.plshots.push(ps);
    }
    s.tick(idle());
    // Two shots sufficed; each shot is consumed by its hit, and the kill
    // bonus is scored exactly once, at the crossing.
    assert_eq!(s.enemys.len(), 0);
    assert_eq!(s.score, 30);
    assert_eq!(s.plshots.len(), 0);
}

#[test]
fn scripted_enemy_adopts_acceleration_and_pattern_on_its_tick() {
    let mut s = MainState::new(Vec::new(), 4);
    s.window_state = WindowState::Gaming;
    let script = vec![MovingElement {
        count: 5,
        accel: Vec2 { x: 7, y: 0 },
        state: SubState::Plain,
        pattern: PatternKind::Six,
    }];
    s.enemys.push(Actor::enemy_s_new(
        Vec2 {
            x: 1620000,
            y: 720000,
        },
        Vec2 { x: 0, y: 0 },
        20,
        script,
    ));
    // game_count becomes 5 this tick: the element triggers, the volley
    // fires, and the pattern slot clears itself.
    s.tick(idle());
    assert_eq!(s.enemys[0].accel, Vec2 { x: 7, y: 0 });
    assert_eq!(s.enemys[0].pattern, PatternKind::Idle);
    assert_eq!(s.enshots.len(), 18);
}

#[test]
fn effects_expire_after_180_of_their_own_ticks() {
    let mut s = MainState::new(Vec::new(), 0);
    s.window_state = WindowState::Gaming;
    let mut ef = Actor::effect_new(
        Vec2 {
            x: 1800000,
            y: 720000,
        },
        Vec2 { x: 0, y: 0 },
        Vec::new(),
        SubState::BombWave,
    );
    ef.count = 178;
    s.effects.push(ef);
    s.tick(idle());
    assert_eq!(s.effects.len(), 1);
    assert_eq!(s.effects[0].count, 179);
    s.tick(idle());
    assert_eq!(s.effects.len(), 0);
}

#[test]
fn stage_clear_marker_switches_the_session() {
    let stage = vec![Stage {
        count: 3,
        char_type: CharType::Clear,
        repeat: 0,
        interval: 0,
        point: Vec2 { x: 0, y: 0 },
        shift_point: Vec2 { x: 0, y: 0 },
        velocity: Vec2 { x: 0, y: 0 },
        life: 0,
        moving: Vec::new(),
    }];
    let mut s = MainState::new(stage, 0);
    s.window_state = WindowState::Gaming;
    s.enemys.push(Actor::enemy_s_new(
        Vec2 {
            x: 1800000,
            y: 720000,
        },
        Vec2 { x: 0, y: 0 },
        20,
        Vec::new(),
    ));
    s.tick(idle());
    s.tick(idle());
    assert_eq!(s.window_state, WindowState::Gaming);
    s.tick(idle());
    assert_eq!(s.window_state, WindowState::GameClear);
    assert_eq!(s.game_count, 0);
    assert_eq!(s.enemys.len(), 0);
}

#[test]
fn render_views_follow_the_state() {
    let mut s = MainState::new(Vec::new(), 0);
    assert!(s.player_visible(3));
    s.player.state = SubState::Trans;
    assert!(!s.player_visible(3));
    assert!(s.player_visible(4));
    assert_eq!(s.boss_countdown(), 0);
    s.boss_phases = vec![Phase {
        pattern: PatternKind::Waiting,
        until: 1500,
        life: 5000,
    }];
    s.boss_phase_idx = 0;
    s.boss_count = 300;
    s.boss = Some(Actor::boss_new(
        Vec2 {
            x: 1620000,
            y: 720000,
        },
        Vec2 { x: 0, y: 0 },
        1,
        Vec::new(),
        PatternKind::Waiting,
    ));
    assert_eq!(s.boss_countdown(), 20);
}
