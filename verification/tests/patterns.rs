use poi_project::actor::{Actor, PatternKind, SubState, Vec2};
use poi_project::shot_type::{
    b_2fireflower_4pdis, b_6carpet_fireflower, b_6rotate_4rand, b_normal, carpet_bomb,
    fireflower, four_two_disp, m_six_fireflower, m_six_rotate, n_four_two_disp, n_six,
    six_rotate,
};
use poi_project::LIFE_ONE;

fn enemy_at(x: i64, y: i64) -> Actor {
    Actor::enemy_s_new(Vec2 { x, y }, Vec2 { x: 0, y: 0 }, 20, Vec::new())
}

// The player's position straight below the enemy, so the aim angle is 0.
const PP: Vec2 = Vec2 {
    x: 1620000,
    y: 2880000,
};

#[test]
fn radial_burst_of_six_covers_the_circle_evenly() {
    // The staged-split launcher doubles as the canonical radial burst:
    // six shots at angle-fractions 0, 1/3, 2/3, 1, 4/3, 5/3.
    let mut e = enemy_at(1620000, 720000);
    let mut shots: Vec<Actor> = Vec::new();
    fireflower(&mut e, PP, &mut shots, 0, 6, 0, true);
    assert_eq!(shots.len(), 6);
    let expected = [0, 100000, 200000, 300000, 400000, 500000];
    for (i, want) in expected.iter().enumerate() {
        assert_eq!(shots[i].velocity.x, *want);
        assert_eq!(shots[i].velocity.y, 18000);
        assert_eq!(shots[i].accel, Vec2 { x: 0, y: -300 });
        assert_eq!(shots[i].state, SubState::Origin);
        assert_eq!(shots[i].life, LIFE_ONE);
    }
}

#[test]
fn rotating_ring_turns_with_the_tick_count() {
    let mut e = enemy_at(1620000, 720000);
    let mut shots: Vec<Actor> = Vec::new();
    six_rotate(&mut e, PP, &mut shots, 0, true);
    assert_eq!(shots.len(), 6);
    for j in 0..6 {
        assert_eq!(shots[j].velocity.x, (j as i64) * 100000);
        assert_eq!(shots[j].velocity.y, 18000);
    }
    // At tick 3 the fan has turned by 3/30 of a turn plus the drift.
    let plus = 3 * 10000 + 3 * 2349;
    six_rotate(&mut e, PP, &mut shots, 3, true);
    assert_eq!(shots[6].velocity.x, plus);
    // The mirrored variant turns the other way.
    six_rotate(&mut e, PP, &mut shots, 3, false);
    assert_eq!(shots[12].velocity.x, -plus);
}

#[test]
fn dispersed_fan_shares_one_jitter_across_all_56_shots() {
    let mut e = enemy_at(1620000, 720000);
    let mut shots: Vec<Actor> = Vec::new();
    four_two_disp(&mut e, PP, &mut shots, 7000);
    assert_eq!(shots.len(), 56);
    for i in 0..4i64 {
        for j in 0..7i64 {
            for k in 0..2i64 {
                let s = &shots[(i * 14 + j * 2 + k) as usize];
                let side = if k == 0 { 15000 } else { -15000 };
                assert_eq!(s.velocity.x, i * 150000 + 7000 + side);
                assert_eq!(s.velocity.y, 7200 + j * 1800);
            }
        }
    }
}

#[test]
fn aimed_six_way_volley_upgrades_late_in_the_stage() {
    let mut e = enemy_at(1620000, 720000);
    e.pattern = PatternKind::Six;
    let mut shots: Vec<Actor> = Vec::new();
    n_six(&mut e, PP, &mut shots, 100);
    // Before the upgrade: three speeds in six directions, and the
    // pattern slot is cleared so the volley fires once per trigger.
    assert_eq!(shots.len(), 18);
    assert_eq!(e.pattern, PatternKind::Idle);
    assert_eq!(shots[0].velocity, Vec2 { x: 0, y: 8400 });
    assert_eq!(shots[1].velocity, Vec2 { x: 0, y: 10800 });
    assert_eq!(shots[2].velocity, Vec2 { x: 0, y: 13200 });
    assert_eq!(shots[3].velocity.x, 100000);

    let mut late: Vec<Actor> = Vec::new();
    n_six(&mut e, PP, &mut late, 3060);
    assert_eq!(late.len(), 42);
    // The upgrade adds two near misses and two wide flanks per direction.
    assert_eq!(late[3].velocity, Vec2 { x: 36000, y: 9600 });
    assert_eq!(late[4].velocity, Vec2 { x: -36000, y: 9600 });
    assert_eq!(late[5].velocity, Vec2 { x: 396000, y: 11400 });
    assert_eq!(late[6].velocity, Vec2 { x: -396000, y: 11400 });
}

#[test]
fn dispersed_volley_clears_the_pattern_slot() {
    let mut e = enemy_at(1620000, 720000);
    e.pattern = PatternKind::FourTwoDisp;
    let mut shots: Vec<Actor> = Vec::new();
    n_four_two_disp(&mut e, PP, &mut shots, 12345);
    assert_eq!(shots.len(), 56);
    assert_eq!(e.pattern, PatternKind::Idle);
}

#[test]
fn rotating_ring_pattern_is_tick_gated() {
    let mut e = enemy_at(1620000, 720000);
    let mut shots: Vec<Actor> = Vec::new();
    m_six_rotate(&mut e, PP, &mut shots, 51);
    assert_eq!(shots.len(), 6);
    // Not a multiple of three, or within the wind-up: nothing fires.
    m_six_rotate(&mut e, PP, &mut shots, 52);
    assert_eq!(shots.len(), 6);
    m_six_rotate(&mut e, PP, &mut shots, 48);
    assert_eq!(shots.len(), 6);
}

#[test]
fn boss_volley_fires_twice_per_cycle() {
    let mut e = enemy_at(1620000, 720000);
    let mut shots: Vec<Actor> = Vec::new();
    b_normal(&mut e, PP, &mut shots, 60, 0);
    assert_eq!(shots.len(), 48);
    // With a zero draw the sixteen directions are the plain fractions
    // i * 2 / 16.
    assert_eq!(shots[0].velocity, Vec2 { x: 0, y: 8400 });
    assert_eq!(shots[3].velocity.x, 37500);
    b_normal(&mut e, PP, &mut shots, 75, 0);
    assert_eq!(shots.len(), 48);
    b_normal(&mut e, PP, &mut shots, 80, 0);
    assert_eq!(shots.len(), 96);
}

#[test]
fn staged_split_first_generation() {
    // An origin shot that has lived exactly 60 of its own ticks dies and
    // leaves 8 split-tagged children fanned around its velocity.
    let mut e = enemy_at(1620000, 720000);
    let mut shots: Vec<Actor> = Vec::new();
    let mut origin = Actor::enemy_shot_new(
        Vec2 {
            x: 1620000,
            y: 1080000,
        },
        Vec2 { x: 100000, y: 300 },
    );
    origin.state = SubState::Origin;
    origin.count = 60;
    shots.push(origin);
    fireflower(&mut e, PP, &mut shots, 0, 6, 0, false);
    assert_eq!(shots.len(), 9);
    assert_eq!(shots[0].life, 0);
    assert_eq!(shots[0].state, SubState::OriginDone);
    let offsets = [0, 0, 54000, -54000, 108000, -108000, 162000, -162000];
    for (j, off) in offsets.iter().enumerate() {
        let c = &shots[1 + j];
        assert_eq!(c.state, SubState::Split);
        assert_eq!(c.velocity.x, 100000 + off);
        assert_eq!(c.velocity.y, 15000);
        assert_eq!(c.point, shots[0].point);
        assert_eq!(c.life, LIFE_ONE);
        assert_eq!(c.count, 0);
    }
}

#[test]
fn staged_split_terminal_generation_is_wider() {
    let mut e = enemy_at(1620000, 720000);
    let mut shots: Vec<Actor> = Vec::new();
    let mut split = Actor::enemy_shot_new(
        Vec2 {
            x: 1620000,
            y: 1080000,
        },
        Vec2 { x: 0, y: 300 },
    );
    split.state = SubState::Split;
    split.count = 60;
    shots.push(split);
    fireflower(&mut e, PP, &mut shots, 0, 6, 0, false);
    assert_eq!(shots.len(), 13);
    assert_eq!(shots[0].life, 0);
    assert_eq!(shots[0].state, SubState::SplitDone);
    for j in 0..12i64 {
        let c = &shots[(1 + j) as usize];
        assert_eq!(c.state, SubState::Plain);
        let i = 1 + j / 2;
        let off = if j % 2 == 0 { 54000 * i } else { -54000 * i };
        assert_eq!(c.velocity.x, off);
        assert_eq!(c.velocity.y, 15000);
    }
}

#[test]
fn staged_split_timeline_replaces_each_generation_after_60_ticks() {
    // Drive the mid-boss split pattern the way the session does: the
    // pattern scans at the top of the tick, then every shot's private
    // counter advances.  The burst at tick 50 produces 6 origins; at
    // tick 110 they are gone, replaced by 6 * 8 split-tagged shots; at
    // tick 170 those are in turn replaced by their 48 * 12 terminal
    // children.
    let mut e = enemy_at(1620000, 720000);
    let mut shots: Vec<Actor> = Vec::new();
    for t in 50u32..=170 {
        m_six_fireflower(&mut e, PP, &mut shots, t);
        for s in shots.iter_mut() {
            s.count += 1;
        }
        let live_origin = shots
            .iter()
            .filter(|s| s.state == SubState::Origin && s.life > 0)
            .count();
        let live_split = shots
            .iter()
            .filter(|s| s.state == SubState::Split && s.life > 0)
            .count();
        let live_plain = shots
            .iter()
            .filter(|s| s.state == SubState::Plain && s.life > 0)
            .count();
        if t == 50 {
            assert_eq!(live_origin, 6);
        }
        if t == 109 {
            assert_eq!((live_origin, live_split, live_plain), (6, 0, 0));
        }
        if t == 110 {
            assert_eq!((live_origin, live_split, live_plain), (0, 48, 0));
        }
        if t == 169 {
            assert_eq!((live_origin, live_split, live_plain), (0, 48, 0));
        }
        if t == 170 {
            assert_eq!((live_origin, live_split, live_plain), (0, 0, 576));
        }
    }
}

#[test]
fn carpet_bomb_launches_three_scripted_origins() {
    let mut e = enemy_at(1620000, 720000);
    let mut shots: Vec<Actor> = Vec::new();
    carpet_bomb(&mut e, PP, &mut shots, 0, 90000, true);
    assert_eq!(shots.len(), 3);
    for (i, s) in shots.iter().enumerate() {
        assert_eq!(s.velocity.x, 90000 + (i as i64) * 200000);
        assert_eq!(s.velocity.y, 12000);
        assert_eq!(s.moving.len(), 2);
        assert_eq!(s.moving[0].count, 30);
        assert_eq!(s.moving[0].accel, Vec2 { x: 3500, y: 0 });
        assert_eq!(s.moving[0].state, SubState::Origin);
        assert_eq!(s.moving[1].count, 120);
        assert_eq!(s.moving[1].state, SubState::Plain);
    }
}

#[test]
fn carpet_bomb_sub_wave_fires_every_fifth_tick_from_origins() {
    let mut e = enemy_at(1620000, 720000);
    let mut shots: Vec<Actor> = Vec::new();
    let mut origin = Actor::enemy_shot_new(
        Vec2 {
            x: 1800000,
            y: 1440000,
        },
        Vec2 { x: 100000, y: 12000 },
    );
    origin.state = SubState::Origin;
    shots.push(origin);
    // Off the cadence: nothing.
    carpet_bomb(&mut e, PP, &mut shots, 7, 0, false);
    assert_eq!(shots.len(), 1);
    // On the cadence: one symmetric pair per live origin.
    carpet_bomb(&mut e, PP, &mut shots, 10, 0, false);
    assert_eq!(shots.len(), 3);
    assert_eq!(shots[1].velocity, Vec2 { x: 310000, y: 15000 });
    assert_eq!(shots[2].velocity, Vec2 { x: -110000, y: 15000 });
    assert_eq!(shots[1].point, shots[0].point);
}

#[test]
fn composite_boss_patterns_follow_their_cycles() {
    let mut e = enemy_at(1620000, 720000);

    // b_6rotate_4rand: a clockwise ring at the cycle's start.
    let mut s1: Vec<Actor> = Vec::new();
    b_6rotate_4rand(&mut e, PP, &mut s1, 0, 0);
    assert_eq!(s1.len(), 6);
    // 95 is on the five-tick cadence but between the two ring windows.
    let mut s2: Vec<Actor> = Vec::new();
    b_6rotate_4rand(&mut e, PP, &mut s2, 95, 0);
    assert_eq!(s2.len(), 0);
    // 110 starts the counter-clockwise ring.
    let mut s3: Vec<Actor> = Vec::new();
    b_6rotate_4rand(&mut e, PP, &mut s3, 110, 0);
    assert_eq!(s3.len(), 6);
    // 210 is past both ring windows, on the fan cadence.
    let mut s4: Vec<Actor> = Vec::new();
    b_6rotate_4rand(&mut e, PP, &mut s4, 210, 0);
    assert_eq!(s4.len(), 56);

    // b_2fireflower_4pdis: a two-way split burst at the cycle start.
    let mut s5: Vec<Actor> = Vec::new();
    b_2fireflower_4pdis(&mut e, PP, &mut s5, 0, 0);
    assert_eq!(s5.len(), 2);
    assert_eq!(s5[0].state, SubState::Origin);
    // 120 is past the burst window: the dispersed fan.
    let mut s6: Vec<Actor> = Vec::new();
    b_2fireflower_4pdis(&mut e, PP, &mut s6, 120, 0);
    assert_eq!(s6.len(), 56);

    // b_6carpet_fireflower: a ring at the cycle start, carpet launches
    // late in the cycle.
    let mut s7: Vec<Actor> = Vec::new();
    b_6carpet_fireflower(&mut e, PP, &mut s7, 0, 0);
    assert_eq!(s7.len(), 6);
    let mut s8: Vec<Actor> = Vec::new();
    b_6carpet_fireflower(&mut e, PP, &mut s8, 270, 0);
    assert_eq!(s8.len(), 3);
    assert_eq!(s8[0].moving.len(), 2);
}
