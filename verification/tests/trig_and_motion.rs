use poi_project::actor::{Actor, ActorKind, SubState, Vec2};
use poi_project::trig::{cos_fixed, sin_fixed};
use poi_project::{LIFE_ONE, MARGIN, STAGE_LEFT, TRIG_ONE};

#[test]
fn sine_at_cardinal_angles() {
    // angle-fraction 0 points straight down: sine 0, cosine 1.
    assert_eq!(sin_fixed(0), 0);
    assert_eq!(cos_fixed(0), TRIG_ONE);
    // a quarter turn (fraction 1/2) points right: sine 1.
    assert_eq!(sin_fixed(150000), TRIG_ONE);
    // half a turn (fraction 1) points straight up: sine 0, cosine -1.
    assert_eq!(sin_fixed(300000), 0);
    assert_eq!(cos_fixed(300000), -TRIG_ONE);
    // three quarters (fraction 3/2) points left: sine -1.
    assert_eq!(sin_fixed(450000), -TRIG_ONE);
    // a full turn wraps.
    assert_eq!(sin_fixed(600000), 0);
    assert_eq!(sin_fixed(750000), TRIG_ONE);
    assert_eq!(sin_fixed(-150000), -TRIG_ONE);
}

#[test]
fn aim_at_cardinal_directions() {
    let from = Vec2 { x: 1800000, y: 720000 };
    // Straight down is angle-fraction 0.
    let below = Vec2 { x: 1800000, y: 1080000 };
    assert_eq!(poi_project::shot_type::get_angle_from_points(from, below), 0);
    // Straight right is a quarter turn, fraction 1/2.
    let right = Vec2 { x: 2160000, y: 720000 };
    assert_eq!(
        poi_project::shot_type::get_angle_from_points(from, right),
        150000
    );
    // Straight up is half a turn, fraction 1.
    let above = Vec2 { x: 1800000, y: 360000 };
    assert_eq!(
        poi_project::shot_type::get_angle_from_points(from, above),
        300000
    );
    // Straight left is the mirrored quarter turn.
    let left = Vec2 { x: 1440000, y: 720000 };
    assert_eq!(
        poi_project::shot_type::get_angle_from_points(from, left),
        -150000
    );
    // Zero distance returns the stable default angle.
    assert_eq!(poi_project::shot_type::get_angle_from_points(from, from), 0);
}

#[test]
fn direct_motion_integrates_velocity_then_acceleration() {
    let mut e = Actor::enemy_s_new(
        Vec2 {
            x: 1800000,
            y: 1800000,
        },
        Vec2 { x: 3600, y: 0 },
        20,
        Vec::new(),
    );
    e.accel = Vec2 { x: 100, y: 0 };
    Actor::update_point(&mut e);
    // Position gains the old velocity; velocity gains the acceleration.
    assert_eq!(e.point.x, 1803600);
    assert_eq!(e.point.y, 1800000);
    assert_eq!(e.velocity.x, 3700);
    assert_eq!(e.life, 20);
}

#[test]
fn boundary_exit_despawns_enemy_but_not_player() {
    // Beyond the left wall plus margin and still heading out.
    let outside_x = STAGE_LEFT - MARGIN - 3600;
    let mut e = Actor::enemy_s_new(
        Vec2 {
            x: outside_x,
            y: 1800000,
        },
        Vec2 { x: -3600, y: 0 },
        20,
        Vec::new(),
    );
    Actor::update_point(&mut e);
    assert_eq!(e.life, 0);
    // The outward step is zeroed for the tick.
    assert_eq!(e.point.x, outside_x);

    let mut p = Actor::player_new();
    p.point = Vec2 {
        x: STAGE_LEFT - 3600,
        y: 1800000,
    };
    p.velocity = Vec2 { x: -3600, y: 0 };
    Actor::update_point(&mut p);
    // The player is only clamped, never killed.
    assert_eq!(p.life, 3 * LIFE_ONE);
    assert_eq!(p.point.x, STAGE_LEFT - 3600);
}

#[test]
fn shot_motion_reads_polar_velocity() {
    // Angle-fraction 0, magnitude 3600 units per tick: one pixel down.
    let mut s = Actor::enemy_shot_new(
        Vec2 {
            x: 1800000,
            y: 720000,
        },
        Vec2 { x: 0, y: 3600 },
    );
    Actor::update_point_shot(&mut s);
    assert_eq!(s.point.x, 1800000);
    assert_eq!(s.point.y, 723600);
    assert_eq!(s.life, LIFE_ONE);

    // Half a turn: one pixel up.
    let mut u = Actor::enemy_shot_new(
        Vec2 {
            x: 1800000,
            y: 720000,
        },
        Vec2 { x: 300000, y: 3600 },
    );
    Actor::update_point_shot(&mut u);
    assert_eq!(u.point.y, 716400);
}

#[test]
fn shot_acceleration_adds_to_polar_components_directly() {
    // The deliberate non-vector update: the stored angle component gains
    // the stored angle acceleration, not a converted cartesian sum.
    let mut s = Actor::enemy_shot_new(
        Vec2 {
            x: 1800000,
            y: 720000,
        },
        Vec2 { x: 0, y: 3600 },
    );
    s.accel = Vec2 { x: 3500, y: -300 };
    Actor::update_point_shot(&mut s);
    assert_eq!(s.velocity.x, 3500);
    assert_eq!(s.velocity.y, 3300);
}

#[test]
fn shot_boundary_exit_always_kills() {
    let outside_x = STAGE_LEFT - MARGIN - 3600;
    let mut s = Actor::enemy_shot_new(
        Vec2 {
            x: outside_x,
            y: 1800000,
        },
        // A quarter turn to the left: heading out through the left wall.
        Vec2 { x: 450000, y: 3600 },
    );
    Actor::update_point_shot(&mut s);
    assert_eq!(s.life, 0);
}

#[test]
fn collision_is_strict_and_symmetric() {
    let mk = |x: i64, bbox: i64| {
        let mut a = Actor::enemy_shot_new(Vec2 { x, y: 0 }, Vec2 { x: 0, y: 0 });
        a.bbox_size = bbox;
        a
    };
    let a = mk(0, 18000);
    let b = mk(50000, 36000);
    assert!(poi_project::collide::in_bbox(&a, &b));
    assert!(poi_project::collide::in_bbox(&b, &a));
    // Touching exactly does not count.
    let c = mk(54000, 36000);
    assert!(!poi_project::collide::in_bbox(&a, &c));
    assert!(!poi_project::collide::in_bbox(&c, &a));
}

#[test]
fn default_record_is_a_live_enemy_shot() {
    let d = Actor::default();
    assert_eq!(d.kind, ActorKind::EnShot);
    assert_eq!(d.life, LIFE_ONE);
    assert_eq!(d.state, SubState::Plain);
    assert_eq!(d.count, 0);
}
