use poi_project::num::{add_sat, clamp_add, div_pos, inc_sat, mul_trig};
use poi_project::session::{InputState, MainState, WindowState};
use poi_project::{FIX_MAX, TRIG_ONE};

#[test]
fn saturating_counters_stop_at_the_top() {
    assert_eq!(inc_sat(0), 1);
    assert_eq!(inc_sat(u32::MAX), u32::MAX);
    assert_eq!(add_sat(10, 20), 30);
    assert_eq!(add_sat(u32::MAX - 5, 10), u32::MAX);
}

#[test]
fn clamped_addition_holds_the_global_bound() {
    assert_eq!(clamp_add(3, 4), 7);
    assert_eq!(clamp_add(-3, -4), -7);
    assert_eq!(clamp_add(FIX_MAX, 1), FIX_MAX);
    assert_eq!(clamp_add(-FIX_MAX, -1), -FIX_MAX);
}

#[test]
fn fixed_point_products_truncate_toward_zero() {
    assert_eq!(mul_trig(100, TRIG_ONE), 100);
    assert_eq!(mul_trig(100, -TRIG_ONE), -100);
    assert_eq!(mul_trig(99, TRIG_ONE / 2), 49);
    assert_eq!(mul_trig(-99, TRIG_ONE / 2), -49);
    assert_eq!(div_pos(7, 2), 3);
}

#[test]
fn player_movement_follows_the_intents() {
    let mut s = MainState::new(Vec::new(), 0);
    s.window_state = WindowState::Gaming;
    let x0 = s.player.point.x;
    let y0 = s.player.point.y;

    let mut input = InputState::new();
    input.right = true;
    s.tick(input);
    // Fast movement: 350 pixels per second, 21000 units per tick.
    assert_eq!(s.player.point.x, x0 + 21000);
    assert_eq!(s.player.point.y, y0);

    input.shift = true;
    input.up = true;
    s.tick(input);
    // Focused movement: 150 pixels per second on both axes.
    assert_eq!(s.player.point.x, x0 + 21000 + 9000);
    assert_eq!(s.player.point.y, y0 - 9000);

    // Opposed intents cancel.
    input.shift = false;
    input.left = true;
    input.down = true;
    s.tick(input);
    assert_eq!(s.player.point.x, x0 + 30000);
    assert_eq!(s.player.point.y, y0 - 9000);
}
