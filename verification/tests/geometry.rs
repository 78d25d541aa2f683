use button_chaos::geometry::{isqrt, point_on_ring, Offset, Point, LONGEST_COMPONENT};

fn at(x: i32, y: i32) -> Point {
    Point { x, y }
}

#[test]
fn isqrt_is_the_floor_of_the_root() {
    assert_eq!(isqrt(0), 0);
    assert_eq!(isqrt(1), 1);
    assert_eq!(isqrt(2), 1);
    assert_eq!(isqrt(3), 1);
    assert_eq!(isqrt(4), 2);
    assert_eq!(isqrt(99), 9);
    assert_eq!(isqrt(100), 10);
    assert_eq!(isqrt(1_000_000_000_000), 1_000_000);
    assert_eq!(isqrt(u128::MAX), u64::MAX);
    assert_eq!(isqrt((u64::MAX as u128) * (u64::MAX as u128)), u64::MAX);
    assert_eq!(isqrt((u64::MAX as u128) * (u64::MAX as u128) - 1), u64::MAX - 1);
}

#[test]
fn isqrt_brackets_every_small_number() {
    for n in 0u128..5_000 {
        let root = isqrt(n) as u128;
        assert!(root * root <= n && n < (root + 1) * (root + 1));
    }
}

#[test]
fn offset_to_is_the_exact_difference() {
    assert_eq!(at(1, 2).offset_to(at(4, -2)), Offset { dx: 3, dy: -4 });
    assert_eq!(
        at(i32::MIN, i32::MAX).offset_to(at(i32::MAX, i32::MIN)),
        Offset { dx: LONGEST_COMPONENT, dy: -LONGEST_COMPONENT }
    );
}

#[test]
fn distance_squared_is_exact() {
    assert_eq!(at(0, 0).distance_squared_to(at(3, 4)), 25);
    assert_eq!(at(-3, -4).distance_squared_to(at(0, 0)), 25);
    assert_eq!(
        at(i32::MIN, i32::MIN).distance_squared_to(at(i32::MAX, i32::MAX)),
        2 * (u32::MAX as u128) * (u32::MAX as u128)
    );
}

#[test]
fn discs_touch_when_the_distance_is_the_sum_of_the_radii() {
    assert!(at(0, 0).touches(3, at(3, 4), 2));
    assert!(at(0, 0).touches(5, at(3, 4), 0));
    assert!(!at(0, 0).touches(3, at(3, 4), 1));
    assert!(at(7, 7).touches(0, at(7, 7), 0));
    assert!(!at(7, 7).touches(0, at(7, 8), 0));
    assert!(at(i32::MIN, 0).touches(u32::MAX, at(i32::MAX, 0), u32::MAX));
}

#[test]
fn a_step_shares_the_budget_between_the_axes() {
    // one second at 1000 units a second: a budget of 1000 on a 3-4-5 heading
    assert_eq!(at(0, 0).moved_toward(at(3_000, 4_000), 1_000, 1_000_000), at(600, 800));
    assert_eq!(at(0, 0).moved_toward(at(-3_000, -4_000), 1_000, 1_000_000), at(-600, -800));
    assert_eq!(at(10, 20).moved_toward(at(10, 5_020), 1_000, 500_000), at(10, 520));
}

#[test]
fn a_step_rounds_toward_zero() {
    // budget 999: 3000 * 999 / 5000 = 599.4, 4000 * 999 / 5000 = 799.2
    assert_eq!(at(0, 0).moved_toward(at(3_000, 4_000), 999, 1_000_000), at(599, 799));
    assert_eq!(at(0, 0).moved_toward(at(-3_000, 4_000), 999, 1_000_000), at(-599, 799));
    // 96000 units a second for a sixtieth of a second: 1599 units, not 1600
    assert_eq!(at(0, 0).moved_toward(at(1_000_000, 0), 96_000, 16_666), at(1_599, 0));
}

#[test]
fn a_step_carries_past_the_target() {
    assert_eq!(at(0, 0).moved_toward(at(30, 40), 1_000, 1_000_000), at(600, 800));
}

#[test]
fn a_step_without_heading_or_time_stays() {
    assert_eq!(at(5, 6).moved_toward(at(5, 6), 1_000, 1_000_000), at(5, 6));
    assert_eq!(at(5, 6).moved_along(Offset { dx: 0, dy: 0 }, u32::MAX, u64::MAX), at(5, 6));
    assert_eq!(at(5, 6).moved_toward(at(50, 60), 1_000, 0), at(5, 6));
    assert_eq!(at(5, 6).moved_toward(at(50, 60), 0, 1_000_000), at(5, 6));
}

#[test]
fn a_step_stops_at_the_edge_of_the_coordinates() {
    assert_eq!(
        at(i32::MAX - 5, 0).moved_along(Offset { dx: 1, dy: 0 }, 1_000, 1_000_000),
        at(i32::MAX, 0)
    );
    assert_eq!(
        at(0, i32::MIN + 5).moved_along(Offset { dx: 0, dy: -7 }, u32::MAX, u64::MAX),
        at(0, i32::MIN)
    );
    assert_eq!(
        at(0, 0).moved_along(
            Offset { dx: LONGEST_COMPONENT, dy: -LONGEST_COMPONENT },
            u32::MAX,
            u64::MAX
        ),
        at(i32::MAX, i32::MIN)
    );
}

#[test]
fn a_short_heading_has_a_rounded_length() {
    // (1, 1) has length 1 after rounding down, so each axis gets the whole budget
    assert_eq!(at(0, 0).moved_along(Offset { dx: 1, dy: 1 }, 10, 1_000_000), at(10, 10));
}

#[test]
fn ring_points_lie_on_the_ring() {
    assert_eq!(point_on_ring(at(0, 0), 5, 3, true), at(3, 4));
    assert_eq!(point_on_ring(at(0, 0), 5, 3, false), at(3, -4));
    assert_eq!(point_on_ring(at(10, 10), 5, -5, true), at(5, 10));
    assert_eq!(point_on_ring(at(10, 10), 5, 0, false), at(10, 5));
    assert_eq!(point_on_ring(at(0, 0), 10, 1, true), at(1, 9));
    assert_eq!(point_on_ring(at(7, 7), 0, 0, true), at(7, 7));
    assert_eq!(point_on_ring(at(i32::MAX, 0), 5, 3, true), at(i32::MAX, 4));
    for across in -1_000i64..=1_000 {
        let point = point_on_ring(at(0, 0), 1_000, across, true);
        let squared = point.distance_squared_to(at(0, 0));
        let next = (point.y as u128 + 1) * (point.y as u128 + 1) + (across * across) as u128;
        assert!(squared <= 1_000_000 && 1_000_000 < next);
    }
}
