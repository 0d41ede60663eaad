use schotter::color::Rgb;
use schotter::draw::{Draw, HALF, MAX_CYCLES, MIN_CYCLES, QUARTER_TURN};
use schotter::fixed::UNIT;
use schotter::params::{Parameters, MAX_SCALE};
use schotter::stone::{Stone, EPSILON, REACH, SWING};

fn draw(chance: i64, cycles: u32, x: i64, y: i64, turn: i64) -> Draw {
    let d = Draw { chance, cycles, x, y, turn };
    assert!(d.is_valid());
    d
}

fn base() -> Rgb {
    Rgb::new(400_000_000, 600_000_000, UNIT)
}

fn state(s: &Stone) -> (i64, i64, i64, i64, i64, i64, u32) {
    (
        s.offset_x(),
        s.offset_y(),
        s.rotation(),
        s.velocity_x(),
        s.velocity_y(),
        s.spin(),
        s.cycles(),
    )
}

#[test]
fn constants_of_the_rule() {
    assert_eq!(MIN_CYCLES, 50);
    assert_eq!(MAX_CYCLES, 100);
    assert_eq!(HALF, UNIT / 2);
    assert_eq!(QUARTER_TURN, 785_398_163);
    assert_eq!(QUARTER_TURN, (std::f64::consts::FRAC_PI_4 * 1e9).floor() as i64);
    assert_eq!(EPSILON, 1_000);
    assert_eq!(REACH, 2_500_000_000);
    assert_eq!(SWING, 5 * QUARTER_TURN);
}

#[test]
fn draw_is_valid_tells_the_ranges() {
    let good = Draw { chance: 0, cycles: 50, x: -HALF, y: HALF - 1, turn: -QUARTER_TURN };
    assert!(good.is_valid());
    assert!(Draw { chance: UNIT - 1, cycles: 99, turn: QUARTER_TURN - 1, ..good }.is_valid());
    assert!(!Draw { chance: -1, ..good }.is_valid());
    assert!(!Draw { chance: UNIT, ..good }.is_valid());
    assert!(!Draw { cycles: 49, ..good }.is_valid());
    assert!(!Draw { cycles: 0, ..good }.is_valid());
    assert!(!Draw { cycles: 100, ..good }.is_valid());
    assert!(!Draw { x: -HALF - 1, ..good }.is_valid());
    assert!(!Draw { x: HALF, ..good }.is_valid());
    assert!(!Draw { y: -HALF - 1, ..good }.is_valid());
    assert!(!Draw { y: HALF, ..good }.is_valid());
    assert!(!Draw { turn: -QUARTER_TURN - 1, ..good }.is_valid());
    assert!(!Draw { turn: QUARTER_TURN, ..good }.is_valid());
}

#[test]
fn sampled_cycle_counts_lie_between_fifty_and_a_hundred() {
    let mut seen = [false; 100];
    for _ in 0..2000 {
        let d = Draw::sample(UNIT);
        assert!(d.is_valid());
        assert!(50 <= d.cycles && d.cycles < 100);
        seen[d.cycles as usize] = true;
    }
    let distinct = seen.iter().filter(|&&s| s).count();
    assert!(distinct >= 10);
    assert!(seen[..50].iter().all(|&s| !s));
}

#[test]
fn sampled_draws_vary_in_every_value() {
    let first = Draw::sample(UNIT);
    let (mut chance, mut x, mut y, mut turn) = (false, false, false, false);
    for _ in 0..200 {
        let d = Draw::sample(UNIT);
        assert!(d.is_valid());
        chance |= d.chance != first.chance;
        x |= d.x != first.x;
        y |= d.y != first.y;
        turn |= d.turn != first.turn;
    }
    assert!(chance && x && y && turn);
}

#[test]
fn sampled_draws_leave_out_the_targets_of_a_stone_that_rests() {
    for _ in 0..500 {
        let d = Draw::sample(300_000_000);
        assert!(d.is_valid());
        if d.chance > 300_000_000 {
            assert_eq!((d.x, d.y, d.turn), (0, 0, 0));
        }
    }
    for _ in 0..200 {
        let d = Draw::sample(-1);
        assert_eq!((d.x, d.y, d.turn), (0, 0, 0));
    }
}

#[test]
fn new_stone_is_at_home_at_rest_and_black() {
    let s = Stone::new(3, 11, 22, base());
    assert_eq!((s.x(), s.y(), s.rows()), (3, 11, 22));
    assert_eq!(state(&s), (0, 0, 0, 0, 0, 0, 0));
    assert_eq!(s.base_color(), base());
    assert_eq!(s.color(), Rgb::black());
    assert!(!s.is_displaced());
    assert_eq!(s.depth(), 500_000_000);
}

#[test]
fn first_tick_only_decides_and_leaves_the_stone_black() {
    let p = Parameters::clamped(UNIT, 2 * UNIT, MAX_SCALE);
    let mut moving = Stone::new(3, 11, 22, base());
    moving.tick(&p, &draw(5, 50, 400_000_000, -400_000_000, 100_000_000));
    assert_eq!(state(&moving), (0, 0, 0, 8_000_000, -8_000_000, 5_000_000, 50));
    assert_eq!(moving.color(), Rgb::black());

    let still = Parameters::new();
    let mut resting = Stone::new(3, 11, 22, base());
    resting.tick(&still, &draw(5, 77, 400_000_000, -400_000_000, 100_000_000));
    assert_eq!(state(&resting), (0, 0, 0, 0, 0, 0, 77));
    assert_eq!(resting.color(), Rgb::black());
}

#[test]
fn chance_is_held_against_motion() {
    let p = Parameters::clamped(300_000_000, UNIT, UNIT);
    let d = |chance| draw(chance, 60, 300_000_000, 0, 0);
    let mut s = Stone::new(0, 11, 22, base());
    s.tick(&p, &d(300_000_001));
    assert_eq!(state(&s), (0, 0, 0, 0, 0, 0, 60));
    let mut s = Stone::new(0, 11, 22, base());
    s.tick(&p, &d(300_000_000));
    assert_eq!(state(&s), (0, 0, 0, 2_500_000, 0, 0, 60));
    let mut s = Stone::new(0, 11, 22, base());
    s.tick(&p, &d(299_999_999));
    assert_eq!(state(&s), (0, 0, 0, 2_500_000, 0, 0, 60));
}

#[test]
fn stone_travels_in_equal_steps_and_lands_on_its_target() {
    let p = Parameters::clamped(UNIT, 2 * UNIT, MAX_SCALE);
    let d = draw(5, 50, 400_000_000, -400_000_000, 100_000_000);
    let other = draw(UNIT - 1, 99, -1, 1, -1);
    let mut s = Stone::new(3, 11, 22, base());
    s.tick(&p, &d);
    for k in 1..=50i64 {
        s.tick(&p, &other);
        assert_eq!(
            state(&s),
            (8_000_000 * k, -8_000_000 * k, 5_000_000 * k, 8_000_000, -8_000_000, 5_000_000, (50 - k) as u32)
        );
        assert!(s.is_displaced());
        assert_eq!(s.color(), Rgb::new(200_000_000, 300_000_000, 500_000_000));
    }
    assert_eq!((s.offset_x(), s.offset_y(), s.rotation()), (400_000_000, -400_000_000, 250_000_000));
    assert_eq!(s.cycles(), 0);
}

#[test]
fn steps_round_toward_zero_and_stop_short_of_the_target() {
    let p = Parameters::new();
    let p = Parameters::clamped(UNIT, p.displacement_scale, p.rotation_scale);
    let mut s = Stone::new(0, 21, 22, base());
    assert_eq!(s.depth(), 954_545_454);
    s.tick(&p, &draw(0, 97, 333_333_333, -HALF, -QUARTER_TURN));
    assert_eq!(state(&s), (0, 0, 0, 3_280_224, -4_920_337, -7_728_847, 97));
    for _ in 0..97 {
        s.tick(&p, &draw(0, 50, 0, 0, 0));
    }
    assert_eq!(state(&s), (318_181_728, -477_272_689, -749_698_159, 3_280_224, -4_920_337, -7_728_847, 0));
    assert!((318_181_817 - s.offset_x()).abs() < 97);
    assert!((-477_272_727 - s.offset_y()).abs() < 97);
    assert!((-749_698_246 - s.rotation()).abs() < 97);

    let wide = Parameters::clamped(UNIT, MAX_SCALE, MAX_SCALE);
    s.tick(&wide, &draw(UNIT - 1, 50, -250_000_000, 250_000_000, 500_000_000));
    assert_eq!(
        state(&s),
        (318_181_728, -477_272_689, -749_698_159, -30_227_270, 33_409_090, 62_721_235, 50)
    );
    for _ in 0..50 {
        s.tick(&wide, &draw(0, 50, 0, 0, 0));
    }
    assert_eq!(
        (s.offset_x(), s.offset_y(), s.rotation(), s.cycles()),
        (-1_193_181_772, 1_193_181_811, 2_386_363_591, 0)
    );
}

#[test]
fn furthest_targets_stay_in_reach() {
    let wide = Parameters::clamped(UNIT, MAX_SCALE, MAX_SCALE);
    let mut s = Stone::new(0, 21, 22, base());
    s.tick(&wide, &draw(0, 50, -HALF, HALF - 1, QUARTER_TURN - 1));
    for _ in 0..50 {
        s.tick(&wide, &draw(0, 50, 0, 0, 0));
        assert!(-REACH <= s.offset_x() && s.offset_x() <= REACH);
        assert!(-REACH <= s.offset_y() && s.offset_y() <= REACH);
        assert!(-SWING <= s.rotation() && s.rotation() <= SWING);
    }
    assert!((-2_386_363_635i64 - s.offset_x()).abs() < 50);
    assert!((2_386_363_630i64 - s.offset_y()).abs() < 50);
    assert!((3_748_491_225i64 - s.rotation()).abs() < 50);
    s.tick(&wide, &draw(0, 50, HALF - 1, -HALF, -QUARTER_TURN));
    for _ in 0..50 {
        s.tick(&wide, &draw(0, 50, 0, 0, 0));
        assert!(-REACH <= s.offset_x() && s.offset_x() <= REACH);
        assert!(-REACH <= s.offset_y() && s.offset_y() <= REACH);
        assert!(-SWING <= s.rotation() && s.rotation() <= SWING);
    }
}

#[test]
fn stone_is_coloured_only_beyond_epsilon() {
    let p = Parameters::clamped(UNIT, UNIT, UNIT);
    let tint = Rgb::new(UNIT, 500_000_000, 250_000_000);
    let shaded = Rgb::new(45_454_545, 22_727_272, 11_363_636);

    let mut s = Stone::new(0, 1, 22, tint);
    s.tick(&p, &draw(0, 50, 1_100_001, 0, 0));
    assert_eq!(s.velocity_x(), 1_000);
    s.tick(&p, &draw(0, 50, 0, 0, 0));
    assert_eq!(s.offset_x(), 1_000);
    assert!(!s.is_displaced());
    assert_eq!(s.color(), Rgb::black());
    s.tick(&p, &draw(0, 50, 0, 0, 0));
    assert_eq!(s.offset_x(), 2_000);
    assert!(s.is_displaced());
    assert_eq!(s.color(), shaded);

    let mut s = Stone::new(0, 1, 22, tint);
    s.tick(&p, &draw(0, 50, 1_101_101, 0, 0));
    s.tick(&p, &draw(0, 50, 0, 0, 0));
    assert_eq!(s.offset_x(), 1_001);
    assert!(s.is_displaced());
    assert_eq!(s.color(), shaded);
}

#[test]
fn epsilon_is_held_against_the_sum_of_the_magnitudes() {
    let p = Parameters::clamped(UNIT, UNIT, UNIT);
    let tint = Rgb::new(UNIT, 500_000_000, 250_000_000);
    let mut s = Stone::new(0, 1, 22, tint);
    s.tick(&p, &draw(0, 50, 440_001, -330_001, -330_001));
    s.tick(&p, &draw(0, 50, 0, 0, 0));
    assert_eq!((s.offset_x(), s.offset_y(), s.rotation()), (400, -300, -300));
    assert!(!s.is_displaced());
    assert_eq!(s.color(), Rgb::black());

    let mut s = Stone::new(0, 1, 22, tint);
    s.tick(&p, &draw(0, 50, 440_001, -330_001, -331_101));
    s.tick(&p, &draw(0, 50, 0, 0, 0));
    assert_eq!((s.offset_x(), s.offset_y(), s.rotation()), (400, -300, -301));
    assert!(s.is_displaced());
    assert_eq!(s.color(), Rgb::new(45_454_545, 22_727_272, 11_363_636));
}

#[test]
fn lower_rows_move_further_and_shine_brighter() {
    let p = Parameters::clamped(UNIT, 3 * UNIT, 2 * UNIT);
    let d = draw(0, 50, -437_500_000, 123_456_789, 700_000_000);
    let mut last: Option<(i64, i64, i64, i64, Rgb)> = None;
    for y in 0..22u32 {
        let mut s = Stone::new(0, y, 22, base());
        s.tick(&p, &d);
        for _ in 0..50 {
            s.tick(&p, &d);
        }
        let now = (s.depth(), s.offset_x().abs(), s.offset_y().abs(), s.rotation().abs(), s.color());
        if let Some(before) = last {
            assert!(before.0 <= now.0);
            assert!(before.1 <= now.1 + 50);
            assert!(before.2 <= now.2 + 50);
            assert!(before.3 <= now.3 + 50);
            assert!(before.4.red <= now.4.red);
            assert!(before.4.green <= now.4.green);
            assert!(before.4.blue <= now.4.blue);
        }
        last = Some(now);
    }
    let top = Stone::new(0, 0, 22, base());
    assert_eq!(top.depth(), 0);
}

#[test]
fn velocities_grow_with_the_row() {
    let p = Parameters::clamped(UNIT, 3 * UNIT, 2 * UNIT);
    let d = draw(0, 50, -437_500_000, 123_456_789, 700_000_000);
    let mut last = (0i64, 0i64, 0i64);
    for y in 0..22u32 {
        let mut s = Stone::new(0, y, 22, base());
        s.tick(&p, &d);
        let now = (s.velocity_x().abs(), s.velocity_y().abs(), s.spin().abs());
        assert!(last.0 <= now.0 && last.1 <= now.1 && last.2 <= now.2);
        last = now;
    }
    assert!(last.0 > 0 && last.1 > 0 && last.2 > 0);
}

#[test]
fn without_motion_a_stone_at_rest_never_moves_again() {
    let wide = Parameters::clamped(UNIT, MAX_SCALE, MAX_SCALE);
    let mut s = Stone::new(2, 15, 22, base());
    s.tick(&wide, &draw(0, 50, 300_000_000, -200_000_000, 400_000_000));
    for _ in 0..20 {
        s.tick(&wide, &draw(0, 50, 0, 0, 0));
    }
    let still = Parameters::clamped(0, MAX_SCALE, MAX_SCALE);
    for _ in 0..30 {
        s.tick(&still, &draw(1, 50, 1, 1, 1));
    }
    assert_eq!(s.cycles(), 0);
    let place = (s.offset_x(), s.offset_y(), s.rotation());
    let colour = s.color();
    assert!(s.is_displaced());
    for round in 0..400u32 {
        s.tick(&still, &draw(1 + (round as i64 * 7_919) % (UNIT - 1), 50 + round % 50, 123, -456, 789));
        assert_eq!((s.offset_x(), s.offset_y(), s.rotation()), place);
        assert_eq!((s.velocity_x(), s.velocity_y(), s.spin()), (0, 0, 0));
        assert_eq!(s.color(), colour);
    }
}

#[test]
fn without_motion_a_fresh_stone_stays_black() {
    let still = Parameters::new();
    let mut s = Stone::new(2, 15, 22, base());
    for round in 0..400u32 {
        s.tick(&still, &draw(1 + round as i64, 50 + round % 50, HALF - 1, -HALF, QUARTER_TURN - 1));
        assert_eq!(state(&s).0, 0);
        assert_eq!(state(&s).1, 0);
        assert_eq!(state(&s).2, 0);
        assert_eq!(s.color(), Rgb::black());
    }
}

#[test]
fn a_chance_of_exactly_zero_sets_off_even_without_motion() {
    let still = Parameters::new();
    let mut s = Stone::new(2, 11, 22, base());
    s.tick(&still, &draw(0, 50, 400_000_000, 0, 0));
    assert_eq!(s.velocity_x(), 4_000_000);
    assert_eq!(s.cycles(), 50);
}

#[test]
fn with_full_motion_a_stone_sets_off_at_every_decision() {
    let p = Parameters::clamped(UNIT, UNIT, UNIT);
    let mut s = Stone::new(2, 11, 22, base());
    let mut decisions = 0;
    for round in 0..1000i64 {
        let before = s;
        let d = draw(UNIT - 1 - round, 50 + (round % 50) as u32, 100_000_000 + round, -200_000_000 - round, 300_000_000 + round);
        assert!(d.chance <= p.motion);
        s.tick(&p, &d);
        if before.cycles() == 0 {
            decisions += 1;
            assert_eq!(s.cycles(), d.cycles);
            let target_x = (100_000_000 + round) / 2;
            let target_y = -((200_000_000 + round) / 2);
            let target_turn = (300_000_000 + round) / 2;
            assert_eq!(s.velocity_x(), (target_x - before.offset_x()) / d.cycles as i64);
            assert_eq!(s.velocity_y(), (target_y - before.offset_y()) / d.cycles as i64);
            assert_eq!(s.spin(), (target_turn - before.rotation()) / d.cycles as i64);
        } else {
            assert_eq!(s.cycles(), before.cycles() - 1);
        }
    }
    assert!(decisions >= 10);
}

#[test]
fn lone_stone_without_scale_never_leaves_home() {
    let p = Parameters::clamped(UNIT, 0, 0);
    let mut s = Stone::new(0, 0, 1, base());
    for round in 0..600i64 {
        s.tick(&p, &draw(round % UNIT, 50 + (round % 50) as u32, HALF - 1 - round, -HALF + round, QUARTER_TURN - 1 - round));
        assert_eq!((s.offset_x(), s.offset_y(), s.rotation()), (0, 0, 0));
        assert_eq!((s.velocity_x(), s.velocity_y(), s.spin()), (0, 0, 0));
        assert_eq!(s.color(), Rgb::black());
    }
}

#[test]
fn without_scale_no_row_leaves_home() {
    let p = Parameters::clamped(UNIT, 0, 0);
    for y in 0..22u32 {
        let mut s = Stone::new(5, y, 22, base());
        for round in 0..120i64 {
            s.tick(&p, &draw(0, 50, HALF - 1, -HALF, -QUARTER_TURN + round));
            assert_eq!((s.offset_x(), s.offset_y(), s.rotation()), (0, 0, 0));
            assert_eq!(s.color(), Rgb::black());
        }
    }
}

#[test]
fn top_row_never_leaves_home_whatever_the_scale() {
    let p = Parameters::clamped(UNIT, MAX_SCALE, MAX_SCALE);
    let mut s = Stone::new(5, 0, 22, base());
    for round in 0..300i64 {
        s.tick(&p, &draw(0, 50, HALF - 1, -HALF, -QUARTER_TURN + round));
        assert_eq!((s.offset_x(), s.offset_y(), s.rotation()), (0, 0, 0));
        assert_eq!(s.color(), Rgb::black());
    }
}

#[test]
fn update_keeps_a_stone_in_reach() {
    let p = Parameters::clamped(UNIT, MAX_SCALE, MAX_SCALE);
    let mut s = Stone::new(7, 21, 22, base());
    let mut moved = false;
    for _ in 0..3000 {
        let before = s;
        s.update(&p);
        if before.cycles() == 0 {
            assert!(50 <= s.cycles() && s.cycles() < 100);
            assert_eq!(s.offset_x(), before.offset_x());
        } else {
            assert_eq!(s.cycles(), before.cycles() - 1);
            assert_eq!(s.offset_x(), before.offset_x() + before.velocity_x());
            assert_eq!(s.offset_y(), before.offset_y() + before.velocity_y());
            assert_eq!(s.rotation(), before.rotation() + before.spin());
        }
        assert!(-REACH <= s.offset_x() && s.offset_x() <= REACH);
        assert!(-REACH <= s.offset_y() && s.offset_y() <= REACH);
        assert!(-SWING <= s.rotation() && s.rotation() <= SWING);
        assert_eq!((s.x(), s.y(), s.rows()), (7, 21, 22));
        assert_eq!(s.base_color(), base());
        moved |= s.is_displaced();
    }
    assert!(moved);
}
