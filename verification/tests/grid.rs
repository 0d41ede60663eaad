use schotter::color::{Rgb, DIMMEST};
use schotter::fixed::UNIT;
use schotter::gravel::{Gravel, COLS, HEIGHT, MARGIN, ROWS, SIZE, WIDTH};
use schotter::params::{Parameters, MAX_SCALE};
use schotter::stone::{REACH, SWING};

#[test]
fn canvas_holds_the_grid_and_its_margins() {
    assert_eq!((COLS, ROWS, SIZE, MARGIN), (12, 22, 30, 30));
    assert_eq!(WIDTH, 420);
    assert_eq!(HEIGHT, 720);
    assert_eq!(WIDTH, COLS * SIZE + 2 * MARGIN);
    assert_eq!(HEIGHT, ROWS * SIZE + 2 * MARGIN);
}

#[test]
fn new_grid_lays_the_stones_row_by_row() {
    let g = Gravel::new(COLS, ROWS);
    assert_eq!((g.cols(), g.rows()), (12, 22));
    assert_eq!(g.stones().len(), 264);
    for (i, s) in g.stones().iter().enumerate() {
        assert_eq!(s.x() as usize, i % 12);
        assert_eq!(s.y() as usize, i / 12);
        assert_eq!(s.rows(), 22);
        assert_eq!((s.offset_x(), s.offset_y(), s.rotation()), (0, 0, 0));
        assert_eq!((s.velocity_x(), s.velocity_y(), s.spin()), (0, 0, 0));
        assert_eq!(s.cycles(), 0);
        assert_eq!(s.color(), Rgb::black());
    }
}

#[test]
fn new_grid_gives_each_stone_a_bright_colour_of_its_own() {
    let g = Gravel::new(COLS, ROWS);
    let first = g.stones()[0].base_color();
    let mut varied = false;
    for s in g.stones() {
        let c = s.base_color();
        assert!(DIMMEST <= c.red && c.red < UNIT);
        assert!(DIMMEST <= c.green && c.green < UNIT);
        assert!(DIMMEST <= c.blue && c.blue < UNIT);
        varied |= c != first;
    }
    assert!(varied);
}

#[test]
fn empty_grids_have_no_stones() {
    assert_eq!(Gravel::new(0, 0).stones().len(), 0);
    assert_eq!(Gravel::new(5, 0).stones().len(), 0);
    assert_eq!(Gravel::new(0, 5).stones().len(), 0);
    let mut g = Gravel::new(0, 7);
    g.update(&Parameters::new());
    assert_eq!((g.cols(), g.rows(), g.stones().len()), (0, 7, 0));
}

#[test]
fn narrow_grids_keep_their_shape() {
    let g = Gravel::new(1, 4);
    let cells: Vec<(u32, u32)> = g.stones().iter().map(|s| (s.x(), s.y())).collect();
    assert_eq!(cells, vec![(0, 0), (0, 1), (0, 2), (0, 3)]);
    let g = Gravel::new(3, 2);
    let cells: Vec<(u32, u32)> = g.stones().iter().map(|s| (s.x(), s.y())).collect();
    assert_eq!(cells, vec![(0, 0), (1, 0), (2, 0), (0, 1), (1, 1), (2, 1)]);
}

#[test]
fn first_update_decides_for_every_stone_and_moves_none() {
    let mut g = Gravel::new(COLS, ROWS);
    g.update(&Parameters::clamped(UNIT / 2, UNIT, UNIT));
    for s in g.stones() {
        assert!(50 <= s.cycles() && s.cycles() < 100);
        assert_eq!((s.offset_x(), s.offset_y(), s.rotation()), (0, 0, 0));
        assert_eq!(s.color(), Rgb::black());
    }
    let first = g.stones()[0].cycles();
    assert!(g.stones().iter().any(|s| s.cycles() != first));
}

#[test]
fn update_moves_every_stone_by_the_rule() {
    let p = Parameters::clamped(UNIT, MAX_SCALE, MAX_SCALE);
    let mut g = Gravel::new(COLS, ROWS);
    let mut coloured = false;
    for _ in 0..400 {
        let before: Vec<_> = g.stones().clone();
        g.update(&p);
        assert_eq!(g.stones().len(), 264);
        for (old, new) in before.iter().zip(g.stones().iter()) {
            assert_eq!((new.x(), new.y(), new.rows()), (old.x(), old.y(), old.rows()));
            assert_eq!(new.base_color(), old.base_color());
            if old.cycles() == 0 {
                assert!(50 <= new.cycles() && new.cycles() < 100);
                assert_eq!(new.offset_x(), old.offset_x());
                assert_eq!(new.offset_y(), old.offset_y());
                assert_eq!(new.rotation(), old.rotation());
            } else {
                assert_eq!(new.cycles(), old.cycles() - 1);
                assert_eq!(new.offset_x(), old.offset_x() + old.velocity_x());
                assert_eq!(new.offset_y(), old.offset_y() + old.velocity_y());
                assert_eq!(new.rotation(), old.rotation() + old.spin());
                assert_eq!(new.velocity_x(), old.velocity_x());
            }
            assert!(new.offset_x().abs() <= REACH && new.offset_y().abs() <= REACH);
            assert!(new.rotation().abs() <= SWING);
            if new.is_displaced() {
                assert_eq!(new.color(), new.base_color().shaded(new.depth()));
                coloured = true;
            } else {
                assert_eq!(new.color(), Rgb::black());
            }
            if new.y() == 0 {
                assert_eq!(new.color(), Rgb::black());
            }
        }
    }
    assert!(coloured);
}

#[test]
fn without_motion_the_grid_stays_black() {
    let p = Parameters::new();
    let mut g = Gravel::new(COLS, ROWS);
    for _ in 0..300 {
        g.update(&p);
    }
    let moved = g.stones().iter().filter(|s| s.is_displaced()).count();
    assert_eq!(moved, 0);
}

#[test]
fn single_stone_without_scale_stays_home_and_black() {
    let p = Parameters::clamped(UNIT, 0, 0);
    let mut g = Gravel::new(1, 1);
    assert_eq!(g.stones().len(), 1);
    for _ in 0..1000 {
        g.update(&p);
        let s = &g.stones()[0];
        assert_eq!((s.offset_x(), s.offset_y(), s.rotation()), (0, 0, 0));
        assert_eq!(s.color(), Rgb::black());
        assert!(s.cycles() < 100);
    }
}

#[test]
fn whole_grid_without_scale_stays_home_and_black() {
    let p = Parameters::clamped(UNIT, 0, 0);
    let mut g = Gravel::new(COLS, ROWS);
    for _ in 0..200 {
        g.update(&p);
        for s in g.stones() {
            assert_eq!((s.offset_x(), s.offset_y(), s.rotation()), (0, 0, 0));
            assert_eq!(s.color(), Rgb::black());
        }
    }
}
