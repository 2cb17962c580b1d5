use walker::step::Step;
use walker::step::DRAW_RANGE;
use walker::step::JUMP_LENGTH;
use walker::step::STEP_LENGTH;

const ALL: [Step; 8] = [
    Step::Right,
    Step::Left,
    Step::Up,
    Step::Down,
    Step::JumpRight,
    Step::JumpLeft,
    Step::JumpUp,
    Step::JumpDown,
];

#[test]
fn lengths_are_two_and_ten() {
    assert_eq!(DRAW_RANGE, 1_100_000);
    assert_eq!(STEP_LENGTH, 2_000_000);
    assert_eq!(JUMP_LENGTH, 10_000_000);
}

#[test]
fn bins_begin_and_end_where_they_should() {
    assert_eq!(Step::from_draw(0), Step::Right);
    assert_eq!(Step::from_draw(249_999), Step::Right);
    assert_eq!(Step::from_draw(250_000), Step::Left);
    assert_eq!(Step::from_draw(499_999), Step::Left);
    assert_eq!(Step::from_draw(500_000), Step::Up);
    assert_eq!(Step::from_draw(749_999), Step::Up);
    assert_eq!(Step::from_draw(750_000), Step::Down);
    assert_eq!(Step::from_draw(999_999), Step::Down);
    assert_eq!(Step::from_draw(1_000_000), Step::JumpRight);
    assert_eq!(Step::from_draw(1_024_999), Step::JumpRight);
    assert_eq!(Step::from_draw(1_025_000), Step::JumpLeft);
    assert_eq!(Step::from_draw(1_049_999), Step::JumpLeft);
    assert_eq!(Step::from_draw(1_050_000), Step::JumpUp);
    assert_eq!(Step::from_draw(1_074_999), Step::JumpUp);
    assert_eq!(Step::from_draw(1_075_000), Step::JumpDown);
    assert_eq!(Step::from_draw(1_099_999), Step::JumpDown);
}

#[test]
fn draws_beyond_the_range_fall_into_the_last_bin() {
    assert_eq!(Step::from_draw(DRAW_RANGE), Step::JumpDown);
    assert_eq!(Step::from_draw(u32::MAX), Step::JumpDown);
}

#[test]
fn each_step_moves_along_one_axis() {
    assert_eq!((Step::Right.delta_x(), Step::Right.delta_y()), (2_000_000, 0));
    assert_eq!((Step::Left.delta_x(), Step::Left.delta_y()), (-2_000_000, 0));
    assert_eq!((Step::Up.delta_x(), Step::Up.delta_y()), (0, 2_000_000));
    assert_eq!((Step::Down.delta_x(), Step::Down.delta_y()), (0, -2_000_000));
    assert_eq!((Step::JumpRight.delta_x(), Step::JumpRight.delta_y()), (10_000_000, 0));
    assert_eq!((Step::JumpLeft.delta_x(), Step::JumpLeft.delta_y()), (-10_000_000, 0));
    assert_eq!((Step::JumpUp.delta_x(), Step::JumpUp.delta_y()), (0, 10_000_000));
    assert_eq!((Step::JumpDown.delta_x(), Step::JumpDown.delta_y()), (0, -10_000_000));
    for step in ALL {
        let dx = step.delta_x();
        let dy = step.delta_y();
        assert!((dx == 0) != (dy == 0));
        assert!([2_000_000, 10_000_000].contains(&(dx + dy).abs()));
    }
}

#[test]
fn every_draw_counts_towards_the_width_of_its_bin() {
    let mut counts = [0u32; 8];
    for draw in 0..DRAW_RANGE {
        let step = Step::from_draw(draw);
        let index = ALL.iter().position(|s| *s == step).unwrap();
        counts[index] += 1;
    }
    assert_eq!(counts, [250_000, 250_000, 250_000, 250_000, 25_000, 25_000, 25_000, 25_000]);
}

#[test]
fn jumps_take_one_eleventh_of_the_draws() {
    let jumps = (0..DRAW_RANGE)
        .filter(|draw| Step::from_draw(*draw).delta_x().abs() + Step::from_draw(*draw).delta_y().abs() == JUMP_LENGTH)
        .count();
    assert_eq!(jumps * 11, DRAW_RANGE as usize);
}
