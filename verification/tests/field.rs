use bevy_bird::field::{
    destroy_obstacles, indices_left_of, infinite_scroll, BACKGROUND_RESPAWN_X, BACKGROUND_WIDTH,
    DESPAWN_MARGIN, SPRITE_SIZE, WIDTH,
};

#[test]
fn field_constants() {
    assert_eq!(WIDTH, 500);
    assert_eq!(DESPAWN_MARGIN, 100);
    assert_eq!(SPRITE_SIZE, 100);
    assert_eq!(BACKGROUND_WIDTH, 3400);
    assert_eq!(BACKGROUND_RESPAWN_X, 3398);
}

#[test]
fn background_width_is_the_rounded_product() {
    assert_eq!(BACKGROUND_WIDTH as f32, 6.8_f32 * WIDTH as f32);
    assert_eq!(BACKGROUND_RESPAWN_X as f32, 6.8_f32 * WIDTH as f32 - 2.0);
}

#[test]
fn indices_left_of_nothing() {
    assert_eq!(indices_left_of(&vec![], 0), Vec::<usize>::new());
}

#[test]
fn indices_left_of_keeps_the_order() {
    let xs = vec![5, -7, 0, -1, 12, -300];
    assert_eq!(indices_left_of(&xs, 0), vec![1, 3, 5]);
    assert_eq!(indices_left_of(&xs, -7), vec![5]);
    assert_eq!(indices_left_of(&xs, 13), vec![0, 1, 2, 3, 4, 5]);
    assert_eq!(indices_left_of(&xs, -300), Vec::<usize>::new());
}

#[test]
fn indices_left_of_is_strict() {
    assert_eq!(indices_left_of(&vec![10, 10, 9], 10), vec![2]);
}

#[test]
fn indices_left_of_at_the_ends_of_the_range() {
    let xs = vec![i64::MIN, i64::MAX, 0];
    assert_eq!(indices_left_of(&xs, i64::MIN), Vec::<usize>::new());
    assert_eq!(indices_left_of(&xs, i64::MAX), vec![0, 2]);
}

#[test]
fn destroy_obstacles_behind_the_border() {
    let xs = vec![400, -399, -400, -401, -1000];
    assert_eq!(destroy_obstacles(&xs, WIDTH), vec![3, 4]);
}

#[test]
fn destroy_obstacles_on_a_wider_field() {
    let xs = vec![-400, -900, -901, 0];
    assert_eq!(destroy_obstacles(&xs, 1000), vec![2]);
}

#[test]
fn destroy_obstacles_on_a_field_narrower_than_the_margin() {
    let xs = vec![39, 40, 41];
    assert_eq!(destroy_obstacles(&xs, 60), vec![0]);
    assert_eq!(destroy_obstacles(&xs, 0), vec![0, 1, 2]);
}

#[test]
fn destroy_obstacles_on_the_widest_field() {
    let xs = vec![-4_294_967_195, -4_294_967_196];
    assert_eq!(destroy_obstacles(&xs, u32::MAX), vec![1]);
}

#[test]
fn infinite_scroll_behind_a_full_width() {
    let xs = vec![0, -3399, -3400, -3401, 3398];
    assert_eq!(infinite_scroll(&xs), vec![3]);
}

#[test]
fn infinite_scroll_leaves_fresh_pictures() {
    let xs = vec![0, BACKGROUND_RESPAWN_X as i64];
    assert_eq!(infinite_scroll(&xs), Vec::<usize>::new());
}

#[test]
fn what_is_gone_was_left_of_the_bird() {
    let xs = vec![-101, -450, 300, -400, -401, -100, -99];
    let gone = destroy_obstacles(&xs, WIDTH);
    let passed = indices_left_of(&xs, -(SPRITE_SIZE as i64));
    assert_eq!(gone, vec![1, 4]);
    assert_eq!(passed, vec![0, 1, 3, 4]);
    assert!(gone.iter().all(|i| passed.contains(i)));
}

fn column(x: f32) -> i64 {
    if x.is_nan() {
        i64::MAX
    } else {
        x.floor() as i64
    }
}

#[test]
fn rounding_down_keeps_the_side_of_a_border() {
    let xs = [
        -401.0_f32,
        -400.5,
        -400.00003,
        -400.0,
        -399.99997,
        -399.5,
        0.0,
        -0.0,
        399.0,
        -1.0e30,
        1.0e30,
        f32::MIN,
        f32::MAX,
        f32::NEG_INFINITY,
        f32::INFINITY,
        f32::NAN,
    ];
    for x in xs {
        let gone = destroy_obstacles(&vec![column(x)], WIDTH) == vec![0];
        assert_eq!(gone, x < -(WIDTH as f32 - 100.0));
        let used = infinite_scroll(&vec![column(x * 8.5)]) == vec![0];
        assert_eq!(used, x * 8.5 < -6.8 * WIDTH as f32);
    }
}
