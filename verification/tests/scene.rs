use parallax::scene::{
    initialize_background, initialize_bird, BGPosition, Background, Bird, ARENA_HEIGHT,
    ARENA_WIDTH, BACKGROUND_IMAGE_HEIGHT, BACKGROUND_IMAGE_WIDTH, BIRD_IMAGE_HEIGHT,
    BIRD_IMAGE_WIDTH, BOTTOM_IMAGE_HEIGHT, BOTTOM_IMAGE_WIDTH, BOTTOM_LOOP_POSITION, BOTTOM_SPEED,
    MIDDLE_LOOP_POSITION, MIDDLE_SPEED,
};

#[test]
fn bird_new_sets_fields() {
    let bird = Bird::new(38_000, 24_000, 144_000, 256_000);
    assert_eq!(bird.width, 38_000);
    assert_eq!(bird.height, 24_000);
    assert_eq!(bird.top, 144_000);
    assert_eq!(bird.left, 256_000);
}

#[test]
fn background_new_sets_fields() {
    let bg = Background::new(BGPosition::Bottom, 1_100_000, 16_000, 128, 200_000);
    assert!(bg.position == BGPosition::Bottom);
    assert_eq!(bg.width, 1_100_000);
    assert_eq!(bg.height, 16_000);
    assert_eq!(bg.speed, 128);
    assert_eq!(bg.loop_position, 200_000);
}

#[test]
fn initialize_bird_centers_player() {
    let bird = initialize_bird();
    assert_eq!(bird.width, BIRD_IMAGE_WIDTH);
    assert_eq!(bird.height, BIRD_IMAGE_HEIGHT);
    assert_eq!(bird.top, ARENA_HEIGHT / 2);
    assert_eq!(bird.left, ARENA_WIDTH / 2);
    // The arena is 512 x 288 world units, so the center in milliunits:
    assert_eq!(bird.left, 256_000);
    assert_eq!(bird.top, 144_000);
}

#[test]
fn initialize_background_spawns_both_strips() {
    let entities = initialize_background();
    assert_eq!(entities.len(), 2);

    let (middle, middle_coordinate) = &entities[0];
    assert!(middle.position == BGPosition::Middle);
    assert_eq!(middle.width, BACKGROUND_IMAGE_WIDTH);
    assert_eq!(middle.height, BACKGROUND_IMAGE_HEIGHT);
    assert_eq!(middle.speed, MIDDLE_SPEED);
    assert_eq!(middle.loop_position, MIDDLE_LOOP_POSITION);
    // The strip starts centered: half of 1157.0 world units.
    assert_eq!(*middle_coordinate, 578_500);

    let (bottom, bottom_coordinate) = &entities[1];
    assert!(bottom.position == BGPosition::Bottom);
    assert_eq!(bottom.width, BOTTOM_IMAGE_WIDTH);
    assert_eq!(bottom.height, BOTTOM_IMAGE_HEIGHT);
    assert_eq!(bottom.speed, BOTTOM_SPEED);
    assert_eq!(bottom.loop_position, BOTTOM_LOOP_POSITION);
    assert_eq!(*bottom_coordinate, 550_000);
}

#[test]
fn scene_constants_are_fixed_point() {
    assert_eq!(MIDDLE_SPEED, 64);
    assert_eq!(BOTTOM_SPEED, 128);
    assert_eq!(MIDDLE_LOOP_POSITION, 412_000);
    assert_eq!(BOTTOM_LOOP_POSITION, 200_000);
    assert_eq!(ARENA_WIDTH, 512_000);
    assert_eq!(ARENA_HEIGHT, 288_000);
}
