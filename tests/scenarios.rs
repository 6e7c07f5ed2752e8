use circle_dodge::circle::BlueCircle;
use circle_dodge::collision::circles_overlap;
use circle_dodge::input::{intent, FrameInput, Keys};
use circle_dodge::player::Player;
use circle_dodge::render::{background, circle_color, player_color, to_pixel, Rgb};
use circle_dodge::scene::{spawn_coordinate, Scene, CIRCLE_COUNT};
use circle_dodge::screen::{clamp_axis, CENTER_X, CENTER_Y, SCREEN_HEIGHT, SCREEN_WIDTH};

fn no_keys() -> Keys {
    Keys { up: false, left: false, down: false, right: false }
}

fn circle(x: i32, y: i32, radius: i32, speed_x: i32, speed_y: i32) -> BlueCircle {
    BlueCircle { x, y, radius, speed_x, speed_y }
}

#[test]
fn player_moves_up_one_step() {
    let mut p = Player::new(400, 300);
    assert_eq!(p.radius, 10);
    assert_eq!(p.speed, 5);
    p.update(0, -1);
    assert_eq!((p.x, p.y), (400, 295));
}

#[test]
fn player_clamped_at_left_edge() {
    let mut p = Player::new(5, 300);
    p.update(-1, 0);
    assert_eq!((p.x, p.y), (10, 300));
}

#[test]
fn player_clamped_at_right_and_bottom_edges() {
    let mut p = Player::new(797, 598);
    p.update(1, 1);
    assert_eq!((p.x, p.y), (790, 590));
}

#[test]
fn player_diagonal_move_is_not_normalised() {
    let mut p = Player::new(400, 300);
    p.update(1, 1);
    assert_eq!((p.x, p.y), (405, 305));
}

#[test]
fn player_stays_on_screen_whatever_the_intent() {
    let mut p = Player::new(400, 300);
    for _ in 0..200 {
        p.update(-1, 1);
        assert!(p.radius <= p.x && p.x <= SCREEN_WIDTH - p.radius);
        assert!(p.radius <= p.y && p.y <= SCREEN_HEIGHT - p.radius);
    }
    assert_eq!((p.x, p.y), (10, 590));
    let mut far = Player { x: i32::MIN, y: i32::MAX, radius: 10, speed: i32::MAX };
    far.update(-1, 1);
    assert_eq!((far.x, far.y), (10, 590));
}

#[test]
fn clamp_axis_snaps_to_either_edge() {
    assert_eq!(clamp_axis(-3, 10, 800), 10);
    assert_eq!(clamp_axis(795, 10, 800), 790);
    assert_eq!(clamp_axis(400, 10, 800), 400);
}

#[test]
fn circle_bounces_off_right_edge() {
    let mut c = circle(798, 300, 15, 3, 0);
    c.update();
    assert_eq!((c.x, c.y), (801, 300));
    assert_eq!(c.speed_x, -3);
    assert_eq!(c.speed_y, 0);
    c.update();
    assert_eq!((c.x, c.y), (798, 300));
}

#[test]
fn circle_keeps_speed_away_from_edges() {
    let mut c = BlueCircle::new(400, 300);
    assert_eq!((c.radius, c.speed_x, c.speed_y), (15, 3, 3));
    c.update();
    assert_eq!((c.x, c.y, c.speed_x, c.speed_y), (403, 303, 3, 3));
}

#[test]
fn circle_reflects_each_axis_independently() {
    let mut c = circle(20, 590, 15, -3, 3);
    c.update();
    assert_eq!((c.x, c.y), (17, 593));
    assert_eq!(c.speed_x, -3);
    assert_eq!(c.speed_y, -3);
    c.update();
    assert_eq!((c.x, c.y), (14, 590));
    assert_eq!(c.speed_x, 3);
    assert_eq!(c.speed_y, 3);
}

#[test]
fn collision_resets_player_to_centre() {
    let mut s = Scene {
        player: Player { x: 410, y: 300, radius: 10, speed: 5 },
        circles: vec![circle(400, 300, 15, 3, 3)],
    };
    s.resolve_collisions();
    assert_eq!((s.player.x, s.player.y), (400, 300));
    assert_eq!((CENTER_X, CENTER_Y), (400, 300));
}

#[test]
fn several_collisions_make_one_reset() {
    let mut s = Scene {
        player: Player { x: 100, y: 100, radius: 10, speed: 5 },
        circles: vec![
            circle(105, 100, 15, 3, 3),
            circle(500, 500, 15, 3, 3),
            circle(100, 110, 15, -3, 3),
        ],
    };
    s.resolve_collisions();
    assert_eq!((s.player.x, s.player.y), (400, 300));
    assert_eq!(s.player.radius, 10);
    assert_eq!(s.player.speed, 5);
    assert_eq!(s.circles.len(), 3);
    assert_eq!(s.circles[0], circle(105, 100, 15, 3, 3));
}

#[test]
fn touching_circles_do_not_collide() {
    assert!(!circles_overlap(0, 0, 10, 25, 0, 15));
    assert!(circles_overlap(0, 0, 10, 24, 0, 15));
    assert!(!circles_overlap(0, 0, 10, 15, 20, 15));
    assert!(circles_overlap(0, 0, 10, 14, 20, 15));
    assert!(!circles_overlap(0, 0, 0, 0, 0, 0));
}

#[test]
fn overlap_is_symmetric() {
    let cases = [(0, 0, 10, 24, 0, 15), (3, 4, 1, 0, 0, 4), (i32::MIN, 0, 5, i32::MAX, 0, 7)];
    for (ax, ay, ar, bx, by, br) in cases {
        assert_eq!(circles_overlap(ax, ay, ar, bx, by, br), circles_overlap(bx, by, br, ax, ay, ar));
    }
    assert!(!circles_overlap(i32::MIN, i32::MIN, i32::MAX, i32::MAX, i32::MAX, 0));
}

#[test]
fn no_collision_leaves_player_in_place() {
    let mut s = Scene {
        player: Player { x: 100, y: 100, radius: 10, speed: 5 },
        circles: vec![circle(300, 300, 15, 3, 3)],
    };
    s.resolve_collisions();
    assert_eq!((s.player.x, s.player.y), (100, 100));
}

#[test]
fn step_moves_everything_then_checks_collisions() {
    let mut s = Scene {
        player: Player { x: 100, y: 100, radius: 10, speed: 5 },
        circles: vec![circle(130, 100, 15, -3, 0), circle(700, 500, 15, 3, 3)],
    };
    s.step(1, 0);
    assert_eq!(s.circles[0], circle(127, 100, 15, -3, 0));
    assert_eq!(s.circles[1], circle(703, 503, 15, 3, 3));
    assert_eq!((s.player.x, s.player.y), (400, 300));
}

#[test]
fn step_without_collision_only_moves() {
    let mut s = Scene {
        player: Player { x: 100, y: 100, radius: 10, speed: 5 },
        circles: vec![circle(700, 500, 15, 3, 3)],
    };
    s.step(0, 1);
    assert_eq!((s.player.x, s.player.y), (100, 105));
}

#[test]
fn quit_stops_before_any_update() {
    let mut s = Scene::new(&vec![(10, 20), (30, 40)]);
    let before_circles = s.circles.clone();
    let before_player = s.player;
    let keys = Keys { up: true, left: false, down: false, right: true };
    let running = s.frame(&FrameInput { quit: true, keys });
    assert!(!running);
    assert_eq!(s.player, before_player);
    assert_eq!(s.circles, before_circles);
}

#[test]
fn frame_without_quit_advances() {
    let mut s = Scene::new(&vec![(10, 20)]);
    let keys = Keys { up: true, left: false, down: false, right: true };
    let running = s.frame(&FrameInput { quit: false, keys });
    assert!(running);
    assert_eq!((s.player.x, s.player.y), (405, 295));
    assert_eq!(s.circles[0], circle(13, 23, 15, -3, 3));
}

#[test]
fn intent_from_keys() {
    assert_eq!(intent(&no_keys()), (0, 0));
    assert_eq!(intent(&Keys { up: true, left: false, down: false, right: false }), (0, -1));
    assert_eq!(intent(&Keys { up: false, left: true, down: true, right: false }), (-1, 1));
    assert_eq!(intent(&Keys { up: true, left: true, down: true, right: true }), (0, 0));
    assert_eq!(intent(&Keys { up: false, left: false, down: false, right: true }), (1, 0));
}

#[test]
fn spawn_coordinates_wrap_into_screen() {
    assert_eq!(spawn_coordinate(0, 800), 0);
    assert_eq!(spawn_coordinate(799, 800), 799);
    assert_eq!(spawn_coordinate(800, 800), 0);
    assert_eq!(spawn_coordinate(u32::MAX, 600), (u32::MAX % 600) as i32);
}

#[test]
fn new_scene_from_draws() {
    let s = Scene::new(&vec![(1000, 650), (5, 7)]);
    assert_eq!(s.player, Player::new(400, 300));
    assert_eq!(s.circles, vec![BlueCircle::new(200, 50), BlueCircle::new(5, 7)]);
    assert!(Scene::new(&Vec::new()).circles.is_empty());
}

#[test]
fn new_random_scene_is_on_screen() {
    let s = Scene::new_random();
    assert_eq!(s.circles.len(), CIRCLE_COUNT);
    assert_eq!(CIRCLE_COUNT, 10);
    assert_eq!((s.player.x, s.player.y), (400, 300));
    for c in &s.circles {
        assert!(0 <= c.x && c.x < SCREEN_WIDTH);
        assert!(0 <= c.y && c.y < SCREEN_HEIGHT);
        assert_eq!((c.radius, c.speed_x, c.speed_y), (15, 3, 3));
    }
}

#[test]
fn discs_player_first_then_circles() {
    let s = Scene {
        player: Player { x: 40000, y: -40000, radius: 10, speed: 5 },
        circles: vec![circle(1, 2, 15, 3, 3), circle(3, 4, 15, 3, 3)],
    };
    let ds = s.discs();
    assert_eq!(ds.len(), 3);
    assert_eq!((ds[0].x, ds[0].y, ds[0].radius), (i16::MAX, i16::MIN, 10));
    assert_eq!(ds[0].color, player_color());
    assert_eq!((ds[1].x, ds[1].y, ds[1].radius), (1, 2, 15));
    assert_eq!((ds[2].x, ds[2].y), (3, 4));
    assert_eq!(ds[2].color, circle_color());
}

#[test]
fn colours_are_fixed() {
    assert_eq!(background(), Rgb { r: 0, g: 0, b: 0 });
    assert_eq!(player_color(), Rgb { r: 255, g: 0, b: 0 });
    assert_eq!(circle_color(), Rgb { r: 0, g: 0, b: 255 });
    assert_eq!(to_pixel(123), 123);
    assert_eq!(to_pixel(-70000), i16::MIN);
}
