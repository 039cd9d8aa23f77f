use monster_fighter::geometry::TilePos;
use monster_fighter::graphics::FacingDirection;
use monster_fighter::player::{
    basic_player_movement, camera_follow, door_collision, grass_collision, encounter_tick,
    overworld_frame, spawn_player, wall_collision_check, Camera, EncounterTracker, MoveKeys,
    Player,
};
use monster_fighter::tilemap::{load_map, Door};

fn fresh_player() -> Player {
    let (mut p, _, _) = spawn_player();
    p.x = 0;
    p.y = 0;
    p
}

#[test]
fn blocked_x_keeps_x_while_y_still_moves() {
    // a single collider directly to the right
    let walls = vec![TilePos { x: 1000, y: 0 }];
    let mut p = fresh_player();
    let keys = MoveKeys { up: true, down: false, left: false, right: true };
    // speed 6 units/ms for 100 ms: 600 units, into the wall
    basic_player_movement(&mut p, keys, 100, &walls);
    assert_eq!(p.x, 0, "the x move into the collider must be rejected");
    assert_eq!(p.y, 600, "the y move is validated independently and succeeds");
    assert!(p.just_moved);
    assert_eq!(p.current_direction, FacingDirection::Right);
}

#[test]
fn blocked_x_allows_left_in_same_frame() {
    let walls = vec![TilePos { x: 1000, y: 0 }];
    let mut p = fresh_player();
    let keys = MoveKeys { up: false, down: false, left: true, right: false };
    basic_player_movement(&mut p, keys, 100, &walls);
    assert_eq!(p.x, -600, "moving away from the collider succeeds");
    assert_eq!(p.y, 0);
}

#[test]
fn free_move_commits_both_axes() {
    let walls: Vec<TilePos> = Vec::new();
    let mut p = fresh_player();
    let keys = MoveKeys { up: false, down: true, left: true, right: false };
    basic_player_movement(&mut p, keys, 50, &walls);
    assert_eq!(p.x, -300);
    assert_eq!(p.y, -300);
    assert!(p.just_moved);
    assert_eq!(p.current_direction, FacingDirection::Left);
}

#[test]
fn inactive_player_does_not_move() {
    let walls: Vec<TilePos> = Vec::new();
    let mut p = fresh_player();
    p.active = false;
    p.just_moved = true;
    let keys = MoveKeys { up: false, down: false, left: false, right: true };
    basic_player_movement(&mut p, keys, 100, &walls);
    assert_eq!(p.x, 0);
    assert_eq!(p.y, 0);
    assert!(!p.just_moved, "the moved flag clears even while inactive");
}

#[test]
fn facing_updates_even_when_blocked() {
    // surrounded on the right; the rejected move still turns the player
    let walls = vec![TilePos { x: 1000, y: 0 }];
    let mut p = fresh_player();
    p.current_direction = FacingDirection::Up;
    let keys = MoveKeys { up: false, down: false, left: false, right: true };
    basic_player_movement(&mut p, keys, 100, &walls);
    assert_eq!(p.x, 0);
    assert!(!p.just_moved);
    assert_eq!(p.current_direction, FacingDirection::Right);
}

#[test]
fn touching_edges_do_not_collide() {
    // wall box edge at 500, hitbox edge at 500: open boxes do not meet
    let walls = vec![TilePos { x: 1000, y: 0 }];
    assert!(wall_collision_check(50, 0, 450, &walls));
    assert!(!wall_collision_check(51, 0, 450, &walls));
}

#[test]
fn encounter_timer_needs_movement_and_grass() {
    let mut t = EncounterTracker::new(1000, 500, 2500);
    assert!(!encounter_tick(&mut t, false, true, 400));
    assert_eq!(t.elapsed_ms, 0, "no progress without movement");
    assert!(!encounter_tick(&mut t, true, false, 400));
    assert_eq!(t.elapsed_ms, 0, "no progress off the grass");
    assert!(!encounter_tick(&mut t, true, true, 400));
    assert_eq!(t.elapsed_ms, 400, "progress on a moved frame on grass");
}

#[test]
fn encounter_fires_and_redraws_threshold_in_range() {
    let mut t = EncounterTracker::new(1000, 500, 2500);
    assert!(!encounter_tick(&mut t, true, true, 999));
    let fired = encounter_tick(&mut t, true, true, 1);
    assert!(fired, "the timer fires exactly at its threshold");
    assert_eq!(t.elapsed_ms, 0, "the timer resets on firing");
    assert!(t.threshold_ms >= 500 && t.threshold_ms < 2500, "the new threshold is drawn from [min, max)");
    assert_eq!(t.min_ms, 500);
    assert_eq!(t.max_ms, 2500);
}

#[test]
fn encounter_threshold_draw_is_exact_on_singleton_range() {
    // a one-value range pins the random draw completely
    let mut t = EncounterTracker::new(5, 5, 6);
    assert!(encounter_tick(&mut t, true, true, 5));
    assert_eq!(t.threshold_ms, 5);
}

#[test]
fn grass_collision_uses_the_hitbox() {
    let input: Vec<Vec<u8>> = vec![b"G".to_vec()];
    let map = load_map(&input).unwrap();
    let grass = map.grass_tiles();
    let mut t = EncounterTracker::new(1000, 500, 2500);
    let mut p = fresh_player();
    p.just_moved = true;
    assert!(!grass_collision(&mut t, &p, &grass, 100));
    assert_eq!(t.elapsed_ms, 100, "standing on grass accumulates");
    p.x = 5000;
    assert!(!grass_collision(&mut t, &p, &grass, 100));
    assert_eq!(t.elapsed_ms, 100, "far from grass nothing accumulates");
}

#[test]
fn door_contact_deactivates_and_reports_exits() {
    let input: Vec<Vec<u8>> = vec![b"/cave.txt 3 4".to_vec(), b"D".to_vec()];
    let map = load_map(&input).unwrap();
    let doors = map.door_tiles();
    let mut p = fresh_player();
    let exits: Vec<Door> = door_collision(&mut p, &doors);
    assert_eq!(exits.len(), 1);
    assert_eq!(exits[0].path, b"cave.txt".to_vec());
    assert_eq!(exits[0].new_x, 3);
    assert_eq!(exits[0].new_y, 4);
    assert!(!p.active, "door contact disables the player for the fade");
}

#[test]
fn no_door_contact_keeps_player_active() {
    let input: Vec<Vec<u8>> = vec![b"/cave.txt 3 4".to_vec(), b"D".to_vec()];
    let map = load_map(&input).unwrap();
    let doors = map.door_tiles();
    let mut p = fresh_player();
    p.x = 9000;
    let exits = door_collision(&mut p, &doors);
    assert_eq!(exits.len(), 0);
    assert!(p.active);
}

#[test]
fn inactive_player_skips_door_checks() {
    let input: Vec<Vec<u8>> = vec![b"/cave.txt 3 4".to_vec(), b"D".to_vec()];
    let map = load_map(&input).unwrap();
    let doors = map.door_tiles();
    let mut p = fresh_player();
    p.active = false;
    let exits = door_collision(&mut p, &doors);
    assert_eq!(exits.len(), 0);
}

#[test]
fn spawn_player_starting_state() {
    let (p, sprite, tracker) = spawn_player();
    assert_eq!(p.x, 12000);
    assert_eq!(p.y, -2000);
    assert_eq!(p.speed, 6);
    assert_eq!(p.hitbox_half, 450);
    assert_eq!(p.current_direction, FacingDirection::Down);
    assert!(p.active);
    assert!(!p.just_moved);
    assert_eq!(sprite.period_ms, 200);
    assert_eq!(tracker.threshold_ms, 1000);
    assert_eq!(tracker.min_ms, 500);
    assert_eq!(tracker.max_ms, 2500);
}

#[test]
fn overworld_frame_walks_into_an_encounter() {
    // a grass tile directly to the right of the player
    let input: Vec<Vec<u8>> = vec![b".G".to_vec()];
    let map = load_map(&input).unwrap();
    let walls = map.collider_tiles();
    let grass = map.grass_tiles();
    let doors = map.door_tiles();
    let mut p = fresh_player();
    let mut t = EncounterTracker::new(300, 200, 400);
    let right = MoveKeys { up: false, down: false, left: false, right: true };
    // frame 1: step right onto the grass tile; 100 ms accumulate
    let ev = overworld_frame(&mut p, &mut t, right, 100, &walls, &grass, &doors);
    assert_eq!(p.x, 600);
    assert!(!ev.encounter);
    assert_eq!(t.elapsed_ms, 100);
    assert_eq!(ev.exits.len(), 0);
    // frames 2-3: still on grass; the 300 ms threshold is reached
    let ev = overworld_frame(&mut p, &mut t, right, 100, &walls, &grass, &doors);
    assert!(!ev.encounter);
    let ev = overworld_frame(&mut p, &mut t, right, 100, &walls, &grass, &doors);
    assert!(ev.encounter, "three moved frames on grass complete the timer");
    assert_eq!(t.elapsed_ms, 0);
    assert!(t.threshold_ms >= 200 && t.threshold_ms < 400);
    assert!(p.active, "an encounter does not itself disable the player");
}

#[test]
fn overworld_frame_walks_into_a_door() {
    let input: Vec<Vec<u8>> = vec![b"/hut.txt 1 1".to_vec(), b".D".to_vec()];
    let map = load_map(&input).unwrap();
    let walls = map.collider_tiles();
    let grass = map.grass_tiles();
    let doors = map.door_tiles();
    let mut p = fresh_player();
    let mut t = EncounterTracker::new(1000, 500, 2500);
    let right = MoveKeys { up: false, down: false, left: false, right: true };
    let ev = overworld_frame(&mut p, &mut t, right, 100, &walls, &grass, &doors);
    assert_eq!(p.x, 600, "movement commits before the door check reads the position");
    assert_eq!(ev.exits.len(), 1, "the updated hitbox already reaches the door tile");
    assert_eq!(ev.exits[0].path, b"hut.txt".to_vec());
    assert!(!p.active, "door contact disables the player");
}

#[test]
fn camera_tracks_player() {
    let mut cam = Camera { x: 0, y: 0 };
    let mut p = fresh_player();
    p.x = 777;
    p.y = -333;
    camera_follow(&mut cam, &p);
    assert_eq!((cam.x, cam.y), (777, -333));
}
