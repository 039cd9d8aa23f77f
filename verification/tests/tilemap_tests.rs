use monster_fighter::tilemap::{
    glyph_kind, load_map, parse_i32, render_grid, sprite_lookup, MapError, TileKind,
};
use monster_fighter::player::spawn_player;

fn lines(xs: &[&str]) -> Vec<Vec<u8>> {
    xs.iter().map(|s| s.as_bytes().to_vec()).collect()
}

#[test]
fn load_simple_grid() {
    let input = lines(&["###", ".G.", "###"]);
    let map = load_map(&input).expect("grid should load");
    assert_eq!(map.rows.len(), 3);
    assert_eq!(map.rows[0].len(), 3);
    assert_eq!(map.rows[1][1].glyph, b'G');
    assert_eq!(map.rows[1][1].col, 1);
    assert_eq!(map.rows[1][1].row, 1);
    assert!(map.rows[1][1].door.is_none());
}

#[test]
fn door_count_must_balance_missing_declaration() {
    // one D tile, no declaration: fails deterministically
    let input = lines(&["#D#"]);
    assert_eq!(load_map(&input).unwrap_err(), MapError::MissingDoorExit);
}

#[test]
fn door_count_must_balance_unused_declaration() {
    // one declaration, no D tile: fails deterministically
    let input = lines(&["/cave.txt 1 2", "###"]);
    assert_eq!(load_map(&input).unwrap_err(), MapError::UnusedDoorExits);
}

#[test]
fn door_count_balanced_loads() {
    let input = lines(&["/cave.txt 4 7", "#D#"]);
    let map = load_map(&input).expect("balanced doors should load");
    let door = map.rows[0][1].door.as_ref().expect("D tile carries its door");
    assert_eq!(door.path, b"cave.txt".to_vec());
    assert_eq!(door.new_x, 4);
    assert_eq!(door.new_y, 7);
}

#[test]
fn doors_consumed_in_scan_order() {
    let input = lines(&["/first.txt 1 1", "/second.txt 2 2", "D.D"]);
    let map = load_map(&input).expect("two doors, two declarations");
    let d0 = map.rows[0][0].door.as_ref().unwrap();
    let d2 = map.rows[0][2].door.as_ref().unwrap();
    assert_eq!(d0.path, b"first.txt".to_vec());
    assert_eq!(d2.path, b"second.txt".to_vec());
}

#[test]
fn declaration_after_door_tile_comes_too_late() {
    // the queue is consumed in scan order: a D before its declaration fails
    let input = lines(&["D..", "/late.txt 0 0"]);
    assert_eq!(load_map(&input).unwrap_err(), MapError::MissingDoorExit);
}

#[test]
fn malformed_declaration_missing_tokens() {
    let input = lines(&["/cave.txt 1", "#D#"]);
    assert_eq!(load_map(&input).unwrap_err(), MapError::BadComment);
}

#[test]
fn malformed_declaration_non_numeric() {
    let input = lines(&["/cave.txt one 2", "#D#"]);
    assert_eq!(load_map(&input).unwrap_err(), MapError::BadComment);
}

#[test]
fn declaration_errors_follow_scan_order() {
    // the D on the first line is reached before the bad declaration below
    let input = lines(&["D..", "/bad one 1"]);
    assert_eq!(load_map(&input).unwrap_err(), MapError::MissingDoorExit);
}

#[test]
fn comment_lines_do_not_shift_rows() {
    let input = lines(&["##", "/a.txt 0 0", "DG"]);
    let map = load_map(&input).expect("should load");
    // the D row is grid row 1, not 2: the declaration line takes no row
    assert_eq!(map.rows.len(), 2);
    assert_eq!(map.rows[1][0].row, 1);
    assert_eq!(map.rows[1][1].glyph, b'G');
}

#[test]
fn mid_row_declaration_ends_tile_parsing() {
    // a `/` later in a row routes the remainder to declaration parsing
    let input = lines(&["#./exit.txt 5 6", "D"]);
    let map = load_map(&input).expect("should load");
    assert_eq!(map.rows.len(), 2);
    assert_eq!(map.rows[0].len(), 2);
    let d = map.rows[1][0].door.as_ref().unwrap();
    assert_eq!(d.path, b"exit.txt".to_vec());
    assert_eq!(d.new_x, 5);
    assert_eq!(d.new_y, 6);
}

#[test]
fn empty_lines_keep_their_row() {
    let input = lines(&["#", "", "#"]);
    let map = load_map(&input).expect("should load");
    assert_eq!(map.rows.len(), 3);
    assert_eq!(map.rows[1].len(), 0);
    assert_eq!(map.rows[2][0].row, 2);
}

#[test]
fn render_round_trip_reproduces_grid() {
    let grid = ["####", "#.G#", "#@W#", "####"];
    let input = lines(&grid);
    let map = load_map(&input).expect("should load");
    let out = render_grid(&map);
    assert_eq!(out, lines(&grid));
}

#[test]
fn render_round_trip_drops_declaration_lines() {
    let input = lines(&["/a.txt 1 2", "#D#", "#.#"]);
    let map = load_map(&input).expect("should load");
    let out = render_grid(&map);
    assert_eq!(out, lines(&["#D#", "#.#"]));
}

#[test]
fn tile_kinds_follow_the_glyph_table() {
    assert_eq!(glyph_kind(b'#'), TileKind::Wall);
    assert_eq!(glyph_kind(b'W'), TileKind::Water);
    assert_eq!(glyph_kind(b'.'), TileKind::Floor);
    assert_eq!(glyph_kind(b'G'), TileKind::Grass);
    assert_eq!(glyph_kind(b'D'), TileKind::Door);
    assert_eq!(glyph_kind(b'q'), TileKind::Misc);
}

#[test]
fn sprite_lookup_follows_the_table() {
    assert_eq!(sprite_lookup(b'#'), 0);
    assert_eq!(sprite_lookup(b'.'), 11);
    assert_eq!(sprite_lookup(b'W'), 4);
    assert_eq!(sprite_lookup(b'D'), 48);
    assert_eq!(sprite_lookup(b'G'), 65);
    assert_eq!(sprite_lookup(b'R'), 8);
    assert_eq!(sprite_lookup(b'T'), 89);
    assert_eq!(sprite_lookup(b'@'), 77);
    assert_eq!(sprite_lookup(b'q'), 37);
}

#[test]
fn collider_and_grass_extraction() {
    let input = lines(&["#W", ".G"]);
    let map = load_map(&input).expect("should load");
    let colliders = map.collider_tiles();
    assert_eq!(colliders.len(), 2);
    assert_eq!((colliders[0].x, colliders[0].y), (0, 0));
    assert_eq!((colliders[1].x, colliders[1].y), (1000, 0));
    let grass = map.grass_tiles();
    assert_eq!(grass.len(), 1);
    assert_eq!((grass[0].x, grass[0].y), (1000, -1000));
}

#[test]
fn door_extraction_carries_world_position() {
    let input = lines(&["/a.txt 9 9", ".D"]);
    let map = load_map(&input).expect("should load");
    let doors = map.door_tiles();
    assert_eq!(doors.len(), 1);
    assert_eq!((doors[0].pos.x, doors[0].pos.y), (1000, 0));
    assert_eq!(doors[0].door.path, b"a.txt".to_vec());
}

#[test]
fn load_exit_repositions_player() {
    let input = lines(&["/a.txt 9 9", ".D"]);
    let map = load_map(&input).expect("should load");
    let doors = map.door_tiles();
    let (mut player, _, _) = spawn_player();
    monster_fighter::tilemap::load_exit(&mut player, &doors[0].door);
    assert_eq!(player.x, 9000);
    assert_eq!(player.y, -9000);
}

#[test]
fn parse_i32_accepts_signs_and_zeros() {
    assert_eq!(parse_i32(&b"5".to_vec()), Some(5));
    assert_eq!(parse_i32(&b"+5".to_vec()), Some(5));
    assert_eq!(parse_i32(&b"-17".to_vec()), Some(-17));
    assert_eq!(parse_i32(&b"007".to_vec()), Some(7));
    assert_eq!(parse_i32(&b"0".to_vec()), Some(0));
    assert_eq!(parse_i32(&b"2147483647".to_vec()), Some(i32::MAX));
    assert_eq!(parse_i32(&b"-2147483648".to_vec()), Some(i32::MIN));
}

#[test]
fn parse_i32_rejects_bad_tokens() {
    assert_eq!(parse_i32(&b"".to_vec()), None);
    assert_eq!(parse_i32(&b"-".to_vec()), None);
    assert_eq!(parse_i32(&b"+".to_vec()), None);
    assert_eq!(parse_i32(&b"--1".to_vec()), None);
    assert_eq!(parse_i32(&b"1a".to_vec()), None);
    assert_eq!(parse_i32(&b"2147483648".to_vec()), None);
    assert_eq!(parse_i32(&b"-2147483649".to_vec()), None);
    assert_eq!(parse_i32(&b"99999999999999999999".to_vec()), None);
}

#[test]
fn empty_file_loads_empty_map() {
    let input: Vec<Vec<u8>> = Vec::new();
    let map = load_map(&input).expect("empty file is an empty map");
    assert_eq!(map.rows.len(), 0);
}
