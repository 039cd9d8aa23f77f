use monster_fighter::audio::{
    check_audio_loading, play_single_sound, temp_volume_control, AudioClip, AudioState,
    PlaybackStatus,
};
use monster_fighter::fade::{create_fadeout, fadeout, FadeEvent, ScreenFade};
use monster_fighter::graphics::{
    animate_player, animate_sprite, load_player_animations, AnimatedSprite, FacingDirection,
};
use monster_fighter::nine_sprite::{setup_nine_sprite, spawn_nine_sprite};
use monster_fighter::player::spawn_player;
use monster_fighter::text::{create_text, format_i64, health_text};

#[test]
fn health_text_renders_decimals() {
    assert_eq!(health_text(0), b"Health: 0".to_vec());
    assert_eq!(health_text(20), b"Health: 20".to_vec());
    assert_eq!(health_text(-5), b"Health: -5".to_vec());
}

#[test]
fn format_i64_matches_decimal() {
    assert_eq!(format_i64(0), b"0".to_vec());
    assert_eq!(format_i64(1234567), b"1234567".to_vec());
    assert_eq!(format_i64(-1), b"-1".to_vec());
    assert_eq!(format_i64(i64::MAX), b"9223372036854775807".to_vec());
    assert_eq!(format_i64(i64::MIN), b"-9223372036854775808".to_vec());
}

#[test]
fn text_layout_advances_one_tile_per_glyph() {
    let glyphs = create_text(&b"Run".to_vec());
    assert_eq!(glyphs.len(), 3);
    assert_eq!((glyphs[0].index, glyphs[0].dx), (b'R', 0));
    assert_eq!((glyphs[1].index, glyphs[1].dx), (b'u', 1000));
    assert_eq!((glyphs[2].index, glyphs[2].dx), (b'n', 2000));
}

#[test]
fn nine_sprite_indices_table() {
    let ind = setup_nine_sprite();
    assert_eq!(ind.upper_left_index, 218);
    assert_eq!(ind.upper_right_index, 191);
    assert_eq!(ind.lower_left_index, 192);
    assert_eq!(ind.lower_right_index, 217);
    assert_eq!(ind.horizontal_index, 196);
    assert_eq!(ind.vertical_index, 179);
}

#[test]
fn nine_sprite_minimal_panel_has_no_stretch() {
    let ind = setup_nine_sprite();
    let sprites = spawn_nine_sprite(ind, 2000, 2000);
    assert_eq!(sprites.len(), 8);
    // corners half a tile inside the panel corners
    assert_eq!((sprites[0].x, sprites[0].y), (-500, 500));
    assert_eq!((sprites[5].x, sprites[5].y), (500, 500));
    assert_eq!((sprites[2].x, sprites[2].y), (-500, -500));
    assert_eq!((sprites[7].x, sprites[7].y), (500, -500));
    // a two-by-two tile panel leaves nothing for the edges to span
    assert_eq!(sprites[1].scale_y_pm, 0);
    assert_eq!(sprites[3].scale_x_pm, 0);
}

#[test]
fn nine_sprite_button_panel_layout() {
    let ind = setup_nine_sprite();
    let sprites = spawn_nine_sprite(ind, 7000, 3000);
    assert_eq!(sprites.len(), 8);
    assert_eq!((sprites[0].index, sprites[0].x, sprites[0].y), (218, -3000, 1000));
    assert_eq!((sprites[1].index, sprites[1].scale_y_pm), (179, 1000));
    assert_eq!((sprites[3].index, sprites[3].scale_x_pm), (196, 5000));
    assert_eq!((sprites[4].x, sprites[4].y), (0, 1000));
    assert_eq!((sprites[7].x, sprites[7].y), (3000, -1000));
    for s in &sprites {
        assert_eq!((s.color.r, s.color.g, s.color.b), (300, 300, 900));
    }
}

#[test]
fn fade_fires_once_past_the_midpoint() {
    let (mut player, _, _) = spawn_player();
    let mut f: ScreenFade = create_fadeout(FadeEvent::Combat, 300);
    let frame = fadeout(&mut f, &mut player, 150);
    assert!(!frame.fired, "exactly half way is not yet past the midpoint");
    assert_eq!(frame.alpha_pm, 1000, "the cover is fully opaque at the midpoint");
    assert!(!player.active, "a running fade suppresses the player");
    let frame = fadeout(&mut f, &mut player, 30);
    assert!(frame.fired, "the event fires on the first frame past the midpoint");
    assert!(matches!(f.event, FadeEvent::Combat));
    let frame = fadeout(&mut f, &mut player, 30);
    assert!(!frame.fired, "the event fires exactly once");
    let frame = fadeout(&mut f, &mut player, 1000);
    assert!(frame.finished, "overshooting the duration completes the fade");
    assert_eq!(frame.alpha_pm, 0);
    assert!(player.active, "completion restores player control");
}

#[test]
fn fade_alpha_ramps_up_then_down() {
    let (mut player, _, _) = spawn_player();
    let mut f = create_fadeout(FadeEvent::Combat, 1000);
    let frame = fadeout(&mut f, &mut player, 250);
    assert_eq!(frame.alpha_pm, 500);
    let frame = fadeout(&mut f, &mut player, 500);
    assert_eq!(frame.alpha_pm, 500);
    assert!(frame.fired);
}

#[test]
fn fade_carries_a_door_exit() {
    let input: Vec<Vec<u8>> = vec![b"/cave.txt 3 4".to_vec(), b"D".to_vec()];
    let map = monster_fighter::tilemap::load_map(&input).unwrap();
    let doors = map.door_tiles();
    let (mut player, _, _) = spawn_player();
    player.x = 0;
    player.y = 0;
    let exits = monster_fighter::player::door_collision(&mut player, &doors);
    let mut f = create_fadeout(FadeEvent::Exit(exits.into_iter().next().unwrap()), 300);
    fadeout(&mut f, &mut player, 200);
    match &f.event {
        FadeEvent::Exit(door) => {
            assert_eq!(door.path, b"cave.txt".to_vec());
            assert_eq!((door.new_x, door.new_y), (3, 4));
        },
        FadeEvent::Combat => panic!("the fade must carry the door exit"),
    }
}

#[test]
fn volume_steps_and_clamps() {
    let mut state = AudioState { main_volume_pm: 500 };
    temp_volume_control(&mut state, true, false);
    assert_eq!(state.main_volume_pm, 600);
    temp_volume_control(&mut state, false, true);
    assert_eq!(state.main_volume_pm, 500);
    temp_volume_control(&mut state, true, true);
    assert_eq!(state.main_volume_pm, 500, "both keys cancel out");
    let mut low = AudioState { main_volume_pm: 0 };
    temp_volume_control(&mut low, false, true);
    assert_eq!(low.main_volume_pm, 0, "the volume clamps at silence");
    let mut high = AudioState { main_volume_pm: 1000 };
    temp_volume_control(&mut high, true, false);
    assert_eq!(high.main_volume_pm, 1000, "the volume clamps at full");
}

#[test]
fn sounds_wait_for_loading_and_do_not_overlap() {
    let unloaded = AudioClip { loaded: false, status: PlaybackStatus::NoInstance };
    assert!(!play_single_sound(&unloaded), "an unloaded clip never plays");
    let fresh = AudioClip { loaded: true, status: PlaybackStatus::NoInstance };
    assert!(play_single_sound(&fresh));
    let playing = AudioClip { loaded: true, status: PlaybackStatus::Playing };
    assert!(!play_single_sound(&playing), "one instance per clip at a time");
    let stopped = AudioClip { loaded: true, status: PlaybackStatus::Stopped };
    assert!(play_single_sound(&stopped));
}

#[test]
fn loading_flag_latches() {
    let mut clip = AudioClip { loaded: false, status: PlaybackStatus::NoInstance };
    check_audio_loading(&mut clip, false);
    assert!(!clip.loaded);
    check_audio_loading(&mut clip, true);
    assert!(clip.loaded);
    check_audio_loading(&mut clip, false);
    assert!(clip.loaded, "a loaded clip stays loaded");
}

#[test]
fn sprite_timer_advances_frames() {
    let mut s = AnimatedSprite { current_frame: 0, elapsed_ms: 0, period_ms: 200 };
    animate_sprite(&mut s, 150);
    assert_eq!(s.current_frame, 0);
    assert_eq!(s.elapsed_ms, 150);
    animate_sprite(&mut s, 60);
    assert_eq!(s.current_frame, 1, "crossing the period steps the frame");
    assert_eq!(s.elapsed_ms, 10, "the timer keeps the remainder");
}

#[test]
fn player_walk_cycle_follows_facing_and_frame() {
    let animations = load_player_animations();
    assert_eq!(animate_player(&animations, FacingDirection::Down, 0), 3);
    assert_eq!(animate_player(&animations, FacingDirection::Down, 4), 4);
    assert_eq!(animate_player(&animations, FacingDirection::Up, 2), 41);
    assert_eq!(animate_player(&animations, FacingDirection::Left, 3), 15);
    assert_eq!(animate_player(&animations, FacingDirection::Right, 5), 29);
}
