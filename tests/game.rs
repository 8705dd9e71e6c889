use colony::{
    CoreClientPlugin, Direction, DirectionKeys, FrameInput, Game, GameState, Point3,
};

fn input(assets_ready: bool, keys: DirectionKeys, frame_nanos: u64) -> FrameInput {
    FrameInput { assets_ready, keys, frame_nanos }
}

#[test]
fn loading_waits_for_assets() {
    let mut g = Game::new(GameState::Loading);
    assert_eq!(g.player, None);
    let out = g.frame(input(false, DirectionKeys::only(Direction::Up), 200_000_000));
    assert!(!out.entered_playing);
    assert_eq!(out.player_pose, None);
    assert_eq!(out.camera_pose, None);
    assert_eq!(g.state, GameState::Loading);
    let out = g.frame(input(true, DirectionKeys::none(), 16_000_000));
    assert!(out.entered_playing);
    assert_eq!(g.state, GameState::Playing);
    let p = g.player.unwrap();
    assert_eq!((p.grid_x, p.grid_y), (0, 0));
    assert_eq!(g.camera.unwrap().camera_is_focus, Point3::origin());
}

#[test]
fn phase_machine_has_one_transition() {
    assert_eq!(GameState::Loading.next(false), GameState::Loading);
    assert_eq!(GameState::Loading.next(true), GameState::Playing);
    assert_eq!(GameState::Playing.next(false), GameState::Playing);
    assert_eq!(GameState::Playing.next(true), GameState::Playing);
    assert!(GameState::Playing.is_playing());
    assert!(!GameState::Loading.is_playing());
}

#[test]
fn camera_follows_the_player_in_the_same_frame() {
    let mut g = Game::new(GameState::Playing);
    let out = g.frame(input(false, DirectionKeys::only(Direction::Right), 200_000_000));
    assert!(!out.entered_playing);
    let player = out.player_pose.unwrap();
    assert_eq!(player.position, Point3::new(0, 500, 1000));
    let cam = out.camera_pose.unwrap();
    assert_eq!(cam.target, Point3::new(0, 500, 1000));
    // focus moves 0.4 of the way to (0, 500, 1000)
    assert_eq!(g.camera.unwrap().camera_is_focus, Point3::new(0, 200, 400));
    assert_eq!(cam.eye, Point3::new(-20_000, 20_000, 400));
}

#[test]
fn playing_frame_without_move_still_places_camera() {
    let mut g = Game::new(GameState::Playing);
    let out = g.frame(input(false, DirectionKeys::none(), 16_000_000));
    assert_eq!(out.player_pose, None);
    let cam = out.camera_pose.unwrap();
    assert_eq!(cam.target, Point3::new(0, 500, 0));
    assert!(g.is_well_formed());
}

#[test]
fn client_starts_loading_in_a_window() {
    let client = CoreClientPlugin;
    assert_eq!(client.initial_state(), GameState::Loading);
    assert_eq!(client.window_title(), "Colony");
    let mut g = client.start();
    assert_eq!(g.state, GameState::Loading);
    assert!(g.player.is_none());
    assert!(g.camera.is_none());
    let out = g.frame(FrameInput { assets_ready: true, keys: DirectionKeys::none(), frame_nanos: 0 });
    assert!(out.entered_playing);
    assert_eq!(g.state, GameState::Playing);
    assert!(g.player.is_some());
    assert!(g.camera.is_some());
    assert_eq!(colony::WINDOW_WIDTH, 1280);
    assert_eq!(colony::WINDOW_HEIGHT, 720);
    assert_eq!(colony::MSAA_SAMPLES, 4);
}
