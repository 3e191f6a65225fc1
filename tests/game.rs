use carambolage::{Command, ControllerLayout, Game, GameSettings, Key, KeyState, Projection, WindowEvent};

fn settings_800_600() -> GameSettings {
    GameSettings { is_fullscreen: false, width: 800, height: 600, fps: 30 }
}

fn keys(pressed: &[Key]) -> KeyState {
    let mut k = KeyState::new();
    for p in pressed {
        k.press(*p);
    }
    k
}

fn projection(w: u32, h: u32) -> Projection {
    Projection { aspect_width: w, aspect_height: h, fov_degrees: 70, z_near_milli: 100, z_far_milli: 100_000 }
}

#[test]
fn new_game_has_two_controllers_and_no_effect() {
    let g = Game::new(settings_800_600());
    assert!(g.is_running());
    assert_eq!(g.post_proc_effect(), 0);
    assert_eq!(g.target_size(), (800, 600));
    assert_eq!(g.controllers().len(), 2);
    assert_eq!(g.controllers()[0].layout(), ControllerLayout::WASD);
    assert_eq!(g.controllers()[1].layout(), ControllerLayout::Arrows);
    assert_eq!(g.projection(), projection(800, 600));
}

#[test]
fn one_idle_frame_updates_draws_and_presents_once() {
    let mut g = Game::new(settings_800_600());
    let cmds = g.frame(1_000, &vec![], &KeyState::new());
    assert_eq!(
        cmds,
        vec![
            Command::UpdateScene { dt_nanos: 0 },
            Command::DrawScene { projection: projection(800, 600) },
            Command::Composite { effect: 0 },
            Command::Present,
        ]
    );
    assert!(g.frame_budget_left(1_000 + 33_333_333));
    assert!(!g.frame_budget_left(1_000 + 33_333_334));
    let cmds = g.frame(40_000_000, &vec![], &KeyState::new());
    assert_eq!(cmds[0], Command::UpdateScene { dt_nanos: 39_999_000 });
}

#[test]
fn later_function_key_wins() {
    let mut g = Game::new(settings_800_600());
    g.process_input(&keys(&[Key::F3, Key::F7]));
    assert_eq!(g.post_proc_effect(), 7);
    g.process_input(&keys(&[Key::F10, Key::F1]));
    assert_eq!(g.post_proc_effect(), 10);
    // no function key keeps the selection
    g.process_input(&KeyState::new());
    assert_eq!(g.post_proc_effect(), 10);
    g.process_input(&keys(&[Key::F2]));
    assert_eq!(g.post_proc_effect(), 2);
}

#[test]
fn escape_closes_after_the_current_frame() {
    let mut g = Game::new(settings_800_600());
    let cmds = g.frame(0, &vec![], &keys(&[Key::Escape]));
    assert!(!g.is_running());
    assert_eq!(
        cmds,
        vec![
            Command::RequestClose,
            Command::UpdateScene { dt_nanos: 0 },
            Command::DrawScene { projection: projection(800, 600) },
            Command::Composite { effect: 0 },
            Command::Present,
        ]
    );
    let later = g.frame(50_000_000, &vec![WindowEvent::FramebufferSize(10, 10)], &KeyState::new());
    assert!(later.is_empty());
    assert_eq!(g.target_size(), (800, 600));
}

#[test]
fn close_signal_stops_the_loop() {
    let mut g = Game::new(settings_800_600());
    g.signal_close();
    assert!(!g.is_running());
    assert!(g.frame(0, &vec![], &KeyState::new()).is_empty());
}

#[test]
fn controllers_in_a_game_read_their_own_keys() {
    let mut g = Game::new(settings_800_600());
    g.process_input(&keys(&[Key::W, Key::Left]));
    assert_eq!(g.controllers()[0].throttle(), 1);
    assert_eq!(g.controllers()[0].steer(), 0);
    assert_eq!(g.controllers()[1].throttle(), 0);
    assert_eq!(g.controllers()[1].steer(), -1);
}

#[test]
fn resize_then_draw_uses_the_new_size() {
    let mut g = Game::new(settings_800_600());
    let cmds = g.frame(0, &vec![WindowEvent::FramebufferSize(1024, 768)], &KeyState::new());
    assert_eq!(cmds[0], Command::Resize { width: 1024, height: 768 });
    assert_eq!(cmds[2], Command::DrawScene { projection: projection(1024, 768) });
    assert_eq!(g.target_size(), (1024, 768));
    assert_eq!(g.settings().width, 1024);
    assert_eq!(g.settings().height, 768);
}

#[test]
fn draining_many_resizes_keeps_the_last() {
    let mut g = Game::new(settings_800_600());
    let events = vec![
        WindowEvent::FramebufferSize(300, 200),
        WindowEvent::Other,
        WindowEvent::FramebufferSize(1280, 720),
        WindowEvent::FramebufferSize(640, 360),
    ];
    let cmds = g.process_events(&events);
    assert_eq!(
        cmds,
        vec![
            Command::Resize { width: 300, height: 200 },
            Command::Resize { width: 1280, height: 720 },
            Command::Resize { width: 640, height: 360 },
        ]
    );
    assert_eq!(g.target_size(), (640, 360));
    assert_eq!(g.projection(), projection(640, 360));
}

#[test]
fn degenerate_resize_is_skipped() {
    let mut g = Game::new(settings_800_600());
    let cmds = g.process_events(&vec![
        WindowEvent::FramebufferSize(0, 0),
        WindowEvent::FramebufferSize(-5, 100),
        WindowEvent::FramebufferSize(100, 0),
    ]);
    assert!(cmds.is_empty());
    assert_eq!(g.target_size(), (800, 600));
    assert_eq!(g.settings(), settings_800_600());
}
