use kobold::controls::{
    ButtonBinding, ButtonScheme, ControlMapper, ControlMappings, Direction, GameAction,
    GamepadButtons, GamepadState, template_button,
};

fn sample(left: (i32, i32), right: (i32, i32)) -> GamepadState {
    GamepadState { j_left: left, j_right: right, buttons: GamepadButtons::default() }
}

fn map(state: &GamepadState, mappings: ControlMappings) -> Vec<GameAction> {
    let mut mapper = ControlMapper::new(mappings);
    mapper.map_to_actions(state)
}

#[test]
fn test_default_mappings() {
    let mappings = ControlMappings::default();
    assert!(mappings.has_button_binding("SOUTH"));
    assert_eq!(mappings.deadzone, 200);
}

#[test]
fn test_joystick_to_movement() {
    let mappings = ControlMappings::default();
    let mut mapper = ControlMapper::new(mappings);
    let state = GamepadState {
        j_left: (0, -800),
        j_right: (0, 0),
        buttons: GamepadButtons::default(),
    };
    let actions = mapper.map_to_actions(&state);
    assert!(actions.iter().any(|a| a.function() == "move"));
}

#[test]
fn upward_stick_moves_up_only() {
    let actions = map(&sample((0, -800), (0, 0)), ControlMappings::default());
    assert_eq!(actions, vec![GameAction::Move(Direction::Up)]);
}

#[test]
fn stick_inside_deadzone_stops() {
    for (lx, ly) in [(0, 0), (200, -200), (-150, 199), (200, 200)] {
        let actions = map(&sample((lx, ly), (0, 0)), ControlMappings::default());
        assert_eq!(actions, vec![GameAction::Move(Direction::Stop)]);
    }
}

#[test]
fn diagonal_gives_two_movements() {
    let actions = map(&sample((-900, -900), (0, 0)), ControlMappings::default());
    assert_eq!(
        actions,
        vec![GameAction::Move(Direction::Up), GameAction::Move(Direction::Left)]
    );
    let actions = map(&sample((900, 900), (0, 0)), ControlMappings::default());
    assert_eq!(
        actions,
        vec![GameAction::Move(Direction::Down), GameAction::Move(Direction::Right)]
    );
}

#[test]
fn unbound_direction_is_dropped() {
    let mut mappings = ControlMappings::default();
    mappings.joystick_left.up = None;
    let actions = map(&sample((-900, -900), (0, 0)), mappings);
    assert_eq!(actions, vec![GameAction::Move(Direction::Left)]);
}

#[test]
fn look_scales_by_thirty_and_sensitivity() {
    let actions = map(&sample((0, 0), (500, -100)), ControlMappings::default());
    assert_eq!(
        actions,
        vec![
            GameAction::Move(Direction::Stop),
            GameAction::Look { x: 15_000_000, y: -3_000_000 },
        ]
    );
    let mut mappings = ControlMappings::default();
    mappings.sensitivity = 2500;
    let actions = map(&sample((0, 0), (-1000, 300)), mappings);
    assert_eq!(actions[1], GameAction::Look { x: -75_000_000, y: 22_500_000 });
}

#[test]
fn right_stick_inside_deadzone_does_not_look() {
    let actions = map(&sample((0, 0), (200, -200)), ControlMappings::default());
    assert_eq!(actions, vec![GameAction::Move(Direction::Stop)]);
}

#[test]
fn buttons_follow_fixed_order() {
    let mut state = sample((0, 0), (0, 0));
    state.buttons.south = true;
    state.buttons.west = true;
    state.buttons.east = true;
    state.buttons.right_shoulder = true;
    state.buttons.north = true;
    let actions = map(&state, ControlMappings::default());
    assert_eq!(
        actions,
        vec![
            GameAction::Move(Direction::Stop),
            GameAction::Jump,
            GameAction::Attack,
            GameAction::Interact,
            GameAction::Sprint(true),
        ]
    );
}

#[test]
fn primary_button_jumps_whatever_the_table() {
    let mut state = sample((0, 0), (0, 0));
    state.buttons.south = true;
    let mut mappings = ControlMappings::default();
    mappings.buttons = vec![ButtonBinding { button: "SOUTH".to_string(), action: "dash".to_string() }];
    assert!(map(&state, mappings.clone()).contains(&GameAction::Jump));
    mappings.buttons.clear();
    assert!(map(&state, mappings).contains(&GameAction::Jump));
}

#[test]
fn table_scheme_uses_bound_names() {
    let mut state = sample((0, 0), (0, 0));
    state.buttons.south = true;
    state.buttons.west = true;
    let mut mappings = ControlMappings::default();
    mappings.button_scheme = ButtonScheme::Table;
    mappings.buttons = vec![
        ButtonBinding { button: "SOUTH".to_string(), action: "leap".to_string() },
        ButtonBinding { button: "SOUTH".to_string(), action: "ignored".to_string() },
    ];
    let actions = map(&state, mappings);
    assert_eq!(
        actions,
        vec![GameAction::Move(Direction::Stop), GameAction::Bound("leap".to_string())]
    );
    assert_eq!(actions[1].function(), "leap");
}

#[test]
fn mapper_remembers_last_sample() {
    let mut mapper = ControlMapper::new(ControlMappings::default());
    assert!(mapper.prev_state.is_none());
    let state = sample((10, 20), (30, 40));
    mapper.map_to_actions(&state);
    assert_eq!(mapper.prev_state, Some(state));
}

#[test]
fn function_and_direction_names() {
    assert_eq!(GameAction::Move(Direction::Up).function(), "move");
    assert_eq!(GameAction::Look { x: 1, y: 2 }.function(), "look");
    assert_eq!(GameAction::Sprint(true).function(), "sprint");
    assert_eq!(Direction::Stop.name(), "stop");
    assert_eq!(Direction::Left.name(), "left");
}

#[test]
fn parse_output_reads_slots_and_defaults() {
    let mut buttons = vec![0; 21];
    buttons[0] = 900;
    buttons[1] = 501;
    buttons[11] = 250;
    buttons[16] = 500;
    buttons[19] = 1000;
    let state = ControlMapper::parse_nitrogen_output(&vec![100, -200], &vec![300], &buttons);
    assert_eq!(state.j_left, (100, -200));
    assert_eq!(state.j_right, (300, 0));
    assert!(state.buttons.west);
    assert!(state.buttons.south);
    assert!(!state.buttons.right_shoulder);
    assert!(state.buttons.east);
    assert_eq!(state.buttons.left_trigger, 250);
    assert!(!state.buttons.north);
    let empty = ControlMapper::parse_nitrogen_output(&vec![], &vec![], &vec![]);
    assert_eq!(empty, GamepadState { j_left: (0, 0), j_right: (0, 0), buttons: GamepadButtons::default() });
}

fn lookup(m: &ControlMappings, button: &str) -> Option<String> {
    m.buttons.iter().find(|b| b.button == button).map(|b| b.action.clone())
}

#[test]
fn template_controls_rebind_buttons() {
    let names: Vec<String> = ["Jump", "Fire_Weapon", "use_item", "RUN", "Duck", "look_around"]
        .iter()
        .map(|s| s.to_string())
        .collect();
    let m = ControlMapper::from_template_controls(&names);
    assert_eq!(lookup(&m, "SOUTH"), Some("Jump".to_string()));
    assert_eq!(lookup(&m, "WEST"), Some("Fire_Weapon".to_string()));
    assert_eq!(lookup(&m, "EAST"), Some("use_item".to_string()));
    assert_eq!(lookup(&m, "RIGHT_SHOULDER"), Some("RUN".to_string()));
    assert_eq!(lookup(&m, "LEFT_SHOULDER"), Some("Duck".to_string()));
    assert_eq!(m.buttons.len(), 5);
    assert_eq!(m.deadzone, 200);
    assert_eq!(m.button_scheme, ButtonScheme::Fixed);
}

#[test]
fn template_controls_last_claim_wins_and_defaults_stay() {
    let names = vec!["jump_high".to_string(), "double_jump".to_string()];
    let m = ControlMapper::from_template_controls(&names);
    assert_eq!(lookup(&m, "SOUTH"), Some("double_jump".to_string()));
    assert_eq!(lookup(&m, "WEST"), Some("attack".to_string()));
    let m = ControlMapper::from_template_controls(&Vec::new());
    assert_eq!(lookup(&m, "EAST"), Some("interact".to_string()));
    assert_eq!(m.buttons.len(), 4);
}

#[test]
fn template_button_claims() {
    assert_eq!(template_button("jump"), Some("SOUTH"));
    assert_eq!(template_button("firebolt"), Some("WEST"));
    assert_eq!(template_button("user"), Some("EAST"));
    assert_eq!(template_button("run"), Some("RIGHT_SHOULDER"));
    assert_eq!(template_button("crouch"), Some("LEFT_SHOULDER"));
    assert_eq!(template_button("jump_attack"), Some("SOUTH"));
    assert_eq!(template_button("Jump"), None);
    assert_eq!(template_button("look"), None);
}
