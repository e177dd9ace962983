use kobold::input_map::{
    action_to_description, extract_tool_name, input_mappings_from, keycode_to_name,
    parse_keys_from_block,
};

#[test]
fn key_names() {
    assert_eq!(keycode_to_name(65), Some("A".to_string()));
    assert_eq!(keycode_to_name(87), Some("W".to_string()));
    assert_eq!(keycode_to_name(90), Some("Z".to_string()));
    assert_eq!(keycode_to_name(32), Some("Space".to_string()));
    assert_eq!(keycode_to_name(16777217), Some("Escape".to_string()));
    assert_eq!(keycode_to_name(4194322), Some("Down".to_string()));
    assert_eq!(keycode_to_name(91), None);
    assert_eq!(keycode_to_name(97), None);
    assert_eq!(keycode_to_name(0), None);
}

#[test]
fn action_descriptions() {
    assert_eq!(action_to_description("move_left"), "Move character left");
    assert_eq!(action_to_description("move_forward"), "Move character forward");
    assert_eq!(action_to_description("move_back"), "Move character backward");
    assert_eq!(action_to_description("run"), "Sprint/run faster");
    assert_eq!(action_to_description("crouch"), "Crouch down");
    assert_eq!(action_to_description("open_big_door"), "open big door");
    assert_eq!(action_to_description(""), "");
}

#[test]
fn tool_names() {
    assert_eq!(extract_tool_name("  Tool: write_file path=a.gd"), "write_file");
    assert_eq!(extract_tool_name("Tool:"), "unknown");
    assert_eq!(extract_tool_name("Tool:   \t"), "unknown");
    assert_eq!(extract_tool_name("Running: godot --headless"), "godot");
    assert_eq!(extract_tool_name("Running:"), "command");
    assert_eq!(extract_tool_name("Reading scene.tscn"), "read_file");
    assert_eq!(extract_tool_name("Writing player.gd"), "write_file");
    assert_eq!(extract_tool_name("thinking"), "tool");
    assert_eq!(extract_tool_name("Running: x Tool: y"), "y");
}

#[test]
fn keys_from_key_events() {
    let block = r#"={"deadzone": 0.5,"events": [Object(InputEventKey,"physical_keycode":65,"unicode":97), Object(InputEventKey,"physical_keycode":4194319,"unicode":0), Object(InputEventKey,"physical_keycode":65,"unicode":97)]}"#;
    assert_eq!(parse_keys_from_block(block), vec!["A".to_string(), "Left".to_string()]);
}

#[test]
fn keys_skip_unknown_and_trailing_codes() {
    let block = r#"x"physical_keycode":7,"physical_keycode":99999999999,"physical_keycode":,"physical_keycode":32"#;
    assert_eq!(parse_keys_from_block(block), Vec::<String>::new());
    let block = r#""physical_keycode":32,"#;
    assert_eq!(parse_keys_from_block(block), vec!["Space".to_string()]);
}

#[test]
fn keys_from_mouse_events() {
    let block = r#"={"events": [Object(InputEventMouseButton,"button_mask":1,"button_index":1,"pressed":true)]}"#;
    assert_eq!(parse_keys_from_block(block), vec!["LeftClick".to_string()]);
    let block = r#"={"events": [Object(InputEventMouseButton,"button_index":2)]}"#;
    assert_eq!(parse_keys_from_block(block), vec!["RightClick".to_string()]);
    let block = r#"={"events": [Object(InputEventMouseButton,"button_index":3)]}"#;
    assert_eq!(parse_keys_from_block(block), Vec::<String>::new());
}

#[test]
fn input_section_is_parsed() {
    let content = "config_version=5\n\n[application]\n\nconfig/name=\"Demo\"\n\n[input]\n\nmove_left={\n\"deadzone\": 0.5,\n\"events\": [Object(InputEventKey,\"physical_keycode\":65,\"unicode\":97), Object(InputEventKey,\"physical_keycode\":4194319,\"unicode\":0)]\n}\njump={\n\"deadzone\": 0.5,\n\"events\": [Object(InputEventKey,\"physical_keycode\":32,\"unicode\":32)]\n}\nlook_around={\n\"events\": []\n}\nfire_big_gun={ \"events\": [Object(InputEventMouseButton,\"button_index\":1)] }\n\n[rendering]\n\nrenderer/rendering_method=\"gl_compatibility\"\n";
    let mappings = input_mappings_from(content);
    assert_eq!(mappings.len(), 3);
    assert_eq!(mappings[0].action, "move_left");
    assert_eq!(mappings[0].keys, vec!["A".to_string(), "Left".to_string()]);
    assert_eq!(mappings[0].description, "Move character left");
    assert_eq!(mappings[1].action, "jump");
    assert_eq!(mappings[1].keys, vec!["Space".to_string()]);
    assert_eq!(mappings[1].description, "Make character jump");
    assert_eq!(mappings[2].action, "fire_big_gun");
    assert_eq!(mappings[2].keys, vec!["LeftClick".to_string()]);
    assert_eq!(mappings[2].description, "fire big gun");
}

#[test]
fn input_outside_section_is_ignored() {
    let content = "[other]\njump={\"physical_keycode\":32,}\n";
    assert!(input_mappings_from(content).is_empty());
    assert!(input_mappings_from("").is_empty());
    let content = "  [input]  \r\njump={\r\n\"physical_keycode\":32,\r\n";
    assert!(input_mappings_from(content).is_empty());
    let content = "[input]\njump={\n\"physical_keycode\":32,\nrun={\"physical_keycode\":82,}\n";
    let mappings = input_mappings_from(content);
    assert_eq!(mappings.len(), 2);
    assert_eq!(mappings[0].action, "jump");
    assert_eq!(mappings[1].keys, vec!["R".to_string()]);
}
