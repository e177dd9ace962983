use kobold::input_map::input_mappings_from;
use kobold::project::generate_project_godot;

#[test]
fn project_file_for_3d() {
    let text = generate_project_godot("Demo", "3d");
    assert!(text.starts_with("; Engine configuration file.\n"));
    assert!(text.contains("config/name=\"Demo\"\n"));
    assert!(text.contains("config/features=PackedStringArray(\"4.3\", \"3D\")"));
    assert!(text.ends_with("renderer/rendering_method=\"forward_plus\"\n"));
    assert!(text.contains("move_left={\n\"deadzone\": 0.5,"));
    assert!(!text.contains("{{"));
}

#[test]
fn project_file_for_2d() {
    let text = generate_project_godot("Side", "2d");
    assert!(text.contains("PackedStringArray(\"4.3\", \"2D\")"));
    assert!(text.ends_with("renderer/rendering_method=\"gl_compatibility\"\n"));
    let other = generate_project_godot("Side", "3D");
    assert_eq!(text, other);
}

#[test]
fn project_file_input_map_reads_back() {
    let text = generate_project_godot("Demo", "2d");
    let mappings = input_mappings_from(&text);
    let summary: Vec<(String, Vec<String>)> =
        mappings.iter().map(|m| (m.action.clone(), m.keys.clone())).collect();
    let expected: Vec<(String, Vec<String>)> = vec![
        ("move_left", vec!["A", "Left"]),
        ("move_right", vec!["D", "Right"]),
        ("move_up", vec!["W", "Up"]),
        ("move_down", vec!["S", "Down"]),
        ("jump", vec!["Space"]),
        ("attack", vec!["LeftClick"]),
        ("interact", vec!["E"]),
    ]
    .into_iter()
    .map(|(a, k)| (a.to_string(), k.into_iter().map(|s| s.to_string()).collect()))
    .collect();
    assert_eq!(summary, expected);
    assert_eq!(mappings[2].description, "Move character forward");
}
