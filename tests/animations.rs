use kobold::animations::{generate_animation_tree_tscn, push_decimal};

#[test]
fn tree_without_clips() {
    let text = generate_animation_tree_tscn(&[]);
    assert!(text.starts_with("[gd_scene load_steps=2 format=3]\n"));
    assert!(text.ends_with("anim_player = NodePath(\"../AnimationPlayer\")\n"));
    assert!(!text.contains("AnimationNodeAnimation"));
}

#[test]
fn tree_numbers_clips_in_order() {
    let clips = vec!["Idle".to_string(), "Walk_F".to_string()];
    let text = generate_animation_tree_tscn(&clips);
    let expected_nodes = "\n[sub_resource type=\"AnimationNodeAnimation\" id=\"anim_0\"]\nanimation = &\"Idle\"\n\n[sub_resource type=\"AnimationNodeAnimation\" id=\"anim_1\"]\nanimation = &\"Walk_F\"\n";
    assert!(text.contains(expected_nodes));
    assert!(text.find("anim_0").unwrap() < text.find("anim_1").unwrap());
}

#[test]
fn decimal_text() {
    let mut s = String::from("n=");
    push_decimal(&mut s, 0);
    assert_eq!(s, "n=0");
    let mut s = String::new();
    push_decimal(&mut s, 1203);
    assert_eq!(s, "1203");
}
