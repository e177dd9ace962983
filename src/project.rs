//! The `project.godot` file of a new project.
use vstd::prelude::*;
use crate::text::same_text;

verus! {

/// The template up to the project's name.
pub const GODOT_HEAD: &'static str = r#"; Engine configuration file.
; Generated by Kobold - Professional Godot Architecture

config_version=5

[application]

config/name=""#;

/// The template between the name and the dimension label.
pub const GODOT_FEATURES: &'static str = r#""
run/main_scene="res://scenes/main.tscn"
config/features=PackedStringArray("4.3", ""#;

/// The template between the dimension label and the renderer: autoloads and
/// the standard input actions.
pub const GODOT_BODY: &'static str = r#"")

[autoload]

EventBus="*res://autoload/event_bus.gd"
GameState="*res://autoload/game_state.gd"
AIController="*res://autoload/ai_controller.gd"

[input]

move_left={
"deadzone": 0.5,
"events": [Object(InputEventKey,"resource_local_to_scene":false,"resource_name":"","device":-1,"window_id":0,"alt_pressed":false,"shift_pressed":false,"ctrl_pressed":false,"meta_pressed":false,"pressed":false,"keycode":0,"physical_keycode":65,"key_label":0,"unicode":97,"location":0,"echo":false,"script":null), Object(InputEventKey,"resource_local_to_scene":false,"resource_name":"","device":-1,"window_id":0,"alt_pressed":false,"shift_pressed":false,"ctrl_pressed":false,"meta_pressed":false,"pressed":false,"keycode":0,"physical_keycode":4194319,"key_label":0,"unicode":0,"location":0,"echo":false,"script":null)]
}
move_right={
"deadzone": 0.5,
"events": [Object(InputEventKey,"resource_local_to_scene":false,"resource_name":"","device":-1,"window_id":0,"alt_pressed":false,"shift_pressed":false,"ctrl_pressed":false,"meta_pressed":false,"pressed":false,"keycode":0,"physical_keycode":68,"key_label":0,"unicode":100,"location":0,"echo":false,"script":null), Object(InputEventKey,"resource_local_to_scene":false,"resource_name":"","device":-1,"window_id":0,"alt_pressed":false,"shift_pressed":false,"ctrl_pressed":false,"meta_pressed":false,"pressed":false,"keycode":0,"physical_keycode":4194321,"key_label":0,"unicode":0,"location":0,"echo":false,"script":null)]
}
move_up={
"deadzone": 0.5,
"events": [Object(InputEventKey,"resource_local_to_scene":false,"resource_name":"","device":-1,"window_id":0,"alt_pressed":false,"shift_pressed":false,"ctrl_pressed":false,"meta_pressed":false,"pressed":false,"keycode":0,"physical_keycode":87,"key_label":0,"unicode":119,"location":0,"echo":false,"script":null), Object(InputEventKey,"resource_local_to_scene":false,"resource_name":"","device":-1,"window_id":0,"alt_pressed":false,"shift_pressed":false,"ctrl_pressed":false,"meta_pressed":false,"pressed":false,"keycode":0,"physical_keycode":4194320,"key_label":0,"unicode":0,"location":0,"echo":false,"script":null)]
}
move_down={
"deadzone": 0.5,
"events": [Object(InputEventKey,"resource_local_to_scene":false,"resource_name":"","device":-1,"window_id":0,"alt_pressed":false,"shift_pressed":false,"ctrl_pressed":false,"meta_pressed":false,"pressed":false,"keycode":0,"physical_keycode":83,"key_label":0,"unicode":115,"location":0,"echo":false,"script":null), Object(InputEventKey,"resource_local_to_scene":false,"resource_name":"","device":-1,"window_id":0,"alt_pressed":false,"shift_pressed":false,"ctrl_pressed":false,"meta_pressed":false,"pressed":false,"keycode":0,"physical_keycode":4194322,"key_label":0,"unicode":0,"location":0,"echo":false,"script":null)]
}
jump={
"deadzone": 0.5,
"events": [Object(InputEventKey,"resource_local_to_scene":false,"resource_name":"","device":-1,"window_id":0,"alt_pressed":false,"shift_pressed":false,"ctrl_pressed":false,"meta_pressed":false,"pressed":false,"keycode":0,"physical_keycode":32,"key_label":0,"unicode":32,"location":0,"echo":false,"script":null)]
}
attack={
"deadzone": 0.5,
"events": [Object(InputEventMouseButton,"resource_local_to_scene":false,"resource_name":"","device":-1,"window_id":0,"alt_pressed":false,"shift_pressed":false,"ctrl_pressed":false,"meta_pressed":false,"button_mask":1,"position":Vector2(0, 0),"global_position":Vector2(0, 0),"factor":1.0,"button_index":1,"canceled":false,"pressed":true,"double_click":false,"script":null)]
}
interact={
"deadzone": 0.5,
"events": [Object(InputEventKey,"resource_local_to_scene":false,"resource_name":"","device":-1,"window_id":0,"alt_pressed":false,"shift_pressed":false,"ctrl_pressed":false,"meta_pressed":false,"pressed":false,"keycode":0,"physical_keycode":69,"key_label":0,"unicode":101,"location":0,"echo":false,"script":null)]
}
sprint={
"deadzone": 0.5,
"events": [Object(InputEventKey,"resource_local_to_scene":false,"resource_name":"","device":-1,"window_id":0,"alt_pressed":false,"shift_pressed":false,"ctrl_pressed":false,"meta_pressed":false,"pressed":false,"keycode":0,"physical_keycode":4194325,"key_label":0,"unicode":0,"location":0,"echo":false,"script":null)]
}

[rendering]

renderer/rendering_method=""#;

pub open spec fn godot_head() -> Seq<char> {
    GODOT_HEAD@
}

pub open spec fn godot_features() -> Seq<char> {
    GODOT_FEATURES@
}

pub open spec fn godot_body() -> Seq<char> {
    GODOT_BODY@
}

/// The renderer and dimension label of a project's dimension: the forward
/// renderer and `3D` for `3d`, the compatibility renderer and `2D` otherwise.
pub open spec fn renderer_of(dimension: Seq<char>) -> (Seq<char>, Seq<char>) {
    if dimension == "3d"@ {
        ("forward_plus"@, "3D"@)
    } else {
        ("gl_compatibility"@, "2D"@)
    }
}

/// The project file: the name, the dimension label and the renderer placed
/// in a fixed template with the standard input actions.
pub open spec fn project_godot_text(name: Seq<char>, dimension: Seq<char>) -> Seq<char> {
    godot_head() + name + godot_features() + renderer_of(dimension).1 + godot_body()
        + renderer_of(dimension).0 + "\"\n"@
}

/// The `project.godot` text of a new project named `name`.
pub fn generate_project_godot(name: &str, dimension: &str) -> (r: String)
    ensures
        r@ == project_godot_text(name@, dimension@),
{
    let three = same_text(dimension, "3d");
    let renderer = if three { "forward_plus" } else { "gl_compatibility" };
    let label = if three { "3D" } else { "2D" };
    let mut text = String::from_str(GODOT_HEAD);
    text.append(name);
    text.append(GODOT_FEATURES);
    text.append(label);
    text.append(GODOT_BODY);
    text.append(renderer);
    text.append("\"\n");
    text
}

} // verus!
