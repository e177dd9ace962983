//! Animation sources and the AnimationTree scene text for a set of clips.
use vstd::prelude::*;

verus! {

/// Where an animation pack comes from.
#[derive(Clone, Debug, PartialEq, Eq)]
pub enum AnimationSource {
    Url { url: String },
    GitHub { repo: String, path: String },
    Itch { page: String, file: String },
    Bundled { asset_name: String },
}

pub open spec fn digit_char(d: nat) -> char {
    (('0' as nat) + d) as char
}

/// The decimal text of a number, without leading zeros.
pub open spec fn decimal(n: nat) -> Seq<char>
    decreases n,
{
    if n < 10 {
        seq![digit_char(n)]
    } else {
        decimal(n / 10) + seq![digit_char(n % 10)]
    }
}

fn digit_str(d: usize) -> (r: &'static str)
    requires
        d < 10,
    ensures
        r@ == seq![digit_char(d as nat)],
{
    proof {
        reveal_strlit("0"); reveal_strlit("1"); reveal_strlit("2"); reveal_strlit("3");
        reveal_strlit("4"); reveal_strlit("5"); reveal_strlit("6"); reveal_strlit("7");
        reveal_strlit("8"); reveal_strlit("9");
    }
    match d {
        0 => "0",
        1 => "1",
        2 => "2",
        3 => "3",
        4 => "4",
        5 => "5",
        6 => "6",
        7 => "7",
        8 => "8",
        _ => "9",
    }
}

/// Appends the decimal text of `n` to `out`.
pub fn push_decimal(out: &mut String, n: usize)
    ensures
        final(out)@ == old(out)@ + decimal(n as nat),
    decreases n,
{
    if n < 10 {
        out.append(digit_str(n));
    } else {
        push_decimal(out, n / 10);
        out.append(digit_str(n % 10));
        assert(final(out)@ =~= old(out)@ + decimal(n as nat));
    }
}

pub open spec fn tscn_header() -> Seq<char> {
    r#"[gd_scene load_steps=2 format=3]

[ext_resource type="Script" path="res://scripts/locomotion_blend_tree.gd" id="1"]

[sub_resource type="AnimationNodeStateMachine" id="AnimationNodeStateMachine_1"]

[sub_resource type="AnimationNodeBlendTree" id="AnimationNodeBlendTree_1"]
graph_offset = Vector2(-200, 0)
"#@
}

pub open spec fn tscn_footer() -> Seq<char> {
    r#"
[node name="AnimationTree" type="AnimationTree"]
script = ExtResource("1")
tree_root = SubResource("AnimationNodeStateMachine_1")
anim_player = NodePath("../AnimationPlayer")
"#@
}

/// The node resource of clip `i`, named `anim`.
pub open spec fn anim_node(i: nat, anim: Seq<char>) -> Seq<char> {
    r#"
[sub_resource type="AnimationNodeAnimation" id="anim_"#@ + decimal(i) + r#""]
animation = &""#@ + anim + "\"\n"@
}

/// The node resources of the clips, in order.
pub open spec fn anim_nodes(anims: Seq<String>) -> Seq<char>
    decreases anims.len(),
{
    if anims.len() == 0 {
        seq![]
    } else {
        anim_nodes(anims.drop_last()) + anim_node((anims.len() - 1) as nat, anims.last()@)
    }
}

/// The AnimationTree scene: a fixed header, one animation node resource
/// per clip numbered from zero, and the tree node.
pub fn generate_animation_tree_tscn(animations: &[String]) -> (r: String)
    ensures
        r@ == tscn_header() + anim_nodes(animations@) + tscn_footer(),
{
    let mut tscn = String::from_str(r#"[gd_scene load_steps=2 format=3]

[ext_resource type="Script" path="res://scripts/locomotion_blend_tree.gd" id="1"]

[sub_resource type="AnimationNodeStateMachine" id="AnimationNodeStateMachine_1"]

[sub_resource type="AnimationNodeBlendTree" id="AnimationNodeBlendTree_1"]
graph_offset = Vector2(-200, 0)
"#);
    let mut i: usize = 0;
    assert(animations@.subrange(0, 0) =~= Seq::<String>::empty());
    while i < animations.len()
        invariant
            i <= animations@.len(),
            tscn@ == tscn_header() + anim_nodes(animations@.subrange(0, i as int)),
        decreases animations.len() - i,
    {
        let ghost before = tscn@;
        tscn.append(r#"
[sub_resource type="AnimationNodeAnimation" id="anim_"#);
        push_decimal(&mut tscn, i);
        tscn.append(r#""]
animation = &""#);
        tscn.append(animations[i].as_str());
        tscn.append("\"\n");
        assert(animations@.subrange(0, i + 1).drop_last() =~= animations@.subrange(0, i as int));
        assert(tscn@ =~= before + anim_node(i as nat, animations@[i as int]@));
        i = i + 1;
    }
    assert(animations@.subrange(0, animations@.len() as int) =~= animations@);
    tscn.append(r#"
[node name="AnimationTree" type="AnimationTree"]
script = ExtResource("1")
tree_root = SubResource("AnimationNodeStateMachine_1")
anim_player = NodePath("../AnimationPlayer")
"#);
    tscn
}

} // verus!
