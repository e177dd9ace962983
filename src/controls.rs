//! Translation of one controller sample into semantic game actions.
//!
//! Analog quantities are fixed-point integers in thousandths of full scale:
//! a stick axis of `-1000..=1000` stands for `-1.0..=1.0`, a deadzone of `200`
//! for `0.2`, a sensitivity of `1000` for `1.0`.
use vstd::prelude::*;
use crate::text::{contains, contains_text};

verus! {

/// Degrees of look rotation per unit of full stick deflection.
pub const LOOK_DEGREES_PER_UNIT: i128 = 30;

/// A button reading above this value (thousandths) counts as pressed.
pub const BUTTON_THRESHOLD: i32 = 500;

/// Default deadzone, 0.2 of full scale.
pub const DEFAULT_DEADZONE: i32 = 200;

/// Default look sensitivity, 1.0.
pub const DEFAULT_SENSITIVITY: i32 = 1000;

/// Button states of one controller sample. Triggers are analog, in thousandths.
#[derive(Clone, Copy, Debug, PartialEq, Eq, Default)]
pub struct GamepadButtons {
    pub west: bool,
    pub south: bool,
    pub east: bool,
    pub north: bool,
    pub back: bool,
    pub start: bool,
    pub guide: bool,
    pub left_shoulder: bool,
    pub right_shoulder: bool,
    pub left_thumb: bool,
    pub right_thumb: bool,
    pub dpad_up: bool,
    pub dpad_down: bool,
    pub dpad_left: bool,
    pub dpad_right: bool,
    pub left_trigger: i32,
    pub right_trigger: i32,
}

/// One controller sample: two sticks as `(x, y)` in thousandths, and the buttons.
#[derive(Clone, Copy, Debug, PartialEq, Eq)]
pub struct GamepadState {
    pub j_left: (i32, i32),
    pub j_right: (i32, i32),
    pub buttons: GamepadButtons,
}

/// Which actions a stick's directions are bound to; `None` leaves a direction unbound.
#[derive(Clone, Debug, PartialEq, Eq)]
pub struct JoystickMapping {
    pub up: Option<String>,
    pub down: Option<String>,
    pub left: Option<String>,
    pub right: Option<String>,
    pub x: Option<String>,
    pub y: Option<String>,
}

impl Default for JoystickMapping {
    fn default() -> (r: Self)
        ensures
            r.up is None,
            r.down is None,
            r.left is None,
            r.right is None,
            r.x is None,
            r.y is None,
    {
        JoystickMapping { up: None, down: None, left: None, right: None, x: None, y: None }
    }
}

/// One entry of the button table: a button name and the action it stands for.
#[derive(Clone, Debug, PartialEq, Eq)]
pub struct ButtonBinding {
    pub button: String,
    pub action: String,
}

/// How pressed buttons become actions.
#[derive(Clone, Copy, Debug, PartialEq, Eq, Structural)]
pub enum ButtonScheme {
    /// The four fixed slots: south jumps, west attacks, east interacts, the
    /// right shoulder sprints. The button table is not consulted.
    Fixed,
    /// The same four slots, each emitting the action that the button table
    /// binds to its name (`SOUTH`, `WEST`, `EAST`, `RIGHT_SHOULDER`), if any.
    Table,
}

/// Per-project control configuration.
#[derive(Clone, Debug)]
pub struct ControlMappings {
    pub joystick_left: JoystickMapping,
    pub joystick_right: JoystickMapping,
    pub buttons: Vec<ButtonBinding>,
    /// Deadzone in thousandths of full scale.
    pub deadzone: i32,
    /// Look sensitivity in thousandths.
    pub sensitivity: i32,
    pub button_scheme: ButtonScheme,
}

/// A direction of movement, or the order to stop.
#[derive(Clone, Copy, Debug, PartialEq, Eq, Structural)]
pub enum Direction {
    Up,
    Down,
    Left,
    Right,
    Stop,
}

/// A semantic action for the game to perform.
#[derive(Clone, Debug, PartialEq, Eq)]
pub enum GameAction {
    Move(Direction),
    /// Look rotation in millionths of a degree: axis (thousandths) times
    /// degrees per unit times sensitivity (thousandths).
    Look { x: i128, y: i128 },
    Jump,
    Attack,
    Interact,
    Sprint(bool),
    /// An action named by the button table.
    Bound(String),
}

/// What an action is, with its text as a character sequence.
pub enum ActionView {
    Move(Direction),
    Look { x: int, y: int },
    Jump,
    Attack,
    Interact,
    Sprint(bool),
    Bound(Seq<char>),
}

impl View for GameAction {
    type V = ActionView;

    open spec fn view(&self) -> ActionView {
        match self {
            GameAction::Move(d) => ActionView::Move(*d),
            GameAction::Look { x, y } => ActionView::Look { x: *x as int, y: *y as int },
            GameAction::Jump => ActionView::Jump,
            GameAction::Attack => ActionView::Attack,
            GameAction::Interact => ActionView::Interact,
            GameAction::Sprint(b) => ActionView::Sprint(*b),
            GameAction::Bound(s) => ActionView::Bound(s@),
        }
    }
}

/// The views of a sequence of actions.
pub open spec fn actions_view(v: Seq<GameAction>) -> Seq<ActionView> {
    v.map_values(|a: GameAction| a@)
}

pub open spec fn abs_int(x: int) -> int {
    if x < 0 { -x } else { x }
}

/// An axis reading lies outside the deadzone.
pub open spec fn outside(v: i32, dz: i32) -> bool {
    abs_int(v as int) > dz as int
}

/// Actions from the left stick: `stop` inside the deadzone, else the
/// vertical and then the horizontal direction, each if bound.
pub open spec fn movement_spec(s: GamepadState, c: ControlMappings) -> Seq<ActionView> {
    let lx = s.j_left.0 as int;
    let ly = s.j_left.1 as int;
    let dz = c.deadzone as int;
    if outside(s.j_left.0, c.deadzone) || outside(s.j_left.1, c.deadzone) {
        let vertical = if ly < -dz {
            if c.joystick_left.up is Some { seq![ActionView::Move(Direction::Up)] } else { seq![] }
        } else if ly > dz {
            if c.joystick_left.down is Some { seq![ActionView::Move(Direction::Down)] } else { seq![] }
        } else {
            seq![]
        };
        let horizontal = if lx < -dz {
            if c.joystick_left.left is Some { seq![ActionView::Move(Direction::Left)] } else { seq![] }
        } else if lx > dz {
            if c.joystick_left.right is Some { seq![ActionView::Move(Direction::Right)] } else { seq![] }
        } else {
            seq![]
        };
        vertical + horizontal
    } else {
        seq![ActionView::Move(Direction::Stop)]
    }
}

/// The look rotation that an axis reading gives.
pub open spec fn look_amount(axis: i32, sensitivity: i32) -> int {
    axis as int * 30 * sensitivity as int
}

/// Actions from the right stick: one `look` when either axis leaves the deadzone.
pub open spec fn look_spec(s: GamepadState, c: ControlMappings) -> Seq<ActionView> {
    if outside(s.j_right.0, c.deadzone) || outside(s.j_right.1, c.deadzone) {
        seq![ActionView::Look {
            x: look_amount(s.j_right.0, c.sensitivity),
            y: look_amount(s.j_right.1, c.sensitivity),
        }]
    } else {
        seq![]
    }
}

/// The action that the first entry of the table for `button` names, if any.
pub open spec fn table_lookup(table: Seq<ButtonBinding>, button: Seq<char>) -> Option<Seq<char>>
    decreases table.len(),
{
    if table.len() == 0 {
        None
    } else if table[0].button@ == button {
        Some(table[0].action@)
    } else {
        table_lookup(table.drop_first(), button)
    }
}

/// The action of one button slot, given whether it is pressed.
pub open spec fn slot_spec(
    c: ControlMappings,
    pressed: bool,
    fixed: ActionView,
    name: Seq<char>,
) -> Seq<ActionView> {
    if !pressed {
        seq![]
    } else {
        match c.button_scheme {
            ButtonScheme::Fixed => seq![fixed],
            ButtonScheme::Table => match table_lookup(c.buttons@, name) {
                Some(a) => seq![ActionView::Bound(a)],
                None => seq![],
            },
        }
    }
}

/// Actions from the buttons, in slot order: south, west, east, right shoulder.
pub open spec fn buttons_spec(s: GamepadState, c: ControlMappings) -> Seq<ActionView> {
    slot_spec(c, s.buttons.south, ActionView::Jump, "SOUTH"@)
        + slot_spec(c, s.buttons.west, ActionView::Attack, "WEST"@)
        + slot_spec(c, s.buttons.east, ActionView::Interact, "EAST"@)
        + slot_spec(c, s.buttons.right_shoulder, ActionView::Sprint(true), "RIGHT_SHOULDER"@)
}

/// All actions for one sample: movement, look, then buttons.
pub open spec fn actions_spec(s: GamepadState, c: ControlMappings) -> Seq<ActionView> {
    movement_spec(s, c) + look_spec(s, c) + buttons_spec(s, c)
}


fn outside_deadzone(v: i32, dz: i32) -> (r: bool)
    ensures
        r == outside(v, dz),
{
    let a: i64 = if v < 0 { -(v as i64) } else { v as i64 };
    a > dz as i64
}

fn look_value(axis: i32, sensitivity: i32) -> (r: i128)
    ensures
        r == look_amount(axis, sensitivity),
{
    let a = axis as i128;
    let s = sensitivity as i128;
    assert(-0x8000_0000 * 30 <= a * 30 <= 0x8000_0000 * 30) by (nonlinear_arith)
        requires -0x8000_0000 <= a <= 0x8000_0000;
    assert(-0x8000_0000 * 0x8000_0000 * 30 <= (a * 30) * s <= 0x8000_0000 * 0x8000_0000 * 30)
        by (nonlinear_arith)
        requires
            -0x8000_0000 <= a <= 0x8000_0000,
            -0x8000_0000 <= s <= 0x8000_0000,
    ;
    a * LOOK_DEGREES_PER_UNIT * s
}

fn push_action(out: &mut Vec<GameAction>, a: GameAction)
    ensures
        actions_view(final(out)@) == actions_view(old(out)@).push(a@),
{
    out.push(a);
    assert(actions_view(final(out)@) =~= actions_view(old(out)@).push(a@));
}

/// The first action that the table binds to `button`.
pub fn lookup_binding(table: &Vec<ButtonBinding>, button: &String) -> (r: Option<String>)
    ensures
        match r {
            Some(a) => table_lookup(table@, button@) == Some(a@),
            None => table_lookup(table@, button@) is None,
        },
{
    let mut i: usize = 0;
    assert(table@.subrange(0, table@.len() as int) =~= table@);
    while i < table.len()
        invariant
            i <= table@.len(),
            table_lookup(table@, button@) == table_lookup(table@.subrange(i as int, table@.len() as int), button@),
        decreases table.len() - i,
    {
        assert(table@.subrange(i as int, table@.len() as int).drop_first()
            =~= table@.subrange(i + 1, table@.len() as int));
        if table[i].button == *button {
            return Some(table[i].action.clone());
        }
        i = i + 1;
    }
    None
}

fn push_slot(
    out: &mut Vec<GameAction>,
    c: &ControlMappings,
    pressed: bool,
    fixed: GameAction,
    name: &str,
)
    ensures
        actions_view(final(out)@) == actions_view(old(out)@) + slot_spec(*c, pressed, fixed@, name@),
{
    let ghost start = actions_view(out@);
    if pressed {
        match c.button_scheme {
            ButtonScheme::Fixed => {
                push_action(out, fixed);
            },
            ButtonScheme::Table => {
                let key = String::from_str(name);
                match lookup_binding(&c.buttons, &key) {
                    Some(a) => {
                        push_action(out, GameAction::Bound(a));
                    },
                    None => {},
                }
            },
        }
    }
    assert(actions_view(out@) =~= start + slot_spec(*c, pressed, fixed@, name@));
}

fn push_movement(out: &mut Vec<GameAction>, state: &GamepadState, c: &ControlMappings)
    ensures
        actions_view(final(out)@) == actions_view(old(out)@) + movement_spec(*state, *c),
{
    let ghost start = actions_view(out@);
    let dz = c.deadzone;
    let (lx, ly) = state.j_left;
    if outside_deadzone(lx, dz) || outside_deadzone(ly, dz) {
        if (ly as i64) < -(dz as i64) {
            if c.joystick_left.up.is_some() {
                push_action(out, GameAction::Move(Direction::Up));
            }
        } else if (ly as i64) > dz as i64 {
            if c.joystick_left.down.is_some() {
                push_action(out, GameAction::Move(Direction::Down));
            }
        }
        let ghost mid = actions_view(out@);
        if (lx as i64) < -(dz as i64) {
            if c.joystick_left.left.is_some() {
                push_action(out, GameAction::Move(Direction::Left));
            }
        } else if (lx as i64) > dz as i64 {
            if c.joystick_left.right.is_some() {
                push_action(out, GameAction::Move(Direction::Right));
            }
        }
        assert(actions_view(out@) =~= start + movement_spec(*state, *c));
    } else {
        push_action(out, GameAction::Move(Direction::Stop));
        assert(actions_view(out@) =~= start + movement_spec(*state, *c));
    }
}

fn push_look(out: &mut Vec<GameAction>, state: &GamepadState, c: &ControlMappings)
    ensures
        actions_view(final(out)@) == actions_view(old(out)@) + look_spec(*state, *c),
{
    let ghost start = actions_view(out@);
    let (rx, ry) = state.j_right;
    if outside_deadzone(rx, c.deadzone) || outside_deadzone(ry, c.deadzone) {
        let x = look_value(rx, c.sensitivity);
        let y = look_value(ry, c.sensitivity);
        push_action(out, GameAction::Look { x, y });
    }
    assert(actions_view(out@) =~= start + look_spec(*state, *c));
}

/// Translates one controller sample into actions, in the order movement
/// (or `stop`), look, jump, attack, interact, sprint.
pub fn map_sample(state: &GamepadState, c: &ControlMappings) -> (r: Vec<GameAction>)
    ensures
        actions_view(r@) == actions_spec(*state, *c),
{
    let mut out: Vec<GameAction> = Vec::new();
    assert(actions_view(out@) =~= seq![]);
    push_movement(&mut out, state, c);
    assert(actions_view(out@) =~= movement_spec(*state, *c));
    push_look(&mut out, state, c);
    let ghost after_look = actions_view(out@);
    let b = state.buttons;
    push_slot(&mut out, c, b.south, GameAction::Jump, "SOUTH");
    push_slot(&mut out, c, b.west, GameAction::Attack, "WEST");
    push_slot(&mut out, c, b.east, GameAction::Interact, "EAST");
    push_slot(&mut out, c, b.right_shoulder, GameAction::Sprint(true), "RIGHT_SHOULDER");
    assert(actions_view(out@) =~= after_look + buttons_spec(*state, *c));
    out
}

/// Name of a movement direction as the game reads it.
pub open spec fn direction_name(d: Direction) -> Seq<char> {
    match d {
        Direction::Up => "up"@,
        Direction::Down => "down"@,
        Direction::Left => "left"@,
        Direction::Right => "right"@,
        Direction::Stop => "stop"@,
    }
}

/// Name of the game function that performs an action.
pub open spec fn function_name(a: ActionView) -> Seq<char> {
    match a {
        ActionView::Move(_) => "move"@,
        ActionView::Look { .. } => "look"@,
        ActionView::Jump => "jump"@,
        ActionView::Attack => "attack"@,
        ActionView::Interact => "interact"@,
        ActionView::Sprint(_) => "sprint"@,
        ActionView::Bound(name) => name,
    }
}

impl Direction {
    /// The direction's name as the game reads it.
    pub fn name(&self) -> (r: String)
        ensures
            r@ == direction_name(*self),
    {
        match self {
            Direction::Up => String::from_str("up"),
            Direction::Down => String::from_str("down"),
            Direction::Left => String::from_str("left"),
            Direction::Right => String::from_str("right"),
            Direction::Stop => String::from_str("stop"),
        }
    }
}

impl GameAction {
    /// The name of the game function that performs this action.
    pub fn function(&self) -> (r: String)
        ensures
            r@ == function_name(self@),
    {
        match self {
            GameAction::Move(_) => String::from_str("move"),
            GameAction::Look { .. } => String::from_str("look"),
            GameAction::Jump => String::from_str("jump"),
            GameAction::Attack => String::from_str("attack"),
            GameAction::Interact => String::from_str("interact"),
            GameAction::Sprint(_) => String::from_str("sprint"),
            GameAction::Bound(name) => name.clone(),
        }
    }
}

fn binding(button: &str, action: &str) -> (r: ButtonBinding)
    ensures
        r.button@ == button@,
        r.action@ == action@,
{
    ButtonBinding { button: String::from_str(button), action: String::from_str(action) }
}

fn bound(name: &str) -> (r: Option<String>)
    ensures
        r is Some,
        r->0@ == name@,
{
    Some(String::from_str(name))
}

/// Everything of the default configuration but its button table: movement
/// on the left stick in all four directions, look on the right stick, the
/// fixed button scheme, deadzone 0.2 and sensitivity 1.0.
pub open spec fn default_layout(r: ControlMappings) -> bool {
    &&& r.joystick_left.up is Some && r.joystick_left.up->0@ == "move_up"@
    &&& r.joystick_left.down is Some && r.joystick_left.down->0@ == "move_down"@
    &&& r.joystick_left.left is Some && r.joystick_left.left->0@ == "move_left"@
    &&& r.joystick_left.right is Some && r.joystick_left.right->0@ == "move_right"@
    &&& r.joystick_left.x is None && r.joystick_left.y is None
    &&& r.joystick_right.up is None && r.joystick_right.down is None
    &&& r.joystick_right.left is None && r.joystick_right.right is None
    &&& r.joystick_right.x is Some && r.joystick_right.x->0@ == "look_x"@
    &&& r.joystick_right.y is Some && r.joystick_right.y->0@ == "look_y"@
    &&& r.deadzone == DEFAULT_DEADZONE
    &&& r.sensitivity == DEFAULT_SENSITIVITY
    &&& r.button_scheme == ButtonScheme::Fixed
}

/// The action that the default button table binds to a button name.
pub open spec fn default_binding(key: Seq<char>) -> Option<Seq<char>> {
    if key == "SOUTH"@ {
        Some("jump"@)
    } else if key == "WEST"@ {
        Some("attack"@)
    } else if key == "EAST"@ {
        Some("interact"@)
    } else if key == "RIGHT_SHOULDER"@ {
        Some("sprint"@)
    } else {
        None
    }
}

impl Default for ControlMappings {
    /// Movement on the left stick in all four directions, look on the right
    /// stick, the fixed button scheme over the standard table, deadzone 0.2
    /// and sensitivity 1.0.
    fn default() -> (r: Self)
        ensures
            default_layout(r),
            r.buttons@.len() == 4,
            r.buttons@[0].button@ == "SOUTH"@ && r.buttons@[0].action@ == "jump"@,
            r.buttons@[1].button@ == "WEST"@ && r.buttons@[1].action@ == "attack"@,
            r.buttons@[2].button@ == "EAST"@ && r.buttons@[2].action@ == "interact"@,
            r.buttons@[3].button@ == "RIGHT_SHOULDER"@ && r.buttons@[3].action@ == "sprint"@,
            forall|key: Seq<char>| #[trigger] table_lookup(r.buttons@, key) == default_binding(key),
    {
        let mut buttons: Vec<ButtonBinding> = Vec::new();
        buttons.push(binding("SOUTH", "jump"));
        buttons.push(binding("WEST", "attack"));
        buttons.push(binding("EAST", "interact"));
        buttons.push(binding("RIGHT_SHOULDER", "sprint"));
        proof {
            reveal_strlit("SOUTH");
            reveal_strlit("WEST");
            reveal_strlit("EAST");
            reveal_strlit("RIGHT_SHOULDER");
            assert forall|key: Seq<char>| #[trigger] table_lookup(buttons@, key) == default_binding(key) by {
                reveal_with_fuel(table_lookup, 5);
                let t = buttons@;
                assert(t.drop_first().drop_first().drop_first().drop_first().len() == 0);
            }
        }
        ControlMappings {
            joystick_left: JoystickMapping {
                up: bound("move_up"),
                down: bound("move_down"),
                left: bound("move_left"),
                right: bound("move_right"),
                x: None,
                y: None,
            },
            joystick_right: JoystickMapping {
                up: None,
                down: None,
                left: None,
                right: None,
                x: bound("look_x"),
                y: bound("look_y"),
            },
            buttons,
            deadzone: DEFAULT_DEADZONE,
            sensitivity: DEFAULT_SENSITIVITY,
            button_scheme: ButtonScheme::Fixed,
        }
    }
}

impl ControlMappings {
    /// Whether the button table has an entry for `button`.
    pub fn has_button_binding(&self, button: &str) -> (r: bool)
        ensures
            r == table_lookup(self.buttons@, button@) is Some,
    {
        let key = String::from_str(button);
        lookup_binding(&self.buttons, &key).is_some()
    }
}

/// Reading `i` of a raw output vector; a missing reading is zero.
pub open spec fn reading(v: Seq<i32>, i: int) -> i32 {
    if 0 <= i < v.len() { v[i] } else { 0 }
}

/// Reading `i` counts as a pressed button.
pub open spec fn pressed(v: Seq<i32>, i: int) -> bool {
    reading(v, i) > BUTTON_THRESHOLD
}

/// The sample that the model's raw output stands for.
pub open spec fn parsed_sample(l: Seq<i32>, r: Seq<i32>, b: Seq<i32>) -> GamepadState {
    GamepadState {
        j_left: (reading(l, 0), reading(l, 1)),
        j_right: (reading(r, 0), reading(r, 1)),
        buttons: GamepadButtons {
            west: pressed(b, 0),
            south: pressed(b, 1),
            back: pressed(b, 2),
            dpad_down: pressed(b, 3),
            dpad_left: pressed(b, 4),
            dpad_right: pressed(b, 5),
            dpad_up: pressed(b, 6),
            guide: pressed(b, 7),
            left_shoulder: pressed(b, 10),
            left_trigger: reading(b, 11),
            left_thumb: pressed(b, 14),
            right_thumb: pressed(b, 15),
            right_shoulder: pressed(b, 16),
            right_trigger: reading(b, 17),
            start: pressed(b, 18),
            east: pressed(b, 19),
            north: pressed(b, 20),
        },
    }
}

fn reading_at(v: &Vec<i32>, i: usize) -> (r: i32)
    ensures
        r == reading(v@, i as int),
{
    if i < v.len() { v[i] } else { 0 }
}

fn pressed_at(v: &Vec<i32>, i: usize) -> (r: bool)
    ensures
        r == pressed(v@, i as int),
{
    reading_at(v, i) > BUTTON_THRESHOLD
}

/// Translates samples under one configuration, remembering the last sample.
pub struct ControlMapper {
    pub mappings: ControlMappings,
    /// The last sample translated, if any.
    pub prev_state: Option<GamepadState>,
}

impl ControlMapper {
    pub fn new(mappings: ControlMappings) -> (r: Self)
        ensures
            r.mappings == mappings,
            r.prev_state is None,
    {
        ControlMapper { mappings, prev_state: None }
    }

    /// Translates one sample under the mapper's configuration.
    pub fn map_to_actions(&mut self, state: &GamepadState) -> (r: Vec<GameAction>)
        ensures
            actions_view(r@) == actions_spec(*state, old(self).mappings),
            final(self).mappings == old(self).mappings,
            final(self).prev_state == Some(*state),
    {
        let actions = map_sample(state, &self.mappings);
        self.prev_state = Some(*state);
        actions
    }

    /// Builds a sample from the model's raw output: stick axes and button
    /// readings in thousandths. Missing readings count as zero; a button is
    /// pressed when its reading exceeds one half.
    pub fn parse_nitrogen_output(j_left: &Vec<i32>, j_right: &Vec<i32>, buttons: &Vec<i32>) -> (r: GamepadState)
        ensures
            r == parsed_sample(j_left@, j_right@, buttons@),
    {
        GamepadState {
            j_left: (reading_at(j_left, 0), reading_at(j_left, 1)),
            j_right: (reading_at(j_right, 0), reading_at(j_right, 1)),
            buttons: GamepadButtons {
                west: pressed_at(buttons, 0),
                south: pressed_at(buttons, 1),
                back: pressed_at(buttons, 2),
                dpad_down: pressed_at(buttons, 3),
                dpad_left: pressed_at(buttons, 4),
                dpad_right: pressed_at(buttons, 5),
                dpad_up: pressed_at(buttons, 6),
                guide: pressed_at(buttons, 7),
                left_shoulder: pressed_at(buttons, 10),
                left_trigger: reading_at(buttons, 11),
                left_thumb: pressed_at(buttons, 14),
                right_thumb: pressed_at(buttons, 15),
                right_shoulder: pressed_at(buttons, 16),
                right_trigger: reading_at(buttons, 17),
                start: pressed_at(buttons, 18),
                east: pressed_at(buttons, 19),
                north: pressed_at(buttons, 20),
            },
        }
    }
}

/// With both left-stick axes inside the deadzone, the left stick yields
/// exactly one `stop` and nothing else, and it comes first.
pub proof fn lemma_stop_inside_deadzone(s: GamepadState, c: ControlMappings)
    requires
        !outside(s.j_left.0, c.deadzone),
        !outside(s.j_left.1, c.deadzone),
    ensures
        movement_spec(s, c) == seq![ActionView::Move(Direction::Stop)],
        actions_spec(s, c)[0] == ActionView::Move(Direction::Stop),
{
}

/// With both left-stick axes beyond the deadzone on the negative side and
/// both directions bound, the actions hold both an up and a left movement.
pub proof fn lemma_diagonal_independence(s: GamepadState, c: ControlMappings)
    requires
        (s.j_left.0 as int) < -(c.deadzone as int),
        (s.j_left.1 as int) < -(c.deadzone as int),
        c.joystick_left.up is Some,
        c.joystick_left.left is Some,
    ensures
        actions_spec(s, c).contains(ActionView::Move(Direction::Up)),
        actions_spec(s, c).contains(ActionView::Move(Direction::Left)),
{
    assert(movement_spec(s, c) =~= seq![ActionView::Move(Direction::Up), ActionView::Move(Direction::Left)]);
    assert(actions_spec(s, c)[0] == ActionView::Move(Direction::Up));
    assert(actions_spec(s, c)[1] == ActionView::Move(Direction::Left));
}

/// With the right stick's x axis beyond the deadzone, the actions hold one
/// `look` right after the movement actions, whose first argument is
/// `rx * 30 * sensitivity`.
pub proof fn lemma_look_scale(s: GamepadState, c: ControlMappings)
    requires
        outside(s.j_right.0, c.deadzone),
    ensures
        look_spec(s, c).len() == 1,
        actions_spec(s, c)[movement_spec(s, c).len() as int] == look_spec(s, c)[0],
        look_spec(s, c)[0] matches ActionView::Look { x, y }
            && x == s.j_right.0 as int * 30 * c.sensitivity as int,
{
}

/// Under the fixed button scheme, a pressed primary button (south) always
/// yields `jump`, whatever the button table holds.
pub proof fn lemma_primary_jumps(s: GamepadState, c: ControlMappings)
    requires
        s.buttons.south,
        c.button_scheme == ButtonScheme::Fixed,
    ensures
        actions_spec(s, c).contains(ActionView::Jump),
{
    let k = movement_spec(s, c).len() + look_spec(s, c).len();
    assert(actions_spec(s, c)[k as int] == ActionView::Jump);
}

/// The lowercase form of a text.
pub uninterp spec fn lower_of(s: Seq<char>) -> Seq<char>;

/// Relies on `str::to_lowercase`: the lowercase form of the text, which
/// depends on its characters alone.
#[verifier::external_body]
fn lowercase(s: &str) -> (r: String)
    ensures
        r@ == lower_of(s@),
{
    s.to_lowercase()
}

/// The button that a control named `lower` (in lowercase) is bound to when
/// a template declares it.
pub open spec fn template_slot(lower: Seq<char>) -> Option<Seq<char>> {
    if contains_text(lower, "jump"@) {
        Some("SOUTH"@)
    } else if contains_text(lower, "attack"@) || contains_text(lower, "fire"@) {
        Some("WEST"@)
    } else if contains_text(lower, "interact"@) || contains_text(lower, "use"@) {
        Some("EAST"@)
    } else if contains_text(lower, "sprint"@) || contains_text(lower, "run"@) {
        Some("RIGHT_SHOULDER"@)
    } else if contains_text(lower, "crouch"@) || contains_text(lower, "duck"@) {
        Some("LEFT_SHOULDER"@)
    } else {
        None
    }
}

/// What a button is bound to once the template's controls are applied in
/// order over the default table: the last control that claims it wins.
pub open spec fn template_binding(names: Seq<String>, key: Seq<char>) -> Option<Seq<char>>
    decreases names.len(),
{
    if names.len() == 0 {
        default_binding(key)
    } else if template_slot(lower_of(names.last()@)) == Some(key) {
        Some(names.last()@)
    } else {
        template_binding(names.drop_last(), key)
    }
}

proof fn lemma_lookup_update(t: Seq<ButtonBinding>, i: int, b: ButtonBinding, key: Seq<char>)
    requires
        0 <= i < t.len(),
        t[i].button@ == b.button@,
        forall|j: int| 0 <= j < i ==> (#[trigger] t[j]).button@ != b.button@,
    ensures
        table_lookup(t.update(i, b), key)
            == if key == b.button@ { Some(b.action@) } else { table_lookup(t, key) },
    decreases i,
{
    let u = t.update(i, b);
    if i > 0 {
        assert(u.drop_first() =~= t.drop_first().update(i - 1, b));
        assert forall|j: int| 0 <= j < i - 1 implies (#[trigger] t.drop_first()[j]).button@ != b.button@ by {
            assert(t.drop_first()[j] == t[j + 1]);
        }
        assert(t[0].button@ != b.button@);
        lemma_lookup_update(t.drop_first(), i - 1, b, key);
    } else {
        assert(u.drop_first() =~= t.drop_first());
    }
}

proof fn lemma_lookup_push(t: Seq<ButtonBinding>, b: ButtonBinding, key: Seq<char>)
    requires
        forall|j: int| 0 <= j < t.len() ==> (#[trigger] t[j]).button@ != b.button@,
    ensures
        table_lookup(t.push(b), key)
            == if key == b.button@ { Some(b.action@) } else { table_lookup(t, key) },
    decreases t.len(),
{
    let u = t.push(b);
    if t.len() > 0 {
        assert(u.drop_first() =~= t.drop_first().push(b));
        assert forall|j: int| 0 <= j < t.drop_first().len() implies (#[trigger] t.drop_first()[j]).button@ != b.button@ by {
            assert(t.drop_first()[j] == t[j + 1]);
        }
        assert(t[0].button@ != b.button@);
        lemma_lookup_push(t.drop_first(), b, key);
    } else {
        assert(u.drop_first().len() == 0);
        assert(u[0] == b);
        assert(table_lookup(u.drop_first(), key) is None);
        assert(table_lookup(t, key) is None);
    }
}

/// Binds `button` to `action` in the table: the first entry for the button
/// is replaced, or an entry is added when there is none.
pub fn set_binding(table: &mut Vec<ButtonBinding>, button: String, action: String)
    ensures
        forall|key: Seq<char>| #[trigger] table_lookup(final(table)@, key)
            == if key == button@ { Some(action@) } else { table_lookup(old(table)@, key) },
{
    let ghost b = ButtonBinding { button, action };
    let mut i: usize = 0;
    while i < table.len()
        invariant
            i <= table@.len(),
            table@ == old(table)@,
            forall|j: int| 0 <= j < i ==> (#[trigger] table@[j]).button@ != button@,
        decreases table.len() - i,
    {
        if table[i].button == button {
            let entry = ButtonBinding { button, action };
            proof {
                assert forall|key: Seq<char>| #[trigger] table_lookup(table@.update(i as int, entry), key)
                    == if key == entry.button@ { Some(entry.action@) } else { table_lookup(table@, key) } by {
                    lemma_lookup_update(table@, i as int, entry, key);
                }
            }
            table[i] = entry;
            return;
        }
        i = i + 1;
    }
    let entry = ButtonBinding { button, action };
    proof {
        assert forall|key: Seq<char>| #[trigger] table_lookup(table@.push(entry), key)
            == if key == entry.button@ { Some(entry.action@) } else { table_lookup(table@, key) } by {
            lemma_lookup_push(table@, entry, key);
        }
    }
    table.push(entry);
}

/// The button that a control named `lower` (already in lowercase) claims.
pub fn template_button(lower: &str) -> (r: Option<&'static str>)
    ensures
        match r {
            Some(b) => template_slot(lower@) == Some(b@),
            None => template_slot(lower@) is None,
        },
{
    if contains(lower, "jump") {
        Some("SOUTH")
    } else if contains(lower, "attack") || contains(lower, "fire") {
        Some("WEST")
    } else if contains(lower, "interact") || contains(lower, "use") {
        Some("EAST")
    } else if contains(lower, "sprint") || contains(lower, "run") {
        Some("RIGHT_SHOULDER")
    } else if contains(lower, "crouch") || contains(lower, "duck") {
        Some("LEFT_SHOULDER")
    } else {
        None
    }
}

impl ControlMapper {
    /// The default configuration with its button table adjusted to a
    /// template's controls, taken in order by name: a control whose name
    /// mentions jumping, attacking, interacting, sprinting or crouching is
    /// bound to the matching button.
    pub fn from_template_controls(names: &Vec<String>) -> (r: ControlMappings)
        ensures
            default_layout(r),
            forall|key: Seq<char>| #[trigger] table_lookup(r.buttons@, key) == template_binding(names@, key),
    {
        let mut mappings = ControlMappings::default();
        let mut i: usize = 0;
        assert(names@.subrange(0, 0) =~= Seq::<String>::empty());
        while i < names.len()
            invariant
                i <= names@.len(),
                default_layout(mappings),
                forall|key: Seq<char>| #[trigger] table_lookup(mappings.buttons@, key)
                    == template_binding(names@.subrange(0, i as int), key),
            decreases names.len() - i,
        {
            let lower = lowercase(names[i].as_str());
            let ghost prefix = names@.subrange(0, i + 1);
            assert(prefix.drop_last() =~= names@.subrange(0, i as int));
            assert(prefix.last() == names@[i as int]);
            match template_button(lower.as_str()) {
                Some(b) => {
                    set_binding(&mut mappings.buttons, String::from_str(b), names[i].clone());
                },
                None => {},
            }
            i = i + 1;
        }
        assert(names@.subrange(0, names@.len() as int) =~= names@);
        mappings
    }
}

} // verus!
