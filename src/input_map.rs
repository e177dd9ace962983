//! Reading key bindings out of a project's input map, and naming tools in an
//! agent's output.
use vstd::prelude::*;
use crate::frames::{digits_value, is_digit, parse_digits};
use crate::text::{
    contains, contains_text, find, find_from, first_occurrence, first_occurrence_from, first_word,
    first_word_from, lemma_first_occurrence_bounds, same_text, trim_range, trimmed,
};

verus! {

/// The display name of a physical key code: a capital letter for the codes
/// of `A` to `Z`, a name for a few others, `None` for the rest.
pub open spec fn key_name(code: u32) -> Option<Seq<char>> {
    if 65 <= code <= 90 {
        Some(seq![code as char])
    } else if code == 32 {
        Some("Space"@)
    } else if code == 16777217 {
        Some("Escape"@)
    } else if code == 16777218 {
        Some("Tab"@)
    } else if code == 16777220 {
        Some("Enter"@)
    } else if code == 16777221 {
        Some("Shift"@)
    } else if code == 16777238 {
        Some("Ctrl"@)
    } else if code == 16777240 {
        Some("Alt"@)
    } else if code == 4194319 {
        Some("Left"@)
    } else if code == 4194320 {
        Some("Up"@)
    } else if code == 4194321 {
        Some("Right"@)
    } else if code == 4194322 {
        Some("Down"@)
    } else {
        None
    }
}

fn letter(code: u32) -> (r: &'static str)
    requires
        65 <= code <= 90,
    ensures
        r@ == seq![code as char],
{
    proof { reveal_strlit("A"); reveal_strlit("B"); reveal_strlit("C"); reveal_strlit("D"); reveal_strlit("E"); reveal_strlit("F"); reveal_strlit("G"); reveal_strlit("H"); reveal_strlit("I"); reveal_strlit("J"); reveal_strlit("K"); reveal_strlit("L"); reveal_strlit("M"); reveal_strlit("N"); reveal_strlit("O"); reveal_strlit("P"); reveal_strlit("Q"); reveal_strlit("R"); reveal_strlit("S"); reveal_strlit("T"); reveal_strlit("U"); reveal_strlit("V"); reveal_strlit("W"); reveal_strlit("X"); reveal_strlit("Y"); reveal_strlit("Z"); }
    match code {
        65 => "A",
        66 => "B",
        67 => "C",
        68 => "D",
        69 => "E",
        70 => "F",
        71 => "G",
        72 => "H",
        73 => "I",
        74 => "J",
        75 => "K",
        76 => "L",
        77 => "M",
        78 => "N",
        79 => "O",
        80 => "P",
        81 => "Q",
        82 => "R",
        83 => "S",
        84 => "T",
        85 => "U",
        86 => "V",
        87 => "W",
        88 => "X",
        89 => "Y",
        90 => "Z",
        _ => "Z",
    }
}

/// The display name of a physical key code.
pub fn keycode_to_name(code: u32) -> (r: Option<String>)
    ensures
        match r {
            Some(s) => key_name(code) == Some(s@),
            None => key_name(code) is None,
        },
{
    let name = if 65 <= code && code <= 90 {
        letter(code)
    } else {
        match code {
            32 => "Space",
            16777217 => "Escape",
            16777218 => "Tab",
            16777220 => "Enter",
            16777221 => "Shift",
            16777238 => "Ctrl",
            16777240 => "Alt",
            4194319 => "Left",
            4194320 => "Up",
            4194321 => "Right",
            4194322 => "Down",
            _ => {
                return None;
            },
        }
    };
    Some(String::from_str(name))
}

/// `s` with every underscore turned into a space.
pub open spec fn underscores_to_spaces(s: Seq<char>) -> Seq<char> {
    s.map_values(|c: char| if c == '_' { ' ' } else { c })
}

/// A description of an input action: a sentence for the common actions,
/// else the action's name with underscores turned into spaces.
pub open spec fn action_description(a: Seq<char>) -> Seq<char> {
    if a == "move_left"@ {
        "Move character left"@
    } else if a == "move_right"@ {
        "Move character right"@
    } else if a == "move_up"@ || a == "move_forward"@ {
        "Move character forward"@
    } else if a == "move_down"@ || a == "move_back"@ {
        "Move character backward"@
    } else if a == "jump"@ {
        "Make character jump"@
    } else if a == "attack"@ {
        "Attack action"@
    } else if a == "interact"@ {
        "Interact with objects"@
    } else if a == "sprint"@ || a == "run"@ {
        "Sprint/run faster"@
    } else if a == "crouch"@ {
        "Crouch down"@
    } else {
        underscores_to_spaces(a)
    }
}

fn replace_underscores(s: &str) -> (r: String)
    ensures
        r@ == underscores_to_spaces(s@),
{
    let n = s.unicode_len();
    let mut out = String::new();
    let mut k: usize = 0;
    while k < n
        invariant
            n == s@.len(),
            k <= n,
            out@ == underscores_to_spaces(s@.subrange(0, k as int)),
        decreases n - k,
    {
        proof {
            reveal_strlit(" ");
        }
        let c = s.get_char(k);
        let ghost before = out@;
        if c == '_' {
            out.append(" ");
        } else {
            out.append(s.substring_char(k, k + 1));
        }
        assert(out@ =~= underscores_to_spaces(s@.subrange(0, k + 1)));
        k = k + 1;
    }
    assert(s@.subrange(0, n as int) =~= s@);
    out
}

/// A description of an input action for display.
pub fn action_to_description(action: &str) -> (r: String)
    ensures
        r@ == action_description(action@),
{
    let text = if same_text(action, "move_left") {
        "Move character left"
    } else if same_text(action, "move_right") {
        "Move character right"
    } else if same_text(action, "move_up") || same_text(action, "move_forward") {
        "Move character forward"
    } else if same_text(action, "move_down") || same_text(action, "move_back") {
        "Move character backward"
    } else if same_text(action, "jump") {
        "Make character jump"
    } else if same_text(action, "attack") {
        "Attack action"
    } else if same_text(action, "interact") {
        "Interact with objects"
    } else if same_text(action, "sprint") || same_text(action, "run") {
        "Sprint/run faster"
    } else if same_text(action, "crouch") {
        "Crouch down"
    } else {
        return replace_underscores(action);
    };
    String::from_str(text)
}

/// The first word after position `from`, or `fallback` when there is none.
pub open spec fn word_or(s: Seq<char>, from: int, fallback: Seq<char>) -> Seq<char> {
    match first_word(s.subrange(from, s.len() as int)) {
        Some(w) => w,
        None => fallback,
    }
}

/// The tool that an agent's output line names: the word after `Tool:`, else
/// the word after `Running:`, else a name for reading or writing lines.
pub open spec fn tool_name(line: Seq<char>) -> Seq<char> {
    match first_occurrence(line, "Tool:"@) {
        Some(i) => word_or(line, i + "Tool:"@.len(), "unknown"@),
        None => match first_occurrence(line, "Running:"@) {
            Some(i) => word_or(line, i + "Running:"@.len(), "command"@),
            None => if contains_text(line, "Reading"@) {
                "read_file"@
            } else if contains_text(line, "Writing"@) {
                "write_file"@
            } else {
                "tool"@
            },
        },
    }
}

fn word_after(line: &str, from: usize, fallback: &str) -> (r: String)
    requires
        from <= line@.len(),
    ensures
        r@ == word_or(line@, from as int, fallback@),
{
    match first_word_from(line, from) {
        Some(w) => w,
        None => String::from_str(fallback),
    }
}

/// The name of the tool that an agent's output line mentions.
pub fn extract_tool_name(line: &str) -> (r: String)
    ensures
        r@ == tool_name(line@),
{
    proof {
        reveal_strlit("Tool:");
        reveal_strlit("Running:");
    }
    // Bounds the positions below by the line's length.
    let len = line.unicode_len();
    assert(line@.len() == len);
    if let Some(start) = find(line, "Tool:") {
        assert("Tool:"@.len() == 5);
        word_after(line, start + 5, "unknown")
    } else if let Some(start) = find(line, "Running:") {
        assert("Running:"@.len() == 8);
        word_after(line, start + 8, "command")
    } else if contains(line, "Reading") {
        String::from_str("read_file")
    } else if contains(line, "Writing") {
        String::from_str("write_file")
    } else {
        String::from_str("tool")
    }
}

/// The text that precedes each key code in an input event.
pub open spec fn keycode_marker() -> Seq<char> {
    r#"physical_keycode":"#@
}

/// The first position at or after `from` that does not hold a digit.
pub open spec fn digits_end(s: Seq<char>, from: int) -> Option<int>
    decreases s.len() - from,
{
    if from < 0 || from >= s.len() {
        None
    } else if !is_digit(s[from]) {
        Some(from)
    } else {
        digits_end(s, from + 1)
    }
}

/// `keys` with the name of the key code that starts at `at`, if the code is
/// a run of digits followed by another character, fits in a `u32`, has a
/// name, and the name is not yet among `keys`.
pub open spec fn with_code_key(block: Seq<char>, at: int, keys: Seq<Seq<char>>) -> Seq<Seq<char>> {
    match digits_end(block, at) {
        Some(e) => {
            let d = block.subrange(at, e);
            if e > at && digits_value(d) <= u32::MAX {
                match key_name(digits_value(d) as u32) {
                    Some(k) => if keys.contains(k) { keys } else { keys.push(k) },
                    None => keys,
                }
            } else {
                keys
            }
        },
        None => keys,
    }
}

/// The names of the key codes that follow the markers from `pos` on.
pub open spec fn marked_keys(block: Seq<char>, pos: int, keys: Seq<Seq<char>>) -> Seq<Seq<char>>
    decreases block.len() + 1 - pos,
{
    match first_occurrence_from(block, keycode_marker(), pos) {
        Some(st) => {
            let cs = st + keycode_marker().len();
            if pos < cs <= block.len() {
                marked_keys(block, cs, with_code_key(block, cs, keys))
            } else {
                keys
            }
        },
        None => keys,
    }
}

/// The keys of an input action's definition: the named key codes in order
/// of first appearance, then a left or right click for a mouse event on
/// button one or two.
pub open spec fn block_keys(block: Seq<char>) -> Seq<Seq<char>> {
    let keys = marked_keys(block, 0, seq![]);
    if contains_text(block, "InputEventMouseButton"@) {
        if contains_text(block, r#"button_index":1"#@) {
            keys.push("LeftClick"@)
        } else if contains_text(block, r#"button_index":2"#@) {
            keys.push("RightClick"@)
        } else {
            keys
        }
    } else {
        keys
    }
}

/// The texts of a sequence of strings.
pub open spec fn texts(v: Seq<String>) -> Seq<Seq<char>> {
    v.map_values(|s: String| s@)
}

fn push_text(keys: &mut Vec<String>, k: String)
    ensures
        texts(final(keys)@) == texts(old(keys)@).push(k@),
{
    keys.push(k);
    assert(texts(final(keys)@) =~= texts(old(keys)@).push(k@));
}

fn has_text(keys: &Vec<String>, k: &String) -> (r: bool)
    ensures
        r == texts(keys@).contains(k@),
{
    let mut i: usize = 0;
    while i < keys.len()
        invariant
            i <= keys@.len(),
            forall|j: int| 0 <= j < i ==> keys@[j]@ != k@,
        decreases keys.len() - i,
    {
        if keys[i] == *k {
            assert(texts(keys@)[i as int] == k@);
            return true;
        }
        i = i + 1;
    }
    assert forall|j: int| 0 <= j < texts(keys@).len() implies texts(keys@)[j] != k@ by {
        assert(texts(keys@)[j] == keys@[j]@);
    }
    false
}

fn add_code_key(keys: &mut Vec<String>, block: &str, at: usize)
    requires
        at <= block@.len(),
    ensures
        texts(final(keys)@) == with_code_key(block@, at as int, texts(old(keys)@)),
{
    let n = block.unicode_len();
    let mut e: usize = at;
    while e < n && is_ascii_digit(block.get_char(e))
        invariant
            at <= e <= n,
            n == block@.len(),
            digits_end(block@, at as int) == digits_end(block@, e as int),
            forall|k: int| at <= k < e ==> is_digit(#[trigger] block@[k]),
        decreases n - e,
    {
        e = e + 1;
    }
    if e == n {
        return;
    }
    if e == at {
        return;
    }
    match parse_digits(block, at, e) {
        Some(code) => {
            proof {
                let d = block@.subrange(at as int, e as int);
                assert forall|i: int| 0 <= i < d.len() implies is_digit(#[trigger] d[i]) by {
                    assert(d[i] == block@[at + i]);
                }
            }
            match keycode_to_name(code) {
                Some(key) => {
                    if !has_text(keys, &key) {
                        push_text(keys, key);
                    }
                },
                None => {},
            }
        },
        None => {
            proof {
                let d = block@.subrange(at as int, e as int);
                assert forall|i: int| 0 <= i < d.len() implies is_digit(#[trigger] d[i]) by {
                    assert(d[i] == block@[at + i]);
                }
            }
        },
    }
}

fn is_ascii_digit(c: char) -> (r: bool)
    ensures
        r == is_digit(c),
{
    '0' <= c && c <= '9'
}

/// The keys bound in one input action's definition block.
pub fn parse_keys_from_block(block: &str) -> (r: Vec<String>)
    ensures
        texts(r@) == block_keys(block@),
{
    proof {
        reveal_strlit(r#"physical_keycode":"#);
    }
    let n = block.unicode_len();
    let mut keys: Vec<String> = Vec::new();
    let mut pos: usize = 0;
    assert(texts(keys@) =~= Seq::<Seq<char>>::empty());
    loop
        invariant
            n == block@.len(),
            pos <= n,
            keycode_marker().len() == 18,
            marked_keys(block@, 0, seq![]) == marked_keys(block@, pos as int, texts(keys@)),
        ensures
            marked_keys(block@, 0, seq![]) == texts(keys@),
        decreases n + 1 - pos,
    {
        match find_from(block, r#"physical_keycode":"#, pos) {
            Some(st) => {
                proof {
                    lemma_first_occurrence_bounds(block@, keycode_marker(), pos as int);
                }
                let cs = st + 18;
                let ghost before = texts(keys@);
                assert(marked_keys(block@, pos as int, before)
                    == marked_keys(block@, cs as int, with_code_key(block@, cs as int, before)));
                add_code_key(&mut keys, block, cs);
                pos = cs;
            },
            None => {
                assert(marked_keys(block@, pos as int, texts(keys@)) == texts(keys@));
                break;
            },
        }
    }
    if contains(block, "InputEventMouseButton") {
        if contains(block, r#"button_index":1"#) {
            push_text(&mut keys, String::from_str("LeftClick"));
        } else if contains(block, r#"button_index":2"#) {
            push_text(&mut keys, String::from_str("RightClick"));
        }
    }
    keys
}

/// An input action of a project with its keys and a description.
#[derive(Clone, Debug, PartialEq, Eq)]
pub struct InputMapping {
    pub action: String,
    pub keys: Vec<String>,
    pub description: String,
}

/// What an input mapping holds, as texts.
pub struct MappingView {
    pub action: Seq<char>,
    pub keys: Seq<Seq<char>>,
    pub description: Seq<char>,
}

impl View for InputMapping {
    type V = MappingView;

    open spec fn view(&self) -> MappingView {
        MappingView { action: self.action@, keys: texts(self.keys@), description: self.description@ }
    }
}

/// Where the reading of a project file stands after some of its lines.
pub struct ScanState {
    /// Inside the `[input]` section.
    pub in_input: bool,
    /// The action whose definition is being read.
    pub action: Option<Seq<char>>,
    /// The text of that definition so far.
    pub block: Seq<char>,
    pub found: Seq<MappingView>,
}

/// The mappings found, with the pending action's entry added if its
/// definition names any keys.
pub open spec fn flushed(st: ScanState) -> Seq<MappingView> {
    match st.action {
        Some(a) => {
            let keys = block_keys(st.block);
            if keys.len() > 0 {
                st.found.push(MappingView { action: a, keys, description: action_description(a) })
            } else {
                st.found
            }
        },
        None => st.found,
    }
}

/// Reads one trimmed line: section headers open and close the `[input]`
/// section; inside it `name={` starts an action's definition (ending the
/// one before), other lines continue it, and a line ending in `}` ends it.
pub open spec fn scan_line(st: ScanState, t: Seq<char>) -> ScanState {
    if t == "[input]"@ {
        ScanState { in_input: true, ..st }
    } else if t.len() > 0 && t[0] == '[' && t.last() == ']' {
        ScanState { in_input: false, ..st }
    } else if !st.in_input {
        st
    } else {
        let st1 = match first_occurrence(t, "={"@) {
            Some(eq) => ScanState {
                in_input: true,
                action: Some(t.subrange(0, eq)),
                block: t.subrange(eq, t.len() as int),
                found: flushed(st),
            },
            None => if st.action is Some {
                ScanState { block: st.block + t, ..st }
            } else {
                st
            },
        };
        if st1.action is Some && t.len() > 0 && t.last() == '}' {
            ScanState { in_input: true, action: None, block: seq![], found: flushed(st1) }
        } else {
            st1
        }
    }
}

/// Reads the lines of `content` from position `from` on.
pub open spec fn scan_lines(content: Seq<char>, from: int, st: ScanState) -> ScanState
    decreases content.len() + 1 - from,
{
    if from < 0 || from > content.len() {
        st
    } else {
        match first_occurrence_from(content, "\n"@, from) {
            Some(e) => if from <= e < content.len() {
                scan_lines(content, e + 1, scan_line(st, trimmed(content.subrange(from, e))))
            } else {
                st
            },
            None => scan_line(st, trimmed(content.subrange(from, content.len() as int))),
        }
    }
}

/// The input mappings that a project file defines, in order.
pub open spec fn input_mappings(content: Seq<char>) -> Seq<MappingView> {
    scan_lines(content, 0, ScanState { in_input: false, action: None, block: seq![], found: seq![] }).found
}

/// The text of an optional string.
pub open spec fn text_of(o: Option<String>) -> Option<Seq<char>> {
    match o {
        Some(s) => Some(s@),
        None => None,
    }
}

/// The views of a sequence of mappings.
pub open spec fn mappings_view(v: Seq<InputMapping>) -> Seq<MappingView> {
    v.map_values(|m: InputMapping| m@)
}

fn flush(out: &mut Vec<InputMapping>, action: String, block: &String)
    ensures
        mappings_view(final(out)@) == flushed(ScanState {
            in_input: true,
            action: Some(action@),
            block: block@,
            found: mappings_view(old(out)@),
        }),
{
    let keys = parse_keys_from_block(block.as_str());
    if keys.len() > 0 {
        let m = InputMapping { description: action_to_description(action.as_str()), action, keys };
        out.push(m);
        assert(mappings_view(final(out)@) =~= mappings_view(old(out)@).push(m@));
    }
}

fn ends_with_char(t: &str, c: char) -> (r: bool)
    ensures
        r == (t@.len() > 0 && t@.last() == c),
{
    let n = t.unicode_len();
    n > 0 && t.get_char(n - 1) == c
}

/// The input mappings that a project file's `[input]` section defines:
/// each action with the keys its definition names, in order, leaving out
/// actions without keys.
pub fn input_mappings_from(content: &str) -> (r: Vec<InputMapping>)
    ensures
        mappings_view(r@) == input_mappings(content@),
{
    proof {
        reveal_strlit("\n");
        reveal_strlit("={");
    }
    let n = content.unicode_len();
    let mut out: Vec<InputMapping> = Vec::new();
    let mut in_input = false;
    let mut current: Option<String> = None;
    let mut block = String::new();
    let mut pos: usize = 0;
    assert(mappings_view(out@) =~= Seq::<MappingView>::empty());
    loop
        invariant_except_break
            input_mappings(content@) == scan_lines(content@, pos as int, ScanState {
                in_input,
                action: text_of(current),
                block: block@,
                found: mappings_view(out@),
            }).found,
        invariant
            n == content@.len(),
            pos <= n,
            "\n"@ == seq!['\n'],
            "={"@.len() == 2,
        ensures
            input_mappings(content@) == mappings_view(out@),
        decreases n + 1 - pos,
    {
        let next = find_from(content, "\n", pos);
        let end = match next {
            Some(e) => e,
            None => n,
        };
        proof {
            lemma_first_occurrence_bounds(content@, "\n"@, pos as int);
        }
        let t = trim_range(content, pos, end);
        let ghost st = ScanState {
            in_input,
            action: text_of(current),
            block: block@,
            found: mappings_view(out@),
        };
        if same_text(t, "[input]") {
            in_input = true;
        } else if t.unicode_len() > 0 && t.get_char(0) == '[' && ends_with_char(t, ']') {
            in_input = false;
        } else if in_input {
            match find(t, "={") {
                Some(eq) => {
                    let tn = t.unicode_len();
                    match current {
                        Some(a) => {
                            flush(&mut out, a, &block);
                        },
                        None => {},
                    }
                    current = Some(String::from_str(t.substring_char(0, eq)));
                    block = String::from_str(t.substring_char(eq, tn));
                },
                None => {
                    if current.is_some() {
                        block.append(t);
                    }
                },
            }
            if current.is_some() && ends_with_char(t, '}') {
                match current {
                    Some(a) => {
                        flush(&mut out, a, &block);
                    },
                    None => {},
                }
                current = None;
                block = String::new();
            }
        }
        let ghost st2 = ScanState {
            in_input,
            action: text_of(current),
            block: block@,
            found: mappings_view(out@),
        };
        assert(st2 == scan_line(st, t@));
        match next {
            Some(e) => {
                pos = e + 1;
            },
            None => {
                assert(input_mappings(content@) == mappings_view(out@));
                break;
            },
        }
    }
    out
}

} // verus!
