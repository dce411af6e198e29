//! Parsing a key-combination spec string such as `CommandOrControl+Alt+C`
//! into modifiers and a key code. The application registers the parsed
//! combination with the global-shortcut collaborator.

use crate::text::{chars_of, spec_split, spec_trim, split_chars, trim_chars};
use vstd::prelude::*;

verus! {

/// The modifier keys a combination may hold.
#[derive(Debug, Clone, Copy, PartialEq, Eq, Structural)]
pub struct HotkeyModifiers {
    pub control: bool,
    pub alt: bool,
    pub shift: bool,
    pub meta: bool,
}

/// The non-modifier keys a combination may name.
#[derive(Debug, Clone, Copy, PartialEq, Eq, Structural)]
pub enum KeyCode {
    KeyA,
    KeyB,
    KeyC,
    KeyD,
    KeyE,
    KeyF,
    KeyG,
    KeyH,
    KeyI,
    KeyJ,
    KeyK,
    KeyL,
    KeyM,
    KeyN,
    KeyO,
    KeyP,
    KeyQ,
    KeyR,
    KeyS,
    KeyT,
    KeyU,
    KeyV,
    KeyW,
    KeyX,
    KeyY,
    KeyZ,
    Digit0,
    Digit1,
    Digit2,
    Digit3,
    Digit4,
    Digit5,
    Digit6,
    Digit7,
    Digit8,
    Digit9,
    F1,
    F2,
    F3,
    F4,
    F5,
    F6,
    F7,
    F8,
    F9,
    F10,
    F11,
    F12,
    Space,
    Tab,
    Escape,
    Enter,
    Backspace,
    Insert,
    Delete,
    Home,
    End,
    PageUp,
    PageDown,
    ArrowLeft,
    ArrowRight,
    ArrowUp,
    ArrowDown,
}

/// A parsed key combination.
#[derive(Debug, Clone, Copy, PartialEq, Eq, Structural)]
pub struct Hotkey {
    pub modifiers: HotkeyModifiers,
    pub code: KeyCode,
}

/// An ASCII letter lowered; every other character stands.
pub open spec fn ascii_lower(c: char) -> char {
    match c {
        'A' => 'a',
        'B' => 'b',
        'C' => 'c',
        'D' => 'd',
        'E' => 'e',
        'F' => 'f',
        'G' => 'g',
        'H' => 'h',
        'I' => 'i',
        'J' => 'j',
        'K' => 'k',
        'L' => 'l',
        'M' => 'm',
        'N' => 'n',
        'O' => 'o',
        'P' => 'p',
        'Q' => 'q',
        'R' => 'r',
        'S' => 's',
        'T' => 't',
        'U' => 'u',
        'V' => 'v',
        'W' => 'w',
        'X' => 'x',
        'Y' => 'y',
        'Z' => 'z',
        _ => c,
    }
}

fn ascii_lower_of(c: char) -> (r: char)
    ensures
        r == ascii_lower(c),
{
    match c {
        'A' => 'a',
        'B' => 'b',
        'C' => 'c',
        'D' => 'd',
        'E' => 'e',
        'F' => 'f',
        'G' => 'g',
        'H' => 'h',
        'I' => 'i',
        'J' => 'j',
        'K' => 'k',
        'L' => 'l',
        'M' => 'm',
        'N' => 'n',
        'O' => 'o',
        'P' => 'p',
        'Q' => 'q',
        'R' => 'r',
        'S' => 's',
        'T' => 't',
        'U' => 'u',
        'V' => 'v',
        'W' => 'w',
        'X' => 'x',
        'Y' => 'y',
        'Z' => 'z',
        _ => c,
    }
}

/// The part lowered character by character.
pub open spec fn spec_lower(s: Seq<char>) -> Seq<char> {
    s.map_values(|c: char| ascii_lower(c))
}

fn lower_chars(v: &Vec<char>) -> (r: Vec<char>)
    ensures
        r@ == spec_lower(v@),
{
    let mut r: Vec<char> = Vec::new();
    let mut i: usize = 0;
    while i < v.len()
        invariant
            i <= v@.len(),
            r@.len() == i,
            forall|j: int| 0 <= j < i ==> r@[j] == ascii_lower(v@[j]),
        decreases v@.len() - i,
    {
        r.push(ascii_lower_of(v[i]));
        i = i + 1;
    }
    proof {
        assert(r@ =~= spec_lower(v@));
    }
    r
}

/// The key code a one-character part names: a letter of either case or a
/// digit.
pub open spec fn key_of_single(c: char) -> Option<KeyCode> {
    match c {
        'a' | 'A' => Some(KeyCode::KeyA),
        'b' | 'B' => Some(KeyCode::KeyB),
        'c' | 'C' => Some(KeyCode::KeyC),
        'd' | 'D' => Some(KeyCode::KeyD),
        'e' | 'E' => Some(KeyCode::KeyE),
        'f' | 'F' => Some(KeyCode::KeyF),
        'g' | 'G' => Some(KeyCode::KeyG),
        'h' | 'H' => Some(KeyCode::KeyH),
        'i' | 'I' => Some(KeyCode::KeyI),
        'j' | 'J' => Some(KeyCode::KeyJ),
        'k' | 'K' => Some(KeyCode::KeyK),
        'l' | 'L' => Some(KeyCode::KeyL),
        'm' | 'M' => Some(KeyCode::KeyM),
        'n' | 'N' => Some(KeyCode::KeyN),
        'o' | 'O' => Some(KeyCode::KeyO),
        'p' | 'P' => Some(KeyCode::KeyP),
        'q' | 'Q' => Some(KeyCode::KeyQ),
        'r' | 'R' => Some(KeyCode::KeyR),
        's' | 'S' => Some(KeyCode::KeyS),
        't' | 'T' => Some(KeyCode::KeyT),
        'u' | 'U' => Some(KeyCode::KeyU),
        'v' | 'V' => Some(KeyCode::KeyV),
        'w' | 'W' => Some(KeyCode::KeyW),
        'x' | 'X' => Some(KeyCode::KeyX),
        'y' | 'Y' => Some(KeyCode::KeyY),
        'z' | 'Z' => Some(KeyCode::KeyZ),
        '0' => Some(KeyCode::Digit0),
        '1' => Some(KeyCode::Digit1),
        '2' => Some(KeyCode::Digit2),
        '3' => Some(KeyCode::Digit3),
        '4' => Some(KeyCode::Digit4),
        '5' => Some(KeyCode::Digit5),
        '6' => Some(KeyCode::Digit6),
        '7' => Some(KeyCode::Digit7),
        '8' => Some(KeyCode::Digit8),
        '9' => Some(KeyCode::Digit9),
        _ => None,
    }
}

fn key_of_single_char(c: char) -> (r: Option<KeyCode>)
    ensures
        r == key_of_single(c),
{
    match c {
        'a' | 'A' => Some(KeyCode::KeyA),
        'b' | 'B' => Some(KeyCode::KeyB),
        'c' | 'C' => Some(KeyCode::KeyC),
        'd' | 'D' => Some(KeyCode::KeyD),
        'e' | 'E' => Some(KeyCode::KeyE),
        'f' | 'F' => Some(KeyCode::KeyF),
        'g' | 'G' => Some(KeyCode::KeyG),
        'h' | 'H' => Some(KeyCode::KeyH),
        'i' | 'I' => Some(KeyCode::KeyI),
        'j' | 'J' => Some(KeyCode::KeyJ),
        'k' | 'K' => Some(KeyCode::KeyK),
        'l' | 'L' => Some(KeyCode::KeyL),
        'm' | 'M' => Some(KeyCode::KeyM),
        'n' | 'N' => Some(KeyCode::KeyN),
        'o' | 'O' => Some(KeyCode::KeyO),
        'p' | 'P' => Some(KeyCode::KeyP),
        'q' | 'Q' => Some(KeyCode::KeyQ),
        'r' | 'R' => Some(KeyCode::KeyR),
        's' | 'S' => Some(KeyCode::KeyS),
        't' | 'T' => Some(KeyCode::KeyT),
        'u' | 'U' => Some(KeyCode::KeyU),
        'v' | 'V' => Some(KeyCode::KeyV),
        'w' | 'W' => Some(KeyCode::KeyW),
        'x' | 'X' => Some(KeyCode::KeyX),
        'y' | 'Y' => Some(KeyCode::KeyY),
        'z' | 'Z' => Some(KeyCode::KeyZ),
        '0' => Some(KeyCode::Digit0),
        '1' => Some(KeyCode::Digit1),
        '2' => Some(KeyCode::Digit2),
        '3' => Some(KeyCode::Digit3),
        '4' => Some(KeyCode::Digit4),
        '5' => Some(KeyCode::Digit5),
        '6' => Some(KeyCode::Digit6),
        '7' => Some(KeyCode::Digit7),
        '8' => Some(KeyCode::Digit8),
        '9' => Some(KeyCode::Digit9),
        _ => None,
    }
}

/// The key code a lowered multi-character part names: function keys and
/// the named special keys.
pub open spec fn special_key_of(name: Seq<char>) -> Option<KeyCode> {
    if name == "f1"@ {
        Some(KeyCode::F1)
    } else if name == "f2"@ {
        Some(KeyCode::F2)
    } else if name == "f3"@ {
        Some(KeyCode::F3)
    } else if name == "f4"@ {
        Some(KeyCode::F4)
    } else if name == "f5"@ {
        Some(KeyCode::F5)
    } else if name == "f6"@ {
        Some(KeyCode::F6)
    } else if name == "f7"@ {
        Some(KeyCode::F7)
    } else if name == "f8"@ {
        Some(KeyCode::F8)
    } else if name == "f9"@ {
        Some(KeyCode::F9)
    } else if name == "f10"@ {
        Some(KeyCode::F10)
    } else if name == "f11"@ {
        Some(KeyCode::F11)
    } else if name == "f12"@ {
        Some(KeyCode::F12)
    } else if name == "space"@ {
        Some(KeyCode::Space)
    } else if name == "tab"@ {
        Some(KeyCode::Tab)
    } else if name == "escape"@ {
        Some(KeyCode::Escape)
    } else if name == "enter"@ {
        Some(KeyCode::Enter)
    } else if name == "backspace"@ {
        Some(KeyCode::Backspace)
    } else if name == "insert"@ {
        Some(KeyCode::Insert)
    } else if name == "delete"@ {
        Some(KeyCode::Delete)
    } else if name == "home"@ {
        Some(KeyCode::Home)
    } else if name == "end"@ {
        Some(KeyCode::End)
    } else if name == "pageup"@ {
        Some(KeyCode::PageUp)
    } else if name == "pagedown"@ {
        Some(KeyCode::PageDown)
    } else if name == "left"@ {
        Some(KeyCode::ArrowLeft)
    } else if name == "right"@ {
        Some(KeyCode::ArrowRight)
    } else if name == "up"@ {
        Some(KeyCode::ArrowUp)
    } else if name == "down"@ {
        Some(KeyCode::ArrowDown)
    } else {
        None
    }
}

/// Character-by-character equality of gathered characters and a literal.
fn chars_eq_lit(v: &Vec<char>, lit: &str) -> (r: bool)
    ensures
        r == (v@ == lit@),
{
    let lv = chars_of(lit);
    if v.len() != lv.len() {
        proof {
            assert(v@ != lit@);
        }
        return false;
    }
    let mut i: usize = 0;
    while i < v.len()
        invariant
            v@.len() == lv@.len(),
            lv@ == lit@,
            i <= v@.len(),
            forall|j: int| 0 <= j < i ==> v@[j] == lv@[j],
        decreases v@.len() - i,
    {
        if v[i] != lv[i] {
            return false;
        }
        i = i + 1;
    }
    proof {
        assert(v@ =~= lit@);
    }
    true
}

fn special_key_of_name(name: &Vec<char>) -> (r: Option<KeyCode>)
    ensures
        r == special_key_of(name@),
{
    if chars_eq_lit(name, "f1") {
        Some(KeyCode::F1)
    } else if chars_eq_lit(name, "f2") {
        Some(KeyCode::F2)
    } else if chars_eq_lit(name, "f3") {
        Some(KeyCode::F3)
    } else if chars_eq_lit(name, "f4") {
        Some(KeyCode::F4)
    } else if chars_eq_lit(name, "f5") {
        Some(KeyCode::F5)
    } else if chars_eq_lit(name, "f6") {
        Some(KeyCode::F6)
    } else if chars_eq_lit(name, "f7") {
        Some(KeyCode::F7)
    } else if chars_eq_lit(name, "f8") {
        Some(KeyCode::F8)
    } else if chars_eq_lit(name, "f9") {
        Some(KeyCode::F9)
    } else if chars_eq_lit(name, "f10") {
        Some(KeyCode::F10)
    } else if chars_eq_lit(name, "f11") {
        Some(KeyCode::F11)
    } else if chars_eq_lit(name, "f12") {
        Some(KeyCode::F12)
    } else if chars_eq_lit(name, "space") {
        Some(KeyCode::Space)
    } else if chars_eq_lit(name, "tab") {
        Some(KeyCode::Tab)
    } else if chars_eq_lit(name, "escape") {
        Some(KeyCode::Escape)
    } else if chars_eq_lit(name, "enter") {
        Some(KeyCode::Enter)
    } else if chars_eq_lit(name, "backspace") {
        Some(KeyCode::Backspace)
    } else if chars_eq_lit(name, "insert") {
        Some(KeyCode::Insert)
    } else if chars_eq_lit(name, "delete") {
        Some(KeyCode::Delete)
    } else if chars_eq_lit(name, "home") {
        Some(KeyCode::Home)
    } else if chars_eq_lit(name, "end") {
        Some(KeyCode::End)
    } else if chars_eq_lit(name, "pageup") {
        Some(KeyCode::PageUp)
    } else if chars_eq_lit(name, "pagedown") {
        Some(KeyCode::PageDown)
    } else if chars_eq_lit(name, "left") {
        Some(KeyCode::ArrowLeft)
    } else if chars_eq_lit(name, "right") {
        Some(KeyCode::ArrowRight)
    } else if chars_eq_lit(name, "up") {
        Some(KeyCode::ArrowUp)
    } else if chars_eq_lit(name, "down") {
        Some(KeyCode::ArrowDown)
    } else {
        None
    }
}

/// The modifiers with one more set, when the lowered part names one.
pub open spec fn apply_modifier(m: HotkeyModifiers, name: Seq<char>) -> Option<HotkeyModifiers> {
    if name == "ctrl"@ || name == "control"@ || name == "commandorcontrol"@ {
        Some(HotkeyModifiers { control: true, ..m })
    } else if name == "alt"@ || name == "option"@ {
        Some(HotkeyModifiers { alt: true, ..m })
    } else if name == "shift"@ {
        Some(HotkeyModifiers { shift: true, ..m })
    } else if name == "super"@ || name == "command"@ || name == "cmd"@ || name == "meta"@ {
        Some(HotkeyModifiers { meta: true, ..m })
    } else {
        None
    }
}

fn apply_modifier_part(m: HotkeyModifiers, name: &Vec<char>) -> (r: Option<HotkeyModifiers>)
    ensures
        r == apply_modifier(m, name@),
{
    if chars_eq_lit(name, "ctrl") || chars_eq_lit(name, "control") || chars_eq_lit(
        name,
        "commandorcontrol",
    ) {
        Some(HotkeyModifiers { control: true, ..m })
    } else if chars_eq_lit(name, "alt") || chars_eq_lit(name, "option") {
        Some(HotkeyModifiers { alt: true, ..m })
    } else if chars_eq_lit(name, "shift") {
        Some(HotkeyModifiers { shift: true, ..m })
    } else if chars_eq_lit(name, "super") || chars_eq_lit(name, "command") || chars_eq_lit(
        name,
        "cmd",
    ) || chars_eq_lit(name, "meta") {
        Some(HotkeyModifiers { meta: true, ..m })
    } else {
        None
    }
}

/// The modifiers gathered over the parts before the key, left to right.
pub open spec fn mods_of(parts: Seq<Seq<char>>) -> Option<HotkeyModifiers>
    decreases parts.len(),
{
    if parts.len() == 0 {
        Some(HotkeyModifiers { control: false, alt: false, shift: false, meta: false })
    } else {
        match mods_of(parts.drop_last()) {
            Some(m) => apply_modifier(m, spec_lower(parts.last())),
            None => None,
        }
    }
}

/// The trimmed parts of the spec string, split at `+`.
pub open spec fn spec_hotkey_parts(s: Seq<char>) -> Seq<Seq<char>> {
    spec_split(s, '+').map_values(|p: Seq<char>| spec_trim(p))
}

/// What a spec string parses to: every part before the last must name a
/// modifier; the last part names the key — by its one character, or by
/// its lowered name.
pub open spec fn spec_parse_hotkey(s: Seq<char>) -> Option<Hotkey> {
    let parts = spec_hotkey_parts(s);
    let key_part = parts.last();
    let code = if key_part.len() == 1 {
        key_of_single(key_part[0])
    } else {
        special_key_of(spec_lower(key_part))
    };
    match (mods_of(parts.drop_last()), code) {
        (Some(m), Some(c)) => Some(Hotkey { modifiers: m, code: c }),
        _ => None,
    }
}

/// Splitting yields at least one segment.
proof fn lemma_split_nonempty(s: Seq<char>, sep: char, i: int, cur: Seq<char>)
    ensures
        crate::text::split_from(s, sep, i, cur).len() >= 1,
    decreases s.len() - i,
{
    if !(i < 0 || i >= s.len()) {
        if s[i] == sep {
            lemma_split_nonempty(s, sep, i + 1, Seq::empty());
        } else {
            lemma_split_nonempty(s, sep, i + 1, cur.push(s[i]));
        }
    }
}

/// A failed modifier prefix fails the whole modifier list.
proof fn lemma_mods_none_extends(parts: Seq<Seq<char>>, i: int)
    requires
        0 <= i <= parts.len(),
        mods_of(parts.take(i)) is None,
    ensures
        mods_of(parts) is None,
    decreases parts.len() - i,
{
    if i < parts.len() {
        assert(parts.take(i + 1).drop_last() =~= parts.take(i));
        lemma_mods_none_extends(parts, i + 1);
    } else {
        assert(parts.take(i) =~= parts);
    }
}

/// Parse a key-combination spec string, per `spec_parse_hotkey`.
pub fn parse_hotkey(hotkey: &str) -> (r: Option<Hotkey>)
    ensures
        r == spec_parse_hotkey(hotkey@),
{
    let chars = chars_of(hotkey);
    let raw_parts = split_chars(&chars, '+');
    proof {
        lemma_split_nonempty(hotkey@, '+', 0, Seq::<char>::empty());
    }
    let mut parts: Vec<Vec<char>> = Vec::new();
    let mut i: usize = 0;
    while i < raw_parts.len()
        invariant
            raw_parts@.len() == spec_split(hotkey@, '+').len(),
            forall|j: int|
                0 <= j < raw_parts@.len() ==> #[trigger] raw_parts@[j]@ == spec_split(
                    hotkey@,
                    '+',
                )[j],
            i <= raw_parts@.len(),
            parts@.len() == i,
            forall|j: int| 0 <= j < i ==> #[trigger] parts@[j]@ == spec_hotkey_parts(hotkey@)[j],
        decreases raw_parts@.len() - i,
    {
        parts.push(trim_chars(&raw_parts[i]));
        i = i + 1;
    }
    let n = parts.len();
    let ghost gparts = spec_hotkey_parts(hotkey@);
    proof {
        assert(gparts.len() == n as nat);
        assert forall|j: int| 0 <= j < n implies #[trigger] parts@[j]@ == gparts[j] by {}
    }
    let mut m = HotkeyModifiers { control: false, alt: false, shift: false, meta: false };
    let mut i: usize = 0;
    while i < n - 1
        invariant
            n >= 1,
            n == parts@.len(),
            gparts == spec_hotkey_parts(hotkey@),
            gparts.len() == n as nat,
            forall|j: int| 0 <= j < n ==> #[trigger] parts@[j]@ == gparts[j],
            i <= n - 1,
            mods_of(gparts.take(i as int)) == Some(m),
        decreases n - 1 - i,
    {
        proof {
            assert(gparts.take(i + 1).drop_last() =~= gparts.take(i as int));
            assert(gparts.take(i + 1).last() == gparts[i as int]);
        }
        let lowered = lower_chars(&parts[i]);
        match apply_modifier_part(m, &lowered) {
            Some(m2) => {
                m = m2;
            },
            None => {
                proof {
                    lemma_mods_none_extends(gparts.drop_last(), i + 1);
                    assert(gparts.drop_last().take(i + 1) =~= gparts.take(i + 1));
                }
                return None;
            },
        }
        i = i + 1;
    }
    proof {
        assert(gparts.drop_last() =~= gparts.take(n - 1));
    }
    let key_part = &parts[n - 1];
    let code = if key_part.len() == 1 {
        key_of_single_char(key_part[0])
    } else {
        let lowered = lower_chars(key_part);
        special_key_of_name(&lowered)
    };
    proof {
        assert(parts@[n - 1]@ == gparts.last());
    }
    match code {
        Some(c) => Some(Hotkey { modifiers: m, code: c }),
        None => None,
    }
}

} // verus!
