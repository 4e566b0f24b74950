use vstd::prelude::*;

verus! {

/// A platform key code: the keys that a viewer may press on this host.
#[derive(Clone, Copy, Debug, PartialEq, Eq, Structural)]
pub enum KeyCode {
    Return,
    Backspace,
    ControlLeft,
    ShiftLeft,
    Alt,
    Escape,
    Tab,
    Space,
    UpArrow,
    DownArrow,
    LeftArrow,
    RightArrow,
    KeyA,
    KeyB,
    KeyC,
    KeyD,
    KeyE,
    KeyF,
    KeyG,
    KeyH,
    KeyI,
    KeyJ,
    KeyK,
    KeyL,
    KeyM,
    KeyN,
    KeyO,
    KeyP,
    KeyQ,
    KeyR,
    KeyS,
    KeyT,
    KeyU,
    KeyV,
    KeyW,
    KeyX,
    KeyY,
    KeyZ,
    Num1,
    Num2,
    Num3,
    Num4,
    Num5,
    Num6,
    Num7,
    Num8,
    Num9,
    Num0,
}

/// The key that a single-character name stands for: a lowercase ASCII letter
/// or a decimal digit.
pub open spec fn char_key(c: char) -> Option<KeyCode> {
    match c {
        'a' => Some(KeyCode::KeyA),
        'b' => Some(KeyCode::KeyB),
        'c' => Some(KeyCode::KeyC),
        'd' => Some(KeyCode::KeyD),
        'e' => Some(KeyCode::KeyE),
        'f' => Some(KeyCode::KeyF),
        'g' => Some(KeyCode::KeyG),
        'h' => Some(KeyCode::KeyH),
        'i' => Some(KeyCode::KeyI),
        'j' => Some(KeyCode::KeyJ),
        'k' => Some(KeyCode::KeyK),
        'l' => Some(KeyCode::KeyL),
        'm' => Some(KeyCode::KeyM),
        'n' => Some(KeyCode::KeyN),
        'o' => Some(KeyCode::KeyO),
        'p' => Some(KeyCode::KeyP),
        'q' => Some(KeyCode::KeyQ),
        'r' => Some(KeyCode::KeyR),
        's' => Some(KeyCode::KeyS),
        't' => Some(KeyCode::KeyT),
        'u' => Some(KeyCode::KeyU),
        'v' => Some(KeyCode::KeyV),
        'w' => Some(KeyCode::KeyW),
        'x' => Some(KeyCode::KeyX),
        'y' => Some(KeyCode::KeyY),
        'z' => Some(KeyCode::KeyZ),
        '1' => Some(KeyCode::Num1),
        '2' => Some(KeyCode::Num2),
        '3' => Some(KeyCode::Num3),
        '4' => Some(KeyCode::Num4),
        '5' => Some(KeyCode::Num5),
        '6' => Some(KeyCode::Num6),
        '7' => Some(KeyCode::Num7),
        '8' => Some(KeyCode::Num8),
        '9' => Some(KeyCode::Num9),
        '0' => Some(KeyCode::Num0),
        _ => None,
    }
}

/// The key that a lowercase name stands for, if it is in the vocabulary.
pub open spec fn key_of(name: Seq<char>) -> Option<KeyCode> {
    if name.len() == 1 {
        char_key(name[0])
    } else if name == "enter"@ {
        Some(KeyCode::Return)
    } else if name == "backspace"@ {
        Some(KeyCode::Backspace)
    } else if name == "control"@ {
        Some(KeyCode::ControlLeft)
    } else if name == "shift"@ {
        Some(KeyCode::ShiftLeft)
    } else if name == "alt"@ {
        Some(KeyCode::Alt)
    } else if name == "escape"@ {
        Some(KeyCode::Escape)
    } else if name == "tab"@ {
        Some(KeyCode::Tab)
    } else if name == "space"@ {
        Some(KeyCode::Space)
    } else if name == "arrowup"@ {
        Some(KeyCode::UpArrow)
    } else if name == "arrowdown"@ {
        Some(KeyCode::DownArrow)
    } else if name == "arrowleft"@ {
        Some(KeyCode::LeftArrow)
    } else if name == "arrowright"@ {
        Some(KeyCode::RightArrow)
    } else {
        None
    }
}

/// The lowercase form of a text, as std's `str::to_lowercase` computes it.
pub uninterp spec fn lower_of(s: Seq<char>) -> Seq<char>;

/// The lowercase form of an ASCII character: uppercase letters become their
/// lowercase letter, anything else stays.
pub open spec fn ascii_lower(c: char) -> char {
    match c {
        'A' => 'a',
        'B' => 'b',
        'C' => 'c',
        'D' => 'd',
        'E' => 'e',
        'F' => 'f',
        'G' => 'g',
        'H' => 'h',
        'I' => 'i',
        'J' => 'j',
        'K' => 'k',
        'L' => 'l',
        'M' => 'm',
        'N' => 'n',
        'O' => 'o',
        'P' => 'p',
        'Q' => 'q',
        'R' => 'r',
        'S' => 's',
        'T' => 't',
        'U' => 'u',
        'V' => 'v',
        'W' => 'w',
        'X' => 'x',
        'Y' => 'y',
        'Z' => 'z',
        _ => c,
    }
}

/// Whether every character of a text is ASCII.
pub open spec fn all_ascii(s: Seq<char>) -> bool {
    forall|i: int| 0 <= i < s.len() ==> (#[trigger] s[i] as u32) < 128
}

/// Relies on std's `str::to_lowercase`: the result depends on the text alone,
/// and on ASCII text it lowers each uppercase letter and keeps every other
/// character.
#[verifier::external_body]
pub(crate) fn lowercase(s: &str) -> (r: String)
    ensures
        r@ == lower_of(s@),
        all_ascii(s@) ==> r@ == s@.map_values(|c: char| ascii_lower(c)),
{
    s.to_lowercase()
}

/// Whether two texts hold the same characters.
pub fn same_text(s: &str, w: &str) -> (r: bool)
    ensures
        r == (s@ == w@),
{
    let n = s.unicode_len();
    if n != w.unicode_len() {
        return false;
    }
    let mut i: usize = 0;
    while i < n
        invariant
            n == s@.len(),
            n == w@.len(),
            i <= n,
            forall|j: int| 0 <= j < i ==> s@[j] == w@[j],
        decreases n - i,
    {
        if s.get_char(i) != w.get_char(i) {
            return false;
        }
        i = i + 1;
    }
    assert(s@ =~= w@);
    true
}

/// The key for a single character, if it is a lowercase letter or a digit.
fn key_for_char(c: char) -> (r: Option<KeyCode>)
    ensures
        r == char_key(c),
{
    match c {
        'a' => Some(KeyCode::KeyA),
        'b' => Some(KeyCode::KeyB),
        'c' => Some(KeyCode::KeyC),
        'd' => Some(KeyCode::KeyD),
        'e' => Some(KeyCode::KeyE),
        'f' => Some(KeyCode::KeyF),
        'g' => Some(KeyCode::KeyG),
        'h' => Some(KeyCode::KeyH),
        'i' => Some(KeyCode::KeyI),
        'j' => Some(KeyCode::KeyJ),
        'k' => Some(KeyCode::KeyK),
        'l' => Some(KeyCode::KeyL),
        'm' => Some(KeyCode::KeyM),
        'n' => Some(KeyCode::KeyN),
        'o' => Some(KeyCode::KeyO),
        'p' => Some(KeyCode::KeyP),
        'q' => Some(KeyCode::KeyQ),
        'r' => Some(KeyCode::KeyR),
        's' => Some(KeyCode::KeyS),
        't' => Some(KeyCode::KeyT),
        'u' => Some(KeyCode::KeyU),
        'v' => Some(KeyCode::KeyV),
        'w' => Some(KeyCode::KeyW),
        'x' => Some(KeyCode::KeyX),
        'y' => Some(KeyCode::KeyY),
        'z' => Some(KeyCode::KeyZ),
        '1' => Some(KeyCode::Num1),
        '2' => Some(KeyCode::Num2),
        '3' => Some(KeyCode::Num3),
        '4' => Some(KeyCode::Num4),
        '5' => Some(KeyCode::Num5),
        '6' => Some(KeyCode::Num6),
        '7' => Some(KeyCode::Num7),
        '8' => Some(KeyCode::Num8),
        '9' => Some(KeyCode::Num9),
        '0' => Some(KeyCode::Num0),
        _ => None,
    }
}

/// Looks up a name that is already in lowercase. Names outside the
/// vocabulary give `None`.
pub fn key_for_lowercase(name: &str) -> (r: Option<KeyCode>)
    ensures
        r == key_of(name@),
{
    if name.unicode_len() == 1 {
        key_for_char(name.get_char(0))
    } else if same_text(name, "enter") {
        Some(KeyCode::Return)
    } else if same_text(name, "backspace") {
        Some(KeyCode::Backspace)
    } else if same_text(name, "control") {
        Some(KeyCode::ControlLeft)
    } else if same_text(name, "shift") {
        Some(KeyCode::ShiftLeft)
    } else if same_text(name, "alt") {
        Some(KeyCode::Alt)
    } else if same_text(name, "escape") {
        Some(KeyCode::Escape)
    } else if same_text(name, "tab") {
        Some(KeyCode::Tab)
    } else if same_text(name, "space") {
        Some(KeyCode::Space)
    } else if same_text(name, "arrowup") {
        Some(KeyCode::UpArrow)
    } else if same_text(name, "arrowdown") {
        Some(KeyCode::DownArrow)
    } else if same_text(name, "arrowleft") {
        Some(KeyCode::LeftArrow)
    } else if same_text(name, "arrowright") {
        Some(KeyCode::RightArrow)
    } else {
        None
    }
}

/// Looks up a key name regardless of case: the name is lowercased first, so
/// `"A"` and `"a"` give the same key. Names outside the vocabulary give `None`.
pub fn str_to_key(key_str: &str) -> (r: Option<KeyCode>)
    ensures
        r == key_of(lower_of(key_str@)),
        all_ascii(key_str@) ==> r == key_of(key_str@.map_values(|c: char| ascii_lower(c))),
{
    let lowered = lowercase(key_str);
    key_for_lowercase(lowered.as_str())
}

} // verus!
