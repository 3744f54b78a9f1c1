//! The keybinding encoder: a pure function from a raw key press plus
//! modifier state to an optional canonical key token.
//!
//! Printable literal input with no special modifier active passes through as
//! the token itself; anything else becomes a bracketed chord such as
//! `<C-a>`, with the modifier names in one fixed order, so that the same
//! inputs always yield the same token.

use vstd::prelude::*;

verus! {

/// A raw key identity, as reported by the platform for a key-down event.
#[derive(Clone, Copy, Debug, PartialEq, Eq, Structural)]
pub enum KeyCode {
    A,
    B,
    C,
    D,
    E,
    F,
    G,
    H,
    I,
    J,
    K,
    L,
    M,
    N,
    O,
    P,
    Q,
    R,
    S,
    T,
    U,
    V,
    W,
    X,
    Y,
    Z,
    Num0,
    Num1,
    Num2,
    Num3,
    Num4,
    Num5,
    Num6,
    Num7,
    Num8,
    Num9,
    Escape,
    Return,
    Tab,
    Backspace,
    Space,
    Delete,
    Up,
    Down,
    Left,
    Right,
}

/// The modifier keys held during a key press.  A plain record rather than a
/// set walked in some platform order, so the encoding cannot depend on an
/// iteration order.
#[derive(Clone, Copy, Debug, PartialEq, Eq, Structural)]
pub struct ModifierSet {
    pub shift: bool,
    pub control: bool,
    pub alt: bool,
    pub gui: bool,
}

/// Modifiers that force chord notation.  Shift alone does not: the platform
/// text already reflects it.
pub open spec fn spec_has_special(m: ModifierSet) -> bool {
    m.control || m.alt || m.gui
}

impl ModifierSet {
    /// No modifier held.
    pub fn empty() -> (m: Self)
        ensures
            !m.shift && !m.control && !m.alt && !m.gui,
    {
        ModifierSet { shift: false, control: false, alt: false, gui: false }
    }

    /// Whether a chord-forcing modifier is held.
    pub fn has_special(&self) -> (b: bool)
        ensures
            b == spec_has_special(*self),
    {
        self.control || self.alt || self.gui
    }
}

/// The canonical name of a key, as it appears inside a chord token.
pub open spec fn spec_key_name(k: KeyCode) -> Seq<char> {
    match k {
        KeyCode::A => "a"@,
        KeyCode::B => "b"@,
        KeyCode::C => "c"@,
        KeyCode::D => "d"@,
        KeyCode::E => "e"@,
        KeyCode::F => "f"@,
        KeyCode::G => "g"@,
        KeyCode::H => "h"@,
        KeyCode::I => "i"@,
        KeyCode::J => "j"@,
        KeyCode::K => "k"@,
        KeyCode::L => "l"@,
        KeyCode::M => "m"@,
        KeyCode::N => "n"@,
        KeyCode::O => "o"@,
        KeyCode::P => "p"@,
        KeyCode::Q => "q"@,
        KeyCode::R => "r"@,
        KeyCode::S => "s"@,
        KeyCode::T => "t"@,
        KeyCode::U => "u"@,
        KeyCode::V => "v"@,
        KeyCode::W => "w"@,
        KeyCode::X => "x"@,
        KeyCode::Y => "y"@,
        KeyCode::Z => "z"@,
        KeyCode::Num0 => "0"@,
        KeyCode::Num1 => "1"@,
        KeyCode::Num2 => "2"@,
        KeyCode::Num3 => "3"@,
        KeyCode::Num4 => "4"@,
        KeyCode::Num5 => "5"@,
        KeyCode::Num6 => "6"@,
        KeyCode::Num7 => "7"@,
        KeyCode::Num8 => "8"@,
        KeyCode::Num9 => "9"@,
        KeyCode::Escape => "esc"@,
        KeyCode::Return => "cr"@,
        KeyCode::Tab => "tab"@,
        KeyCode::Backspace => "bs"@,
        KeyCode::Space => "space"@,
        KeyCode::Delete => "del"@,
        KeyCode::Up => "up"@,
        KeyCode::Down => "down"@,
        KeyCode::Left => "left"@,
        KeyCode::Right => "right"@,
    }
}

/// The canonical name of a key, executable form.
pub fn key_name(k: KeyCode) -> (r: &'static str)
    ensures
        r@ == spec_key_name(k),
{
    match k {
        KeyCode::A => "a",
        KeyCode::B => "b",
        KeyCode::C => "c",
        KeyCode::D => "d",
        KeyCode::E => "e",
        KeyCode::F => "f",
        KeyCode::G => "g",
        KeyCode::H => "h",
        KeyCode::I => "i",
        KeyCode::J => "j",
        KeyCode::K => "k",
        KeyCode::L => "l",
        KeyCode::M => "m",
        KeyCode::N => "n",
        KeyCode::O => "o",
        KeyCode::P => "p",
        KeyCode::Q => "q",
        KeyCode::R => "r",
        KeyCode::S => "s",
        KeyCode::T => "t",
        KeyCode::U => "u",
        KeyCode::V => "v",
        KeyCode::W => "w",
        KeyCode::X => "x",
        KeyCode::Y => "y",
        KeyCode::Z => "z",
        KeyCode::Num0 => "0",
        KeyCode::Num1 => "1",
        KeyCode::Num2 => "2",
        KeyCode::Num3 => "3",
        KeyCode::Num4 => "4",
        KeyCode::Num5 => "5",
        KeyCode::Num6 => "6",
        KeyCode::Num7 => "7",
        KeyCode::Num8 => "8",
        KeyCode::Num9 => "9",
        KeyCode::Escape => "esc",
        KeyCode::Return => "cr",
        KeyCode::Tab => "tab",
        KeyCode::Backspace => "bs",
        KeyCode::Space => "space",
        KeyCode::Delete => "del",
        KeyCode::Up => "up",
        KeyCode::Down => "down",
        KeyCode::Left => "left",
        KeyCode::Right => "right",
    }
}

/// Keys whose name alone is literal printable input (letters and digits):
/// pressed bare, they need no bracket notation.
pub open spec fn spec_is_printable(k: KeyCode) -> bool {
    match k {
        KeyCode::Escape
        | KeyCode::Return
        | KeyCode::Tab
        | KeyCode::Backspace
        | KeyCode::Space
        | KeyCode::Delete
        | KeyCode::Up
        | KeyCode::Down
        | KeyCode::Left
        | KeyCode::Right => false,
        _ => true,
    }
}

/// Executable form of `spec_is_printable`.
pub fn is_printable_key(k: KeyCode) -> (b: bool)
    ensures
        b == spec_is_printable(k),
{
    match k {
        KeyCode::Escape
        | KeyCode::Return
        | KeyCode::Tab
        | KeyCode::Backspace
        | KeyCode::Space
        | KeyCode::Delete
        | KeyCode::Up
        | KeyCode::Down
        | KeyCode::Left
        | KeyCode::Right => false,
        _ => true,
    }
}

/// The modifier names that appear in a chord token, in their one fixed
/// order: shift, control, alt, gui.
pub open spec fn spec_modifier_prefix(m: ModifierSet) -> Seq<char> {
    (if m.shift {
        "S-"@
    } else {
        Seq::<char>::empty()
    }) + (if m.control {
        "C-"@
    } else {
        Seq::<char>::empty()
    }) + (if m.alt {
        "M-"@
    } else {
        Seq::<char>::empty()
    }) + (if m.gui {
        "D-"@
    } else {
        Seq::<char>::empty()
    })
}

/// A full chord token: `<`, the modifier prefix, the key name, `>`.
pub open spec fn spec_chord(m: ModifierSet, k: KeyCode) -> Seq<char> {
    "<"@ + spec_modifier_prefix(m) + spec_key_name(k) + ">"@
}

/// The token a bare key press (no usable text) encodes to: the plain key
/// name for printable keys without special modifiers, a chord otherwise.
pub open spec fn spec_plain_or_chord(m: ModifierSet, k: KeyCode) -> Seq<char> {
    if spec_is_printable(k) && !spec_has_special(m) {
        spec_key_name(k)
    } else {
        spec_chord(m, k)
    }
}

/// The whole encoding contract: what token, if any, a raw key press plus
/// modifier state yields.  At most one token ever comes out of one press.
pub open spec fn spec_encode(
    keycode: Option<KeyCode>,
    text: Option<Seq<char>>,
    m: ModifierSet,
) -> Option<Seq<char>> {
    match (keycode, text) {
        (Option::None, Option::None) => Option::None,
        (Option::Some(k), Option::None) => Option::Some(spec_plain_or_chord(m, k)),
        (Option::None, Option::Some(t)) => Option::Some(t),
        (Option::Some(k), Option::Some(t)) => if !spec_has_special(m) {
            Option::Some(t)
        } else {
            Option::Some(spec_chord(m, k))
        },
    }
}

/// The view of an optional owned text payload.
pub open spec fn opt_text_view(t: Option<String>) -> Option<Seq<char>> {
    match t {
        Option::Some(s) => Option::Some(s@),
        Option::None => Option::None,
    }
}

/// Build the chord token for a key under the given modifiers.
fn chord_string(m: ModifierSet, k: KeyCode) -> (r: String)
    ensures
        r@ == spec_chord(m, k),
{
    let mut s = String::from_str("<");
    if m.shift {
        s.append("S-");
    }
    if m.control {
        s.append("C-");
    }
    if m.alt {
        s.append("M-");
    }
    if m.gui {
        s.append("D-");
    }
    s.append(key_name(k));
    s.append(">");
    proof {
        assert(s@ =~= spec_chord(m, k));
    }
    s
}

/// Encode a raw key press plus modifier state into at most one canonical
/// token.  Pure: the result is a function of the three arguments alone, so
/// two calls on the same inputs yield byte-identical tokens.
pub fn produce_keybinding_string(
    keycode: Option<KeyCode>,
    text: Option<String>,
    modifiers: ModifierSet,
) -> (r: Option<String>)
    ensures
        (match r {
            Option::Some(s) => spec_encode(keycode, opt_text_view(text), modifiers)
                == Option::Some(s@),
            Option::None => spec_encode(keycode, opt_text_view(text), modifiers) is None,
        }),
{
    let has_special = modifiers.has_special();
    match (keycode, text) {
        (Option::None, Option::None) => Option::None,
        (Option::Some(k), Option::None) => {
            if is_printable_key(k) && !has_special {
                Option::Some(key_name(k).to_owned())
            } else {
                Option::Some(chord_string(modifiers, k))
            }
        },
        (Option::None, Option::Some(t)) => Option::Some(t),
        (Option::Some(k), Option::Some(t)) => {
            if !has_special {
                Option::Some(t)
            } else {
                Option::Some(chord_string(modifiers, k))
            }
        },
    }
}

/// Determinism of the encoder, stated over the encoding relation itself:
/// two results both pinned to the same inputs are one and the same token.
pub proof fn lemma_encode_deterministic(
    keycode: Option<KeyCode>,
    text: Option<Seq<char>>,
    m: ModifierSet,
    r1: Option<Seq<char>>,
    r2: Option<Seq<char>>,
)
    requires
        r1 == spec_encode(keycode, text, m),
        r2 == spec_encode(keycode, text, m),
    ensures
        r1 == r2,
{
}

} // verus!
