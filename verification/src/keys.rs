//! Identifiers of the keys and buttons that the engine reads and drives.

use vstd::prelude::*;

verus! {

/// A key of the binding table: every key that a binding can name.
#[derive(Clone, Copy, Debug, PartialEq, Eq, Hash, Structural)]
pub enum Key {
    Space,
    A,
    B,
    C,
    D,
    E,
    F,
    G,
    H,
    I,
    J,
    K,
    L,
    M,
    N,
    O,
    P,
    Q,
    R,
    S,
    T,
    U,
    V,
    W,
    X,
    Y,
    Z,
    Key0,
    Key1,
    Key2,
    Key3,
    Key4,
    Key5,
    Key6,
    Key7,
    Key8,
    Key9,
    F1,
    F2,
    F3,
    F4,
    F5,
    F6,
    F7,
    F8,
    F9,
    F10,
    F11,
    F12,
    Dot,
}

/// A key as the input injector takes it.
#[derive(Clone, Copy, Debug, PartialEq, Eq, Structural)]
pub enum InjectKey {
    /// The space bar.
    Space,
    /// The key that types this character.
    Unicode(char),
    /// The function key of this number, from 1 to 12.
    Function(u8),
}

/// A mouse button as the input injector takes it.
#[derive(Clone, Copy, Debug, PartialEq, Eq, Structural)]
pub enum Button {
    Left,
    Right,
    Middle,
}

/// The bindings of one configuration snapshot: a key or a button index of the
/// device query for each logical action.
#[derive(Clone, Copy, Debug, PartialEq, Eq, Structural)]
pub struct Keybinds {
    pub melee: Key,
    pub jump: Key,
    /// Index of the aim button among the mouse buttons.
    pub aim: usize,
    /// Index of the fire button among the mouse buttons.
    pub fire: usize,
    pub emote: Key,
    /// Index of the button that triggers the sequence while held.
    pub macro_button: usize,
    /// Index of a second trigger button, if one is configured.
    pub macro_alt: Option<usize>,
    pub rapid_click: Key,
}

/// The keys of the sequence, in the form the injector takes.
#[derive(Clone, Copy, Debug, PartialEq, Eq, Structural)]
pub struct PrecomputedKeys {
    pub jump: InjectKey,
    pub melee: InjectKey,
    pub emote: InjectKey,
    pub rapid_click: InjectKey,
}

/// What the injector is asked to press for a key of the table: the space bar,
/// the lower-case letter, the digit, the full stop, or the function key.
pub open spec fn inject_key_of(key: Key) -> InjectKey {
    match key {
        Key::Space => InjectKey::Space,
        Key::A => InjectKey::Unicode('a'),
        Key::B => InjectKey::Unicode('b'),
        Key::C => InjectKey::Unicode('c'),
        Key::D => InjectKey::Unicode('d'),
        Key::E => InjectKey::Unicode('e'),
        Key::F => InjectKey::Unicode('f'),
        Key::G => InjectKey::Unicode('g'),
        Key::H => InjectKey::Unicode('h'),
        Key::I => InjectKey::Unicode('i'),
        Key::J => InjectKey::Unicode('j'),
        Key::K => InjectKey::Unicode('k'),
        Key::L => InjectKey::Unicode('l'),
        Key::M => InjectKey::Unicode('m'),
        Key::N => InjectKey::Unicode('n'),
        Key::O => InjectKey::Unicode('o'),
        Key::P => InjectKey::Unicode('p'),
        Key::Q => InjectKey::Unicode('q'),
        Key::R => InjectKey::Unicode('r'),
        Key::S => InjectKey::Unicode('s'),
        Key::T => InjectKey::Unicode('t'),
        Key::U => InjectKey::Unicode('u'),
        Key::V => InjectKey::Unicode('v'),
        Key::W => InjectKey::Unicode('w'),
        Key::X => InjectKey::Unicode('x'),
        Key::Y => InjectKey::Unicode('y'),
        Key::Z => InjectKey::Unicode('z'),
        Key::Key0 => InjectKey::Unicode('0'),
        Key::Key1 => InjectKey::Unicode('1'),
        Key::Key2 => InjectKey::Unicode('2'),
        Key::Key3 => InjectKey::Unicode('3'),
        Key::Key4 => InjectKey::Unicode('4'),
        Key::Key5 => InjectKey::Unicode('5'),
        Key::Key6 => InjectKey::Unicode('6'),
        Key::Key7 => InjectKey::Unicode('7'),
        Key::Key8 => InjectKey::Unicode('8'),
        Key::Key9 => InjectKey::Unicode('9'),
        Key::F1 => InjectKey::Function(1),
        Key::F2 => InjectKey::Function(2),
        Key::F3 => InjectKey::Function(3),
        Key::F4 => InjectKey::Function(4),
        Key::F5 => InjectKey::Function(5),
        Key::F6 => InjectKey::Function(6),
        Key::F7 => InjectKey::Function(7),
        Key::F8 => InjectKey::Function(8),
        Key::F9 => InjectKey::Function(9),
        Key::F10 => InjectKey::Function(10),
        Key::F11 => InjectKey::Function(11),
        Key::F12 => InjectKey::Function(12),
        Key::Dot => InjectKey::Unicode('.'),
    }
}

impl Key {
    /// The key in the form the injector takes.
    pub fn to_inject(self) -> (out: InjectKey)
        ensures
            out == inject_key_of(self),
    {
        match self {
            Key::Space => InjectKey::Space,
            Key::A => InjectKey::Unicode('a'),
            Key::B => InjectKey::Unicode('b'),
            Key::C => InjectKey::Unicode('c'),
            Key::D => InjectKey::Unicode('d'),
            Key::E => InjectKey::Unicode('e'),
            Key::F => InjectKey::Unicode('f'),
            Key::G => InjectKey::Unicode('g'),
            Key::H => InjectKey::Unicode('h'),
            Key::I => InjectKey::Unicode('i'),
            Key::J => InjectKey::Unicode('j'),
            Key::K => InjectKey::Unicode('k'),
            Key::L => InjectKey::Unicode('l'),
            Key::M => InjectKey::Unicode('m'),
            Key::N => InjectKey::Unicode('n'),
            Key::O => InjectKey::Unicode('o'),
            Key::P => InjectKey::Unicode('p'),
            Key::Q => InjectKey::Unicode('q'),
            Key::R => InjectKey::Unicode('r'),
            Key::S => InjectKey::Unicode('s'),
            Key::T => InjectKey::Unicode('t'),
            Key::U => InjectKey::Unicode('u'),
            Key::V => InjectKey::Unicode('v'),
            Key::W => InjectKey::Unicode('w'),
            Key::X => InjectKey::Unicode('x'),
            Key::Y => InjectKey::Unicode('y'),
            Key::Z => InjectKey::Unicode('z'),
            Key::Key0 => InjectKey::Unicode('0'),
            Key::Key1 => InjectKey::Unicode('1'),
            Key::Key2 => InjectKey::Unicode('2'),
            Key::Key3 => InjectKey::Unicode('3'),
            Key::Key4 => InjectKey::Unicode('4'),
            Key::Key5 => InjectKey::Unicode('5'),
            Key::Key6 => InjectKey::Unicode('6'),
            Key::Key7 => InjectKey::Unicode('7'),
            Key::Key8 => InjectKey::Unicode('8'),
            Key::Key9 => InjectKey::Unicode('9'),
            Key::F1 => InjectKey::Function(1),
            Key::F2 => InjectKey::Function(2),
            Key::F3 => InjectKey::Function(3),
            Key::F4 => InjectKey::Function(4),
            Key::F5 => InjectKey::Function(5),
            Key::F6 => InjectKey::Function(6),
            Key::F7 => InjectKey::Function(7),
            Key::F8 => InjectKey::Function(8),
            Key::F9 => InjectKey::Function(9),
            Key::F10 => InjectKey::Function(10),
            Key::F11 => InjectKey::Function(11),
            Key::F12 => InjectKey::Function(12),
            Key::Dot => InjectKey::Unicode('.'),
        }
    }
}

/// Two keys of the table are never injected as the same key.
pub proof fn law_inject_keys_are_distinct(a: Key, b: Key)
    ensures
        inject_key_of(a) == inject_key_of(b) <==> a == b,
{
}

impl PrecomputedKeys {
    /// The four keys of the bindings, each in the form the injector takes.
    pub fn from_keybinds(keybinds: &Keybinds) -> (keys: PrecomputedKeys)
        ensures
            keys == (PrecomputedKeys {
                jump: inject_key_of(keybinds.jump),
                melee: inject_key_of(keybinds.melee),
                emote: inject_key_of(keybinds.emote),
                rapid_click: inject_key_of(keybinds.rapid_click),
            }),
    {
        PrecomputedKeys {
            jump: keybinds.jump.to_inject(),
            melee: keybinds.melee.to_inject(),
            emote: keybinds.emote.to_inject(),
            rapid_click: keybinds.rapid_click.to_inject(),
        }
    }
}

/// The injector's button for an index of the device query: 2 is the right
/// button, 3 the middle one; every other index, the side buttons 8 and 9
/// among them, stands for the left button.
pub open spec fn button_of_index(idx: usize) -> Button {
    if idx == 2 {
        Button::Right
    } else if idx == 3 {
        Button::Middle
    } else {
        Button::Left
    }
}

/// The injector's button for an index of the device query.
pub fn button_from_index(idx: usize) -> (button: Button)
    ensures
        button == button_of_index(idx),
{
    if idx == 2 {
        Button::Right
    } else if idx == 3 {
        Button::Middle
    } else {
        Button::Left
    }
}

} // verus!
