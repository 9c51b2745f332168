use contagion_macro::keys::{button_from_index, Button, InjectKey, Key, Keybinds, PrecomputedKeys};

fn all_keys() -> Vec<Key> {
    vec![
        Key::Space, Key::A, Key::B, Key::C, Key::D, Key::E, Key::F, Key::G, Key::H, Key::I,
        Key::J, Key::K, Key::L, Key::M, Key::N, Key::O, Key::P, Key::Q, Key::R, Key::S,
        Key::T, Key::U, Key::V, Key::W, Key::X, Key::Y, Key::Z, Key::Key0, Key::Key1,
        Key::Key2, Key::Key3, Key::Key4, Key::Key5, Key::Key6, Key::Key7, Key::Key8,
        Key::Key9, Key::F1, Key::F2, Key::F3, Key::F4, Key::F5, Key::F6, Key::F7, Key::F8,
        Key::F9, Key::F10, Key::F11, Key::F12, Key::Dot,
    ]
}

#[test]
fn space_is_injected_as_the_space_bar() {
    assert_eq!(Key::Space.to_inject(), InjectKey::Space);
}

#[test]
fn letters_are_injected_in_lower_case() {
    assert_eq!(Key::E.to_inject(), InjectKey::Unicode('e'));
    assert_eq!(Key::J.to_inject(), InjectKey::Unicode('j'));
    assert_eq!(Key::A.to_inject(), InjectKey::Unicode('a'));
    assert_eq!(Key::Z.to_inject(), InjectKey::Unicode('z'));
}

#[test]
fn digits_and_dot_are_injected_as_their_characters() {
    assert_eq!(Key::Key0.to_inject(), InjectKey::Unicode('0'));
    assert_eq!(Key::Key9.to_inject(), InjectKey::Unicode('9'));
    assert_eq!(Key::Dot.to_inject(), InjectKey::Unicode('.'));
}

#[test]
fn function_keys_are_injected_by_number() {
    assert_eq!(Key::F1.to_inject(), InjectKey::Function(1));
    assert_eq!(Key::F11.to_inject(), InjectKey::Function(11));
    assert_eq!(Key::F12.to_inject(), InjectKey::Function(12));
}

#[test]
fn no_two_keys_are_injected_alike() {
    let keys = all_keys();
    assert_eq!(keys.len(), 50);
    for (i, a) in keys.iter().enumerate() {
        for (j, b) in keys.iter().enumerate() {
            assert_eq!(a.to_inject() == b.to_inject(), i == j);
        }
    }
}

#[test]
fn precomputed_keys_follow_the_bindings() {
    let keybinds = Keybinds {
        melee: Key::E,
        jump: Key::Space,
        aim: 2,
        fire: 1,
        emote: Key::Dot,
        macro_button: 8,
        macro_alt: Some(9),
        rapid_click: Key::J,
    };
    assert_eq!(
        PrecomputedKeys::from_keybinds(&keybinds),
        PrecomputedKeys {
            jump: InjectKey::Space,
            melee: InjectKey::Unicode('e'),
            emote: InjectKey::Unicode('.'),
            rapid_click: InjectKey::Unicode('j'),
        }
    );
}

#[test]
fn precomputed_keys_follow_rebound_keys() {
    let keybinds = Keybinds {
        melee: Key::F,
        jump: Key::W,
        aim: 2,
        fire: 1,
        emote: Key::F5,
        macro_button: 8,
        macro_alt: None,
        rapid_click: Key::Key7,
    };
    assert_eq!(
        PrecomputedKeys::from_keybinds(&keybinds),
        PrecomputedKeys {
            jump: InjectKey::Unicode('w'),
            melee: InjectKey::Unicode('f'),
            emote: InjectKey::Function(5),
            rapid_click: InjectKey::Unicode('7'),
        }
    );
}

#[test]
fn button_indices_map_to_injector_buttons() {
    assert_eq!(button_from_index(1), Button::Left);
    assert_eq!(button_from_index(2), Button::Right);
    assert_eq!(button_from_index(3), Button::Middle);
}

#[test]
fn side_and_unknown_button_indices_fall_back_to_left() {
    assert_eq!(button_from_index(0), Button::Left);
    assert_eq!(button_from_index(4), Button::Left);
    assert_eq!(button_from_index(7), Button::Left);
    assert_eq!(button_from_index(8), Button::Left);
    assert_eq!(button_from_index(9), Button::Left);
    assert_eq!(button_from_index(10), Button::Left);
    assert_eq!(button_from_index(usize::MAX), Button::Left);
}
