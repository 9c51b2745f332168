//! The binding table: the keys that a binding can name, the name of each,
//! and the key that a name resolves to.

use vstd::prelude::*;

use crate::keys::Key;
use vstd::utf8::is_ascii_chars;

use crate::text::{ascii_upper, str_eq};

verus! {

/// The name under which the configuration stores a key.
pub open spec fn key_name(key: Key) -> Seq<char> {
    match key {
        Key::Space => "Space"@,
        Key::A => "A"@,
        Key::B => "B"@,
        Key::C => "C"@,
        Key::D => "D"@,
        Key::E => "E"@,
        Key::F => "F"@,
        Key::G => "G"@,
        Key::H => "H"@,
        Key::I => "I"@,
        Key::J => "J"@,
        Key::K => "K"@,
        Key::L => "L"@,
        Key::M => "M"@,
        Key::N => "N"@,
        Key::O => "O"@,
        Key::P => "P"@,
        Key::Q => "Q"@,
        Key::R => "R"@,
        Key::S => "S"@,
        Key::T => "T"@,
        Key::U => "U"@,
        Key::V => "V"@,
        Key::W => "W"@,
        Key::X => "X"@,
        Key::Y => "Y"@,
        Key::Z => "Z"@,
        Key::Key0 => "0"@,
        Key::Key1 => "1"@,
        Key::Key2 => "2"@,
        Key::Key3 => "3"@,
        Key::Key4 => "4"@,
        Key::Key5 => "5"@,
        Key::Key6 => "6"@,
        Key::Key7 => "7"@,
        Key::Key8 => "8"@,
        Key::Key9 => "9"@,
        Key::F1 => "F1"@,
        Key::F2 => "F2"@,
        Key::F3 => "F3"@,
        Key::F4 => "F4"@,
        Key::F5 => "F5"@,
        Key::F6 => "F6"@,
        Key::F7 => "F7"@,
        Key::F8 => "F8"@,
        Key::F9 => "F9"@,
        Key::F10 => "F10"@,
        Key::F11 => "F11"@,
        Key::F12 => "F12"@,
        Key::Dot => "."@,
    }
}

/// The key that an upper-cased name stands for in the binding table, if it
/// stands for one. The full stop has three names.
pub open spec fn key_named(upper: Seq<char>) -> Option<Key> {
    if upper == "SPACE"@ {
        Some(Key::Space)
    } else if upper == "A"@ {
        Some(Key::A)
    } else if upper == "B"@ {
        Some(Key::B)
    } else if upper == "C"@ {
        Some(Key::C)
    } else if upper == "D"@ {
        Some(Key::D)
    } else if upper == "E"@ {
        Some(Key::E)
    } else if upper == "F"@ {
        Some(Key::F)
    } else if upper == "G"@ {
        Some(Key::G)
    } else if upper == "H"@ {
        Some(Key::H)
    } else if upper == "I"@ {
        Some(Key::I)
    } else if upper == "J"@ {
        Some(Key::J)
    } else if upper == "K"@ {
        Some(Key::K)
    } else if upper == "L"@ {
        Some(Key::L)
    } else if upper == "M"@ {
        Some(Key::M)
    } else if upper == "N"@ {
        Some(Key::N)
    } else if upper == "O"@ {
        Some(Key::O)
    } else if upper == "P"@ {
        Some(Key::P)
    } else if upper == "Q"@ {
        Some(Key::Q)
    } else if upper == "R"@ {
        Some(Key::R)
    } else if upper == "S"@ {
        Some(Key::S)
    } else if upper == "T"@ {
        Some(Key::T)
    } else if upper == "U"@ {
        Some(Key::U)
    } else if upper == "V"@ {
        Some(Key::V)
    } else if upper == "W"@ {
        Some(Key::W)
    } else if upper == "X"@ {
        Some(Key::X)
    } else if upper == "Y"@ {
        Some(Key::Y)
    } else if upper == "Z"@ {
        Some(Key::Z)
    } else if upper == "0"@ {
        Some(Key::Key0)
    } else if upper == "1"@ {
        Some(Key::Key1)
    } else if upper == "2"@ {
        Some(Key::Key2)
    } else if upper == "3"@ {
        Some(Key::Key3)
    } else if upper == "4"@ {
        Some(Key::Key4)
    } else if upper == "5"@ {
        Some(Key::Key5)
    } else if upper == "6"@ {
        Some(Key::Key6)
    } else if upper == "7"@ {
        Some(Key::Key7)
    } else if upper == "8"@ {
        Some(Key::Key8)
    } else if upper == "9"@ {
        Some(Key::Key9)
    } else if upper == "F1"@ {
        Some(Key::F1)
    } else if upper == "F2"@ {
        Some(Key::F2)
    } else if upper == "F3"@ {
        Some(Key::F3)
    } else if upper == "F4"@ {
        Some(Key::F4)
    } else if upper == "F5"@ {
        Some(Key::F5)
    } else if upper == "F6"@ {
        Some(Key::F6)
    } else if upper == "F7"@ {
        Some(Key::F7)
    } else if upper == "F8"@ {
        Some(Key::F8)
    } else if upper == "F9"@ {
        Some(Key::F9)
    } else if upper == "F10"@ {
        Some(Key::F10)
    } else if upper == "F11"@ {
        Some(Key::F11)
    } else if upper == "F12"@ {
        Some(Key::F12)
    } else if upper == "."@ || upper == "PERIOD"@ || upper == "DOT"@ {
        Some(Key::Dot)
    } else {
        None
    }
}

/// Whether an upper-cased name starts with the qualifier `KEYCODE::`.
pub open spec fn is_qualified(upper: Seq<char>) -> bool {
    upper.len() >= 9 && upper.subrange(0, 9) == "KEYCODE::"@
}

/// The key that an upper-cased name resolves to: the key it stands for in the
/// table; failing that, what the rest resolves to once a leading `KEYCODE::`
/// is taken off; failing that too, `E`, the key of every unknown name.
pub open spec fn key_of_upper(upper: Seq<char>) -> Key
    decreases upper.len(),
{
    match key_named(upper) {
        Some(key) => key,
        None => if is_qualified(upper) {
            key_of_upper(upper.subrange(9, upper.len() as int))
        } else {
            Key::E
        },
    }
}

/// The key that an upper-cased name stands for in the binding table, if it
/// stands for one.
pub fn lookup_key(upper: &str) -> (found: Option<Key>)
    ensures
        found == key_named(upper@),
{
    if str_eq(upper, "SPACE") {
        Some(Key::Space)
    } else if str_eq(upper, "A") {
        Some(Key::A)
    } else if str_eq(upper, "B") {
        Some(Key::B)
    } else if str_eq(upper, "C") {
        Some(Key::C)
    } else if str_eq(upper, "D") {
        Some(Key::D)
    } else if str_eq(upper, "E") {
        Some(Key::E)
    } else if str_eq(upper, "F") {
        Some(Key::F)
    } else if str_eq(upper, "G") {
        Some(Key::G)
    } else if str_eq(upper, "H") {
        Some(Key::H)
    } else if str_eq(upper, "I") {
        Some(Key::I)
    } else if str_eq(upper, "J") {
        Some(Key::J)
    } else if str_eq(upper, "K") {
        Some(Key::K)
    } else if str_eq(upper, "L") {
        Some(Key::L)
    } else if str_eq(upper, "M") {
        Some(Key::M)
    } else if str_eq(upper, "N") {
        Some(Key::N)
    } else if str_eq(upper, "O") {
        Some(Key::O)
    } else if str_eq(upper, "P") {
        Some(Key::P)
    } else if str_eq(upper, "Q") {
        Some(Key::Q)
    } else if str_eq(upper, "R") {
        Some(Key::R)
    } else if str_eq(upper, "S") {
        Some(Key::S)
    } else if str_eq(upper, "T") {
        Some(Key::T)
    } else if str_eq(upper, "U") {
        Some(Key::U)
    } else if str_eq(upper, "V") {
        Some(Key::V)
    } else if str_eq(upper, "W") {
        Some(Key::W)
    } else if str_eq(upper, "X") {
        Some(Key::X)
    } else if str_eq(upper, "Y") {
        Some(Key::Y)
    } else if str_eq(upper, "Z") {
        Some(Key::Z)
    } else if str_eq(upper, "0") {
        Some(Key::Key0)
    } else if str_eq(upper, "1") {
        Some(Key::Key1)
    } else if str_eq(upper, "2") {
        Some(Key::Key2)
    } else if str_eq(upper, "3") {
        Some(Key::Key3)
    } else if str_eq(upper, "4") {
        Some(Key::Key4)
    } else if str_eq(upper, "5") {
        Some(Key::Key5)
    } else if str_eq(upper, "6") {
        Some(Key::Key6)
    } else if str_eq(upper, "7") {
        Some(Key::Key7)
    } else if str_eq(upper, "8") {
        Some(Key::Key8)
    } else if str_eq(upper, "9") {
        Some(Key::Key9)
    } else if str_eq(upper, "F1") {
        Some(Key::F1)
    } else if str_eq(upper, "F2") {
        Some(Key::F2)
    } else if str_eq(upper, "F3") {
        Some(Key::F3)
    } else if str_eq(upper, "F4") {
        Some(Key::F4)
    } else if str_eq(upper, "F5") {
        Some(Key::F5)
    } else if str_eq(upper, "F6") {
        Some(Key::F6)
    } else if str_eq(upper, "F7") {
        Some(Key::F7)
    } else if str_eq(upper, "F8") {
        Some(Key::F8)
    } else if str_eq(upper, "F9") {
        Some(Key::F9)
    } else if str_eq(upper, "F10") {
        Some(Key::F10)
    } else if str_eq(upper, "F11") {
        Some(Key::F11)
    } else if str_eq(upper, "F12") {
        Some(Key::F12)
    } else if str_eq(upper, ".") || str_eq(upper, "PERIOD") || str_eq(upper, "DOT") {
        Some(Key::Dot)
    } else {
        None
    }
}

/// What the texts of the table hold.
proof fn lemma_table_texts()
    ensures
        "SPACE"@.len() == 5 && "SPACE"@[0] == 'S' && "SPACE"@[1] == 'P' && "SPACE"@[2] == 'A' && "SPACE"@[3] == 'C' && "SPACE"@[4] == 'E',
        "A"@.len() == 1 && "A"@[0] == 'A',
        "B"@.len() == 1 && "B"@[0] == 'B',
        "C"@.len() == 1 && "C"@[0] == 'C',
        "D"@.len() == 1 && "D"@[0] == 'D',
        "E"@.len() == 1 && "E"@[0] == 'E',
        "F"@.len() == 1 && "F"@[0] == 'F',
        "G"@.len() == 1 && "G"@[0] == 'G',
        "H"@.len() == 1 && "H"@[0] == 'H',
        "I"@.len() == 1 && "I"@[0] == 'I',
        "J"@.len() == 1 && "J"@[0] == 'J',
        "K"@.len() == 1 && "K"@[0] == 'K',
        "L"@.len() == 1 && "L"@[0] == 'L',
        "M"@.len() == 1 && "M"@[0] == 'M',
        "N"@.len() == 1 && "N"@[0] == 'N',
        "O"@.len() == 1 && "O"@[0] == 'O',
        "P"@.len() == 1 && "P"@[0] == 'P',
        "Q"@.len() == 1 && "Q"@[0] == 'Q',
        "R"@.len() == 1 && "R"@[0] == 'R',
        "S"@.len() == 1 && "S"@[0] == 'S',
        "T"@.len() == 1 && "T"@[0] == 'T',
        "U"@.len() == 1 && "U"@[0] == 'U',
        "V"@.len() == 1 && "V"@[0] == 'V',
        "W"@.len() == 1 && "W"@[0] == 'W',
        "X"@.len() == 1 && "X"@[0] == 'X',
        "Y"@.len() == 1 && "Y"@[0] == 'Y',
        "Z"@.len() == 1 && "Z"@[0] == 'Z',
        "0"@.len() == 1 && "0"@[0] == '0',
        "1"@.len() == 1 && "1"@[0] == '1',
        "2"@.len() == 1 && "2"@[0] == '2',
        "3"@.len() == 1 && "3"@[0] == '3',
        "4"@.len() == 1 && "4"@[0] == '4',
        "5"@.len() == 1 && "5"@[0] == '5',
        "6"@.len() == 1 && "6"@[0] == '6',
        "7"@.len() == 1 && "7"@[0] == '7',
        "8"@.len() == 1 && "8"@[0] == '8',
        "9"@.len() == 1 && "9"@[0] == '9',
        "F1"@.len() == 2 && "F1"@[0] == 'F' && "F1"@[1] == '1',
        "F2"@.len() == 2 && "F2"@[0] == 'F' && "F2"@[1] == '2',
        "F3"@.len() == 2 && "F3"@[0] == 'F' && "F3"@[1] == '3',
        "F4"@.len() == 2 && "F4"@[0] == 'F' && "F4"@[1] == '4',
        "F5"@.len() == 2 && "F5"@[0] == 'F' && "F5"@[1] == '5',
        "F6"@.len() == 2 && "F6"@[0] == 'F' && "F6"@[1] == '6',
        "F7"@.len() == 2 && "F7"@[0] == 'F' && "F7"@[1] == '7',
        "F8"@.len() == 2 && "F8"@[0] == 'F' && "F8"@[1] == '8',
        "F9"@.len() == 2 && "F9"@[0] == 'F' && "F9"@[1] == '9',
        "F10"@.len() == 3 && "F10"@[0] == 'F' && "F10"@[1] == '1' && "F10"@[2] == '0',
        "F11"@.len() == 3 && "F11"@[0] == 'F' && "F11"@[1] == '1' && "F11"@[2] == '1',
        "F12"@.len() == 3 && "F12"@[0] == 'F' && "F12"@[1] == '1' && "F12"@[2] == '2',
        "."@.len() == 1 && "."@[0] == '.',
        "PERIOD"@.len() == 6 && "PERIOD"@[0] == 'P' && "PERIOD"@[1] == 'E' && "PERIOD"@[2] == 'R' && "PERIOD"@[3] == 'I' && "PERIOD"@[4] == 'O' && "PERIOD"@[5] == 'D',
        "DOT"@.len() == 3 && "DOT"@[0] == 'D' && "DOT"@[1] == 'O' && "DOT"@[2] == 'T',
        "Space"@.len() == 5 && "Space"@[0] == 'S' && "Space"@[1] == 'p' && "Space"@[2] == 'a' && "Space"@[3] == 'c' && "Space"@[4] == 'e',
{
    reveal_strlit("SPACE");
    reveal_strlit("A");
    reveal_strlit("B");
    reveal_strlit("C");
    reveal_strlit("D");
    reveal_strlit("E");
    reveal_strlit("F");
    reveal_strlit("G");
    reveal_strlit("H");
    reveal_strlit("I");
    reveal_strlit("J");
    reveal_strlit("K");
    reveal_strlit("L");
    reveal_strlit("M");
    reveal_strlit("N");
    reveal_strlit("O");
    reveal_strlit("P");
    reveal_strlit("Q");
    reveal_strlit("R");
    reveal_strlit("S");
    reveal_strlit("T");
    reveal_strlit("U");
    reveal_strlit("V");
    reveal_strlit("W");
    reveal_strlit("X");
    reveal_strlit("Y");
    reveal_strlit("Z");
    reveal_strlit("0");
    reveal_strlit("1");
    reveal_strlit("2");
    reveal_strlit("3");
    reveal_strlit("4");
    reveal_strlit("5");
    reveal_strlit("6");
    reveal_strlit("7");
    reveal_strlit("8");
    reveal_strlit("9");
    reveal_strlit("F1");
    reveal_strlit("F2");
    reveal_strlit("F3");
    reveal_strlit("F4");
    reveal_strlit("F5");
    reveal_strlit("F6");
    reveal_strlit("F7");
    reveal_strlit("F8");
    reveal_strlit("F9");
    reveal_strlit("F10");
    reveal_strlit("F11");
    reveal_strlit("F12");
    reveal_strlit(".");
    reveal_strlit("PERIOD");
    reveal_strlit("DOT");
    reveal_strlit("Space");
}

/// The table knows every key by its name: the name of a key, with its
/// letters made upper-case, stands for that key and resolves to it.
pub proof fn law_every_key_name_resolves(key: Key)
    ensures
        key_named(ascii_upper(key_name(key))) == Some(key),
        key_of_upper(ascii_upper(key_name(key))) == key,
{
    lemma_table_texts();
    match key {
        Key::Space => {
            assert(ascii_upper("Space"@) =~= "SPACE"@);
        },
        Key::A => {
            assert(ascii_upper("A"@) =~= "A"@);
        },
        Key::B => {
            assert(ascii_upper("B"@) =~= "B"@);
        },
        Key::C => {
            assert(ascii_upper("C"@) =~= "C"@);
        },
        Key::D => {
            assert(ascii_upper("D"@) =~= "D"@);
        },
        Key::E => {
            assert(ascii_upper("E"@) =~= "E"@);
        },
        Key::F => {
            assert(ascii_upper("F"@) =~= "F"@);
        },
        Key::G => {
            assert(ascii_upper("G"@) =~= "G"@);
        },
        Key::H => {
            assert(ascii_upper("H"@) =~= "H"@);
        },
        Key::I => {
            assert(ascii_upper("I"@) =~= "I"@);
        },
        Key::J => {
            assert(ascii_upper("J"@) =~= "J"@);
        },
        Key::K => {
            assert(ascii_upper("K"@) =~= "K"@);
        },
        Key::L => {
            assert(ascii_upper("L"@) =~= "L"@);
        },
        Key::M => {
            assert(ascii_upper("M"@) =~= "M"@);
        },
        Key::N => {
            assert(ascii_upper("N"@) =~= "N"@);
        },
        Key::O => {
            assert(ascii_upper("O"@) =~= "O"@);
        },
        Key::P => {
            assert(ascii_upper("P"@) =~= "P"@);
        },
        Key::Q => {
            assert(ascii_upper("Q"@) =~= "Q"@);
        },
        Key::R => {
            assert(ascii_upper("R"@) =~= "R"@);
        },
        Key::S => {
            assert(ascii_upper("S"@) =~= "S"@);
        },
        Key::T => {
            assert(ascii_upper("T"@) =~= "T"@);
        },
        Key::U => {
            assert(ascii_upper("U"@) =~= "U"@);
        },
        Key::V => {
            assert(ascii_upper("V"@) =~= "V"@);
        },
        Key::W => {
            assert(ascii_upper("W"@) =~= "W"@);
        },
        Key::X => {
            assert(ascii_upper("X"@) =~= "X"@);
        },
        Key::Y => {
            assert(ascii_upper("Y"@) =~= "Y"@);
        },
        Key::Z => {
            assert(ascii_upper("Z"@) =~= "Z"@);
        },
        Key::Key0 => {
            assert(ascii_upper("0"@) =~= "0"@);
        },
        Key::Key1 => {
            assert(ascii_upper("1"@) =~= "1"@);
        },
        Key::Key2 => {
            assert(ascii_upper("2"@) =~= "2"@);
        },
        Key::Key3 => {
            assert(ascii_upper("3"@) =~= "3"@);
        },
        Key::Key4 => {
            assert(ascii_upper("4"@) =~= "4"@);
        },
        Key::Key5 => {
            assert(ascii_upper("5"@) =~= "5"@);
        },
        Key::Key6 => {
            assert(ascii_upper("6"@) =~= "6"@);
        },
        Key::Key7 => {
            assert(ascii_upper("7"@) =~= "7"@);
        },
        Key::Key8 => {
            assert(ascii_upper("8"@) =~= "8"@);
        },
        Key::Key9 => {
            assert(ascii_upper("9"@) =~= "9"@);
        },
        Key::F1 => {
            assert(ascii_upper("F1"@) =~= "F1"@);
        },
        Key::F2 => {
            assert(ascii_upper("F2"@) =~= "F2"@);
        },
        Key::F3 => {
            assert(ascii_upper("F3"@) =~= "F3"@);
        },
        Key::F4 => {
            assert(ascii_upper("F4"@) =~= "F4"@);
        },
        Key::F5 => {
            assert(ascii_upper("F5"@) =~= "F5"@);
        },
        Key::F6 => {
            assert(ascii_upper("F6"@) =~= "F6"@);
        },
        Key::F7 => {
            assert(ascii_upper("F7"@) =~= "F7"@);
        },
        Key::F8 => {
            assert(ascii_upper("F8"@) =~= "F8"@);
        },
        Key::F9 => {
            assert(ascii_upper("F9"@) =~= "F9"@);
        },
        Key::F10 => {
            assert(ascii_upper("F10"@) =~= "F10"@);
        },
        Key::F11 => {
            assert(ascii_upper("F11"@) =~= "F11"@);
        },
        Key::F12 => {
            assert(ascii_upper("F12"@) =~= "F12"@);
        },
        Key::Dot => {
            assert(ascii_upper("."@) =~= "."@);
        },
    }
}

/// The name of every key is ASCII text.
pub proof fn law_key_names_are_ascii(key: Key)
    ensures
        is_ascii_chars(key_name(key)),
{
    lemma_table_texts();
}

/// No two keys share a name.
pub proof fn law_key_names_are_distinct(a: Key, b: Key)
    ensures
        key_name(a) == key_name(b) <==> a == b,
{
    law_every_key_name_resolves(a);
    law_every_key_name_resolves(b);
}

/// A name that the table does not know, and that is not qualified, resolves
/// to `E`; a qualified one resolves to what the text after the qualifier
/// resolves to.
pub proof fn law_unknown_names_fall_back(upper: Seq<char>)
    requires
        key_named(upper) is None,
    ensures
        !is_qualified(upper) ==> key_of_upper(upper) == Key::E,
        is_qualified(upper) ==> key_of_upper(upper) == key_of_upper(
            upper.subrange(9, upper.len() as int),
        ),
{
}

} // verus!
