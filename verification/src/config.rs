//! The configuration that the tasks of the engine copy before each run, and
//! the bindings and durations that follow from it.

use vstd::prelude::*;
use vstd::string::*;
use vstd::utf8::is_ascii_chars;

use crate::capture::CaptureTarget;
use crate::keys::{Key, Keybinds};
use crate::table::{
    key_name, key_of_upper, law_every_key_name_resolves, law_key_names_are_ascii, lookup_key,
};
use crate::text::{ascii_upper, str_eq, to_uppercase, uppercase_of};

verus! {

/// A frame rate without floating point.
///
/// The library divides by the rate and reads its logarithm; it computes
/// neither from the other. Whoever builds the value supplies both.
#[derive(Clone, Copy, Debug, PartialEq, Eq, Structural)]
pub struct FrameRate {
    /// Frames per thousand seconds.
    pub milli_fps: u64,
    /// The natural logarithm of the rate in frames per second, in millionths.
    pub ln_micro: i64,
}

/// The tunable parameters and the bindings, as the configuration surface
/// edits them. A task copies the whole value once per run (`snapshot`) and
/// works on the copy.
#[derive(Clone, Debug)]
pub struct SharedConfig {
    pub fps: FrameRate,
    /// The numerator of the jump delay, in microseconds: divided by the frame
    /// rate it gives the hold time of a jump or emote tap.
    pub jump_delay_us: u64,
    pub aim_melee_delay_ms: u64,
    pub melee_hold_time_ms: u64,
    /// Whether the wait before the emote taps follows from the frame rate
    /// (`true`) or is `emote_preparation_delay_manual_ms`.
    pub use_emote_formula: bool,
    pub emote_preparation_delay_manual_ms: u64,
    pub rapid_fire_duration_ms: u64,
    pub rapid_fire_click_delay_ms: u64,
    pub sequence_end_delay_ms: u64,
    pub loop_delay_ms: u64,
    pub rapid_click_count: usize,
    pub rapid_click_delay_ms: u64,
    pub melee_key: String,
    pub jump_key: String,
    pub emote_key: String,
    pub rapid_click_key: String,
    pub aim_button: usize,
    pub fire_button: usize,
    pub macro_button: usize,
    pub enable_macro_alt: bool,
    pub macro_alt_button: usize,
}

/// The durations of one run, each in nanoseconds.
#[derive(Clone, Copy, Debug, PartialEq, Eq, Structural)]
pub struct Durations {
    pub double_jump: u128,
    pub aim_melee: u128,
    pub melee_hold: u128,
    pub emote_preparation: u128,
    pub rapid_fire_click: u128,
    pub sequence_end: u128,
    pub loop_delay: u128,
    pub rapid_click: u128,
}

/// Nanoseconds in a millisecond.
pub const NANOS_PER_MILLI: u128 = 1_000_000;

/// The bindings that a configuration stands for.
pub open spec fn keybinds_of(config: SharedConfig) -> Keybinds {
    Keybinds {
        melee: key_of_upper(uppercase_of(config.melee_key@)),
        jump: key_of_upper(uppercase_of(config.jump_key@)),
        aim: config.aim_button,
        fire: config.fire_button,
        emote: key_of_upper(uppercase_of(config.emote_key@)),
        macro_button: config.macro_button,
        macro_alt: if config.enable_macro_alt {
            Some(config.macro_alt_button)
        } else {
            None
        },
        rapid_click: key_of_upper(uppercase_of(config.rapid_click_key@)),
    }
}

/// The hold time of a jump or emote tap in nanoseconds: the jump delay over
/// the frame rate, rounded down.
pub open spec fn double_jump_nanos(jump_delay_us: u64, milli_fps: u64) -> int {
    (jump_delay_us * 1_000_000) / (milli_fps as int)
}

/// The wait before the emote taps that follows from a frame rate, in whole
/// milliseconds: 245 less 26 times the logarithm of the rate, rounded to the
/// nearest millisecond, a half upwards, and nothing where that is negative.
pub open spec fn emote_formula_ms(ln_micro: i64) -> int {
    if 245_000_000 - 26 * ln_micro <= 0 {
        0
    } else {
        (245_000_000 - 26 * ln_micro + 500_000) / 1_000_000
    }
}

/// The wait before the emote taps in whole milliseconds: by the formula, or
/// the manual value.
pub open spec fn emote_preparation_ms(config: SharedConfig) -> int {
    if config.use_emote_formula {
        emote_formula_ms(config.fps.ln_micro)
    } else {
        config.emote_preparation_delay_manual_ms as int
    }
}

/// The durations that a configuration stands for, in nanoseconds.
pub open spec fn durations_of(config: SharedConfig) -> Durations {
    Durations {
        double_jump: double_jump_nanos(config.jump_delay_us, config.fps.milli_fps) as u128,
        aim_melee: (config.aim_melee_delay_ms * NANOS_PER_MILLI) as u128,
        melee_hold: (config.melee_hold_time_ms * NANOS_PER_MILLI) as u128,
        emote_preparation: (emote_preparation_ms(config) * NANOS_PER_MILLI) as u128,
        rapid_fire_click: (config.rapid_fire_click_delay_ms * NANOS_PER_MILLI) as u128,
        sequence_end: (config.sequence_end_delay_ms * NANOS_PER_MILLI) as u128,
        loop_delay: (config.loop_delay_ms * NANOS_PER_MILLI) as u128,
        rapid_click: (config.rapid_click_delay_ms * NANOS_PER_MILLI) as u128,
    }
}

/// The wait before the emote taps never grows with the frame rate: a larger
/// logarithm gives a wait that is no longer. It is never negative, and it is
/// nothing from the rate on at which the formula falls under half a
/// millisecond.
pub proof fn law_emote_formula_never_grows(slow: i64, fast: i64)
    requires
        slow <= fast,
    ensures
        emote_formula_ms(fast) <= emote_formula_ms(slow),
        0 <= emote_formula_ms(fast),
        emote_formula_ms(fast) == 0 <==> 26 * fast > 244_500_000,
{
}

/// Of two configurations that take the wait before the emote taps from the
/// frame rate, the one whose rate has the larger logarithm waits no longer.
/// Whatever else the two hold plays no part.
pub proof fn law_emote_delay_never_grows_with_the_rate(slow: SharedConfig, fast: SharedConfig)
    requires
        slow.use_emote_formula,
        fast.use_emote_formula,
        slow.fps.ln_micro <= fast.fps.ln_micro,
    ensures
        emote_preparation_ms(fast) <= emote_preparation_ms(slow),
        durations_of(fast).emote_preparation <= durations_of(slow).emote_preparation,
{
    law_emote_formula_never_grows(slow.fps.ln_micro, fast.fps.ln_micro);
}

impl SharedConfig {
    /// The values that the engine starts with.
    pub open spec fn is_default(self) -> bool {
        &&& self.fps == (FrameRate { milli_fps: 160_000, ln_micro: 5_075_174 })
        &&& self.jump_delay_us == 1_100_000
        &&& self.aim_melee_delay_ms == 25
        &&& self.melee_hold_time_ms == 50
        &&& self.use_emote_formula
        &&& self.emote_preparation_delay_manual_ms == 100
        &&& self.rapid_fire_duration_ms == 230
        &&& self.rapid_fire_click_delay_ms == 1
        &&& self.sequence_end_delay_ms == 50
        &&& self.loop_delay_ms == 1
        &&& self.rapid_click_count == 10
        &&& self.rapid_click_delay_ms == 50
        &&& self.melee_key@ == "E"@
        &&& self.jump_key@ == "Space"@
        &&& self.emote_key@ == "."@
        &&& self.rapid_click_key@ == "J"@
        &&& self.aim_button == 2
        &&& self.fire_button == 1
        &&& self.macro_button == 8
        &&& self.enable_macro_alt
        &&& self.macro_alt_button == 9
    }

    /// Whether the durations of the configuration exist: the frame rate, by
    /// which the jump delay is divided, is not zero.
    pub open spec fn valid(self) -> bool {
        self.fps.milli_fps > 0
    }

    /// Whether the durations of the configuration exist.
    pub fn is_valid(&self) -> (ok: bool)
        ensures
            ok == self.valid(),
    {
        self.fps.milli_fps > 0
    }

    /// A copy of the whole configuration, for a task to work on while the
    /// shared one goes on being edited.
    pub fn snapshot(&self) -> (copy: SharedConfig)
        ensures
            copy == *self,
    {
        SharedConfig {
            fps: self.fps,
            jump_delay_us: self.jump_delay_us,
            aim_melee_delay_ms: self.aim_melee_delay_ms,
            melee_hold_time_ms: self.melee_hold_time_ms,
            use_emote_formula: self.use_emote_formula,
            emote_preparation_delay_manual_ms: self.emote_preparation_delay_manual_ms,
            rapid_fire_duration_ms: self.rapid_fire_duration_ms,
            rapid_fire_click_delay_ms: self.rapid_fire_click_delay_ms,
            sequence_end_delay_ms: self.sequence_end_delay_ms,
            loop_delay_ms: self.loop_delay_ms,
            rapid_click_count: self.rapid_click_count,
            rapid_click_delay_ms: self.rapid_click_delay_ms,
            melee_key: self.melee_key.clone(),
            jump_key: self.jump_key.clone(),
            emote_key: self.emote_key.clone(),
            rapid_click_key: self.rapid_click_key.clone(),
            aim_button: self.aim_button,
            fire_button: self.fire_button,
            macro_button: self.macro_button,
            enable_macro_alt: self.enable_macro_alt,
            macro_alt_button: self.macro_alt_button,
        }
    }

    /// The name under which the configuration stores a key.
    pub fn keycode_to_string(keycode: Key) -> (name: String)
        ensures
            name@ == key_name(keycode),
    {
        match keycode {
            Key::Space => String::from_str("Space"),
            Key::A => String::from_str("A"),
            Key::B => String::from_str("B"),
            Key::C => String::from_str("C"),
            Key::D => String::from_str("D"),
            Key::E => String::from_str("E"),
            Key::F => String::from_str("F"),
            Key::G => String::from_str("G"),
            Key::H => String::from_str("H"),
            Key::I => String::from_str("I"),
            Key::J => String::from_str("J"),
            Key::K => String::from_str("K"),
            Key::L => String::from_str("L"),
            Key::M => String::from_str("M"),
            Key::N => String::from_str("N"),
            Key::O => String::from_str("O"),
            Key::P => String::from_str("P"),
            Key::Q => String::from_str("Q"),
            Key::R => String::from_str("R"),
            Key::S => String::from_str("S"),
            Key::T => String::from_str("T"),
            Key::U => String::from_str("U"),
            Key::V => String::from_str("V"),
            Key::W => String::from_str("W"),
            Key::X => String::from_str("X"),
            Key::Y => String::from_str("Y"),
            Key::Z => String::from_str("Z"),
            Key::Key0 => String::from_str("0"),
            Key::Key1 => String::from_str("1"),
            Key::Key2 => String::from_str("2"),
            Key::Key3 => String::from_str("3"),
            Key::Key4 => String::from_str("4"),
            Key::Key5 => String::from_str("5"),
            Key::Key6 => String::from_str("6"),
            Key::Key7 => String::from_str("7"),
            Key::Key8 => String::from_str("8"),
            Key::Key9 => String::from_str("9"),
            Key::F1 => String::from_str("F1"),
            Key::F2 => String::from_str("F2"),
            Key::F3 => String::from_str("F3"),
            Key::F4 => String::from_str("F4"),
            Key::F5 => String::from_str("F5"),
            Key::F6 => String::from_str("F6"),
            Key::F7 => String::from_str("F7"),
            Key::F8 => String::from_str("F8"),
            Key::F9 => String::from_str("F9"),
            Key::F10 => String::from_str("F10"),
            Key::F11 => String::from_str("F11"),
            Key::F12 => String::from_str("F12"),
            Key::Dot => String::from_str("."),
        }
    }

    /// The key that an upper-cased name resolves to. Never fails: a name that
    /// the table does not know resolves to `E`.
    pub fn keycode_from_upper(upper: &str) -> (key: Key)
        ensures
            key == key_of_upper(upper@),
    {
        let mut rest: &str = upper;
        loop
            invariant
                key_of_upper(rest@) == key_of_upper(upper@),
            decreases rest@.len(),
        {
            if let Some(key) = lookup_key(rest) {
                return key;
            }
            let len = rest.unicode_len();
            if len < 9 || !str_eq(rest.substring_char(0, 9), "KEYCODE::") {
                return Key::E;
            }
            rest = rest.substring_char(9, len);
        }
    }

    /// The key that a name of the configuration resolves to, whatever the
    /// case of its letters. Never fails: an unknown name resolves to `E`.
    ///
    /// The name is upper-cased as a whole and then resolved. For an ASCII
    /// name that is the name with `a` to `z` made `A` to `Z`, so two ASCII
    /// names that differ in the case of their letters alone resolve alike;
    /// and the name that `keycode_to_string` gives for a key resolves to that
    /// key.
    pub fn keycode_from_string(s: &str) -> (key: Key)
        ensures
            key == key_of_upper(uppercase_of(s@)),
            is_ascii_chars(s@) ==> key == key_of_upper(ascii_upper(s@)),
            forall|named: Key| s@ == #[trigger] key_name(named) ==> key == named,
    {
        let upper = to_uppercase(s);
        let key = Self::keycode_from_upper(upper.as_str());
        proof {
            assert forall|named: Key| s@ == #[trigger] key_name(named) implies key == named by {
                law_key_names_are_ascii(named);
                law_every_key_name_resolves(named);
            }
        }
        key
    }

    /// The bindings of the configuration.
    pub fn to_keybinds(&self) -> (keybinds: Keybinds)
        ensures
            keybinds == keybinds_of(*self),
    {
        Keybinds {
            melee: Self::keycode_from_string(self.melee_key.as_str()),
            jump: Self::keycode_from_string(self.jump_key.as_str()),
            aim: self.aim_button,
            fire: self.fire_button,
            emote: Self::keycode_from_string(self.emote_key.as_str()),
            macro_button: self.macro_button,
            macro_alt: if self.enable_macro_alt {
                Some(self.macro_alt_button)
            } else {
                None
            },
            rapid_click: Self::keycode_from_string(self.rapid_click_key.as_str()),
        }
    }

    /// The configuration with a key binding set to a name. A target that is
    /// no key binding leaves it as it is.
    pub open spec fn with_key(self, target: CaptureTarget, name: String) -> SharedConfig {
        match target {
            CaptureTarget::MeleeKey => SharedConfig { melee_key: name, ..self },
            CaptureTarget::JumpKey => SharedConfig { jump_key: name, ..self },
            CaptureTarget::EmoteKey => SharedConfig { emote_key: name, ..self },
            CaptureTarget::RapidClickKey => SharedConfig { rapid_click_key: name, ..self },
            _ => self,
        }
    }

    /// The configuration with a button binding set to an index. A target
    /// that is no button binding leaves it as it is.
    pub open spec fn with_button(self, target: CaptureTarget, index: usize) -> SharedConfig {
        match target {
            CaptureTarget::AimButton => SharedConfig { aim_button: index, ..self },
            CaptureTarget::FireButton => SharedConfig { fire_button: index, ..self },
            CaptureTarget::MacroButton => SharedConfig { macro_button: index, ..self },
            CaptureTarget::MacroAltButton => SharedConfig { macro_alt_button: index, ..self },
            _ => self,
        }
    }

    /// Sets the key binding that a capture was for to the name of the key
    /// that was captured.
    pub fn assign_key(&mut self, target: CaptureTarget, name: String)
        ensures
            *final(self) == old(self).with_key(target, name),
    {
        match target {
            CaptureTarget::MeleeKey => {
                self.melee_key = name;
            },
            CaptureTarget::JumpKey => {
                self.jump_key = name;
            },
            CaptureTarget::EmoteKey => {
                self.emote_key = name;
            },
            CaptureTarget::RapidClickKey => {
                self.rapid_click_key = name;
            },
            _ => {},
        }
    }

    /// Sets the button binding that a capture was for to the index of the
    /// button that was captured.
    pub fn assign_button(&mut self, target: CaptureTarget, index: usize)
        ensures
            *final(self) == old(self).with_button(target, index),
    {
        match target {
            CaptureTarget::AimButton => {
                self.aim_button = index;
            },
            CaptureTarget::FireButton => {
                self.fire_button = index;
            },
            CaptureTarget::MacroButton => {
                self.macro_button = index;
            },
            CaptureTarget::MacroAltButton => {
                self.macro_alt_button = index;
            },
            _ => {},
        }
    }

    /// The hold time of a jump or emote tap, in nanoseconds.
    pub fn double_jump_delay(&self) -> (nanos: u128)
        requires
            self.valid(),
        ensures
            nanos == double_jump_nanos(self.jump_delay_us, self.fps.milli_fps),
    {
        (self.jump_delay_us as u128) * 1_000_000 / (self.fps.milli_fps as u128)
    }

    /// The wait before the emote taps, in nanoseconds.
    pub fn emote_preparation_delay(&self) -> (nanos: u128)
        ensures
            nanos == emote_preparation_ms(*self) * NANOS_PER_MILLI,
    {
        if self.use_emote_formula {
            let raw: i128 = 245_000_000 - 26 * (self.fps.ln_micro as i128);
            if raw <= 0 {
                0
            } else {
                ((raw + 500_000) / 1_000_000) as u128 * NANOS_PER_MILLI
            }
        } else {
            (self.emote_preparation_delay_manual_ms as u128) * NANOS_PER_MILLI
        }
    }
}

impl Default for SharedConfig {
    /// The values that the engine starts with.
    fn default() -> (config: Self)
        ensures
            config.is_default(),
    {
        SharedConfig {
            fps: FrameRate { milli_fps: 160_000, ln_micro: 5_075_174 },
            jump_delay_us: 1_100_000,
            aim_melee_delay_ms: 25,
            melee_hold_time_ms: 50,
            use_emote_formula: true,
            emote_preparation_delay_manual_ms: 100,
            rapid_fire_duration_ms: 230,
            rapid_fire_click_delay_ms: 1,
            sequence_end_delay_ms: 50,
            loop_delay_ms: 1,
            rapid_click_count: 10,
            rapid_click_delay_ms: 50,
            melee_key: String::from_str("E"),
            jump_key: String::from_str("Space"),
            emote_key: String::from_str("."),
            rapid_click_key: String::from_str("J"),
            aim_button: 2,
            fire_button: 1,
            macro_button: 8,
            enable_macro_alt: true,
            macro_alt_button: 9,
        }
    }
}

/// Setting a binding leaves the timing alone: the durations, the length of
/// the rapid-fire stage and the number of clicks of a burst are what they
/// were.
pub proof fn law_bindings_leave_the_timing(
    config: SharedConfig,
    target: CaptureTarget,
    name: String,
    index: usize,
)
    ensures
        durations_of(config.with_key(target, name)) == durations_of(config),
        durations_of(config.with_button(target, index)) == durations_of(config),
        config.with_key(target, name).rapid_fire_duration_ms == config.rapid_fire_duration_ms,
        config.with_button(target, index).rapid_fire_duration_ms == config.rapid_fire_duration_ms,
        config.with_key(target, name).rapid_click_count == config.rapid_click_count,
        config.with_button(target, index).rapid_click_count == config.rapid_click_count,
        !target.is_key() ==> config.with_key(target, name) == config,
        !target.is_button() ==> config.with_button(target, index) == config,
{
}

/// The durations of a configuration, in nanoseconds.
pub fn get_durations_from_config(config: &SharedConfig) -> (durations: Durations)
    requires
        config.valid(),
    ensures
        durations == durations_of(*config),
{
    Durations {
        double_jump: config.double_jump_delay(),
        aim_melee: (config.aim_melee_delay_ms as u128) * NANOS_PER_MILLI,
        melee_hold: (config.melee_hold_time_ms as u128) * NANOS_PER_MILLI,
        emote_preparation: config.emote_preparation_delay(),
        rapid_fire_click: (config.rapid_fire_click_delay_ms as u128) * NANOS_PER_MILLI,
        sequence_end: (config.sequence_end_delay_ms as u128) * NANOS_PER_MILLI,
        loop_delay: (config.loop_delay_ms as u128) * NANOS_PER_MILLI,
        rapid_click: (config.rapid_click_delay_ms as u128) * NANOS_PER_MILLI,
    }
}

} // verus!
