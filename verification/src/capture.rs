//! Capturing a binding: the configuration surface names a binding to set,
//! and the next key or mouse button that goes down becomes its value.
//!
//! The capture is a state machine that its caller polls with a sample of the
//! keys and buttons that are down, and with the events of the pointer device
//! where it has any.

use std::collections::HashSet;
use vstd::prelude::*;
use vstd::slice::slice_to_vec;
use vstd::std_specs::hash::group_hash_axioms;

verus! {

/// The binding that a capture is to set, if any.
#[derive(Clone, Copy, Debug, PartialEq, Eq, Structural)]
pub enum CaptureTarget {
    /// No binding is to be set.
    Unset,
    MeleeKey,
    JumpKey,
    EmoteKey,
    RapidClickKey,
    AimButton,
    FireButton,
    MacroButton,
    MacroAltButton,
}

/// What the capture needs to know of a key.
#[derive(Clone, Copy, Debug, PartialEq, Eq, Structural)]
pub enum KeyKind {
    /// The key that cancels a capture.
    Escape,
    /// A control, shift or alt key: never captured.
    Modifier,
    /// Any other key.
    Plain,
}

/// A key of the keyboard that is down. Two keys are the same key where their
/// codes are equal: the capture remembers the keys of a sample by their
/// codes.
#[derive(Clone, Copy, Debug, PartialEq, Eq, Structural)]
pub struct PhysicalKey {
    pub code: u32,
    pub kind: KeyKind,
}

/// An event of the pointer device, by the numbers of its type and its code.
#[derive(Clone, Copy, Debug, PartialEq, Eq, Structural)]
pub struct DeviceEvent {
    pub kind: u16,
    pub code: u16,
}

/// The type of the events that report keys and buttons.
pub const EVENT_KEY: u16 = 1;

/// The code of the first side button.
pub const CODE_SIDE: u16 = 0x113;

/// The code of the second side button.
pub const CODE_EXTRA: u16 = 0x114;

/// The wait after a capture was armed, in nanoseconds, which keeps the click
/// that named the binding from being captured.
pub const ARMING_NANOS: u128 = 200_000_000;

/// The time between two polls of a capture, in nanoseconds.
pub const CAPTURE_POLL_NANOS: u128 = 10_000_000;

/// What a poll of the capture found.
#[derive(Clone, Copy, Debug, PartialEq, Eq, Structural)]
pub enum Captured {
    Nothing,
    /// The key at this index of the sample: the binding takes its name.
    Key(usize),
    /// The mouse button of this index.
    Button(usize),
}

/// What the caller does after a poll.
#[derive(Clone, Copy, Debug, PartialEq, Eq, Structural)]
pub struct CaptureOutcome {
    /// The capture was armed on this sample: wait before the next poll.
    pub armed: bool,
    /// A side button that the pointer device reported: the binding takes its
    /// index, before anything that was captured from the sample.
    pub side_button: Option<usize>,
    /// What was captured from the sample.
    pub captured: Captured,
    /// The capture is over: no binding is to be set any more.
    pub ended: bool,
}

/// The capture between two polls, as a value.
pub struct CaptureState {
    pub started: bool,
    /// The codes of the keys that were down in the last sample.
    pub last_keys: Set<u32>,
    /// Whether the key that cancels was down in the last sample.
    pub last_escape: bool,
    pub last_buttons: Seq<bool>,
}

/// The capture between two polls.
pub struct KeyCapture {
    started: bool,
    last_keys: HashSet<u32>,
    last_escape: bool,
    last_buttons: Vec<bool>,
}

impl View for KeyCapture {
    type V = CaptureState;

    closed spec fn view(&self) -> CaptureState {
        CaptureState {
            started: self.started,
            last_keys: self.last_keys@,
            last_escape: self.last_escape,
            last_buttons: self.last_buttons@,
        }
    }
}

impl CaptureTarget {
    /// Whether the binding is one of the four keys.
    pub open spec fn is_key(self) -> bool {
        self == CaptureTarget::MeleeKey || self == CaptureTarget::JumpKey || self
            == CaptureTarget::EmoteKey || self == CaptureTarget::RapidClickKey
    }

    /// Whether the binding is one of the four mouse buttons.
    pub open spec fn is_button(self) -> bool {
        self == CaptureTarget::AimButton || self == CaptureTarget::FireButton || self
            == CaptureTarget::MacroButton || self == CaptureTarget::MacroAltButton
    }

    /// Whether the binding is one of the four keys.
    pub fn wants_key(self) -> (wanted: bool)
        ensures
            wanted == self.is_key(),
    {
        match self {
            CaptureTarget::MeleeKey
            | CaptureTarget::JumpKey
            | CaptureTarget::EmoteKey
            | CaptureTarget::RapidClickKey => true,
            _ => false,
        }
    }

    /// Whether the binding is one of the four mouse buttons.
    pub fn wants_button(self) -> (wanted: bool)
        ensures
            wanted == self.is_button(),
    {
        match self {
            CaptureTarget::AimButton
            | CaptureTarget::FireButton
            | CaptureTarget::MacroButton
            | CaptureTarget::MacroAltButton => true,
            _ => false,
        }
    }
}

/// The index that an event of the pointer device stands for: 8 for the
/// first side button, 9 for the second, whether it went down or up.
pub open spec fn side_button_of(event: DeviceEvent) -> Option<usize> {
    if event.kind == EVENT_KEY && event.code == CODE_SIDE {
        Some(8usize)
    } else if event.kind == EVENT_KEY && event.code == CODE_EXTRA {
        Some(9usize)
    } else {
        None
    }
}

/// The side button of the last event that stands for one.
pub open spec fn last_side_button(events: Seq<DeviceEvent>) -> Option<usize>
    decreases events.len(),
{
    if events.len() == 0 {
        None
    } else {
        match side_button_of(events.last()) {
            Some(index) => Some(index),
            None => last_side_button(events.drop_last()),
        }
    }
}

/// Whether a key of this code is among the keys.
pub open spec fn holds_code(keys: Seq<PhysicalKey>, code: u32) -> bool {
    exists|i: int| 0 <= i < keys.len() && (#[trigger] keys[i]).code == code
}

/// The codes of the keys.
pub open spec fn codes_of(keys: Seq<PhysicalKey>) -> Set<u32> {
    Set::new(|code: u32| holds_code(keys, code))
}

/// Whether the key that cancels is among the keys.
pub open spec fn holds_escape(keys: Seq<PhysicalKey>) -> bool {
    exists|i: int| 0 <= i < keys.len() && (#[trigger] keys[i]).kind == KeyKind::Escape
}

/// Whether the key at an index of the sample is captured: it was not down
/// before, and it is no modifier.
pub open spec fn capturable_key(keys: Seq<PhysicalKey>, last: Set<u32>, index: int) -> bool {
    &&& 0 <= index < keys.len()
    &&& !last.contains(keys[index].code)
    &&& keys[index].kind != KeyKind::Modifier
}

/// The first key of the sample, from an index on, that is captured.
pub open spec fn first_new_key(keys: Seq<PhysicalKey>, last: Set<u32>, from: int) -> Option<usize>
    decreases keys.len() - from,
{
    if from < 0 || from >= keys.len() {
        None
    } else if capturable_key(keys, last, from) {
        Some(from as usize)
    } else {
        first_new_key(keys, last, from + 1)
    }
}

/// Whether the button of an index is captured: it is down and was not down
/// before.
pub open spec fn capturable_button(buttons: Seq<bool>, last: Seq<bool>, index: int) -> bool {
    &&& 0 <= index < buttons.len()
    &&& buttons[index]
    &&& !(index < last.len() && last[index])
}

/// The first button of the sample, from an index on, that is captured.
pub open spec fn first_new_button(buttons: Seq<bool>, last: Seq<bool>, from: int) -> Option<usize>
    decreases buttons.len() - from,
{
    if from < 0 || from >= buttons.len() {
        None
    } else if capturable_button(buttons, last, from) {
        Some(from as usize)
    } else {
        first_new_button(buttons, last, from + 1)
    }
}

/// Whether a press of the key that cancels ends the capture on this sample.
pub open spec fn cancelled(state: CaptureState, keys: Seq<PhysicalKey>) -> bool {
    holds_escape(keys) && !state.last_escape
}

/// What is captured from a sample: for a key binding the first key that is
/// captured, for a button binding the first button.
pub open spec fn captured_from(
    state: CaptureState,
    target: CaptureTarget,
    keys: Seq<PhysicalKey>,
    buttons: Seq<bool>,
) -> Captured {
    if target.is_key() {
        match first_new_key(keys, state.last_keys, 0) {
            Some(index) => Captured::Key(index),
            None => Captured::Nothing,
        }
    } else if target.is_button() {
        match first_new_button(buttons, state.last_buttons, 0) {
            Some(index) => Captured::Button(index),
            None => Captured::Nothing,
        }
    } else {
        Captured::Nothing
    }
}

/// The side button that the pointer device reports to a capture: none unless
/// a button binding is to be set.
pub open spec fn side_button_for(target: CaptureTarget, events: Seq<DeviceEvent>) -> Option<
    usize,
> {
    if target.is_button() {
        last_side_button(events)
    } else {
        None
    }
}

impl CaptureState {
    /// A capture that is not armed and remembers nothing.
    pub open spec fn idle() -> CaptureState {
        CaptureState {
            started: false,
            last_keys: Set::empty(),
            last_escape: false,
            last_buttons: Seq::empty(),
        }
    }

    /// What a poll asks for.
    ///
    /// With no binding to set, nothing. On the first sample for a binding,
    /// the capture is armed. After that, a side button that the pointer
    /// device reports is taken; a press of the key that cancels ends the
    /// capture; otherwise the first key or button that has gone down since
    /// the sample before is captured. The capture ends with whatever it
    /// takes.
    pub open spec fn outcome(
        self,
        target: CaptureTarget,
        keys: Seq<PhysicalKey>,
        buttons: Seq<bool>,
        events: Seq<DeviceEvent>,
    ) -> CaptureOutcome {
        if target == CaptureTarget::Unset {
            CaptureOutcome {
                armed: false,
                side_button: None,
                captured: Captured::Nothing,
                ended: false,
            }
        } else if !self.started {
            CaptureOutcome {
                armed: true,
                side_button: None,
                captured: Captured::Nothing,
                ended: false,
            }
        } else if cancelled(self, keys) {
            CaptureOutcome {
                armed: false,
                side_button: side_button_for(target, events),
                captured: Captured::Nothing,
                ended: true,
            }
        } else {
            CaptureOutcome {
                armed: false,
                side_button: side_button_for(target, events),
                captured: captured_from(self, target, keys, buttons),
                ended: side_button_for(target, events) is Some || captured_from(
                    self,
                    target,
                    keys,
                    buttons,
                ) != Captured::Nothing,
            }
        }
    }

    /// The capture after a poll: idle with no binding to set; otherwise it
    /// remembers the sample, unless the capture was cancelled on it, and
    /// stays armed until it ends.
    pub open spec fn after(
        self,
        target: CaptureTarget,
        keys: Seq<PhysicalKey>,
        buttons: Seq<bool>,
        events: Seq<DeviceEvent>,
    ) -> CaptureState {
        if target == CaptureTarget::Unset {
            CaptureState::idle()
        } else if !self.started {
            CaptureState {
                started: true,
                last_keys: codes_of(keys),
                last_escape: holds_escape(keys),
                last_buttons: buttons,
            }
        } else if cancelled(self, keys) {
            CaptureState { started: false, ..self }
        } else {
            CaptureState {
                started: !self.outcome(target, keys, buttons, events).ended,
                last_keys: codes_of(keys),
                last_escape: holds_escape(keys),
                last_buttons: buttons,
            }
        }
    }
}

impl KeyCapture {
    /// A capture that is not armed and remembers nothing.
    pub fn new() -> (capture: KeyCapture)
        ensures
            capture@ == CaptureState::idle(),
    {
        KeyCapture {
            started: false,
            last_keys: HashSet::new(),
            last_escape: false,
            last_buttons: Vec::new(),
        }
    }

    /// Whether the capture is armed: whether the next poll looks for a key
    /// or a button, and so has use for the events of the pointer device.
    pub fn is_started(&self) -> (started: bool)
        ensures
            started == self@.started,
    {
        self.started
    }

    /// Takes in one sample of the keys and mouse buttons that are down, with
    /// the events that the pointer device has reported since the last poll.
    pub fn poll(
        &mut self,
        target: CaptureTarget,
        keys: &[PhysicalKey],
        buttons: &[bool],
        events: &[DeviceEvent],
    ) -> (outcome: CaptureOutcome)
        ensures
            outcome == old(self)@.outcome(target, keys@, buttons@, events@),
            final(self)@ == old(self)@.after(target, keys@, buttons@, events@),
    {
        let mut outcome = CaptureOutcome {
            armed: false,
            side_button: None,
            captured: Captured::Nothing,
            ended: false,
        };
        if target == CaptureTarget::Unset {
            self.started = false;
            self.last_keys = HashSet::new();
            self.last_escape = false;
            self.last_buttons = Vec::new();
            return outcome;
        }
        let escape = has_escape(keys);
        if !self.started {
            self.started = true;
            self.last_keys = collect_codes(keys);
            self.last_escape = escape;
            self.last_buttons = slice_to_vec(buttons);
            outcome.armed = true;
            return outcome;
        }
        if target.wants_button() {
            outcome.side_button = find_side_button(events);
        }
        if escape && !self.last_escape {
            self.started = false;
            outcome.ended = true;
            return outcome;
        }
        if target.wants_key() {
            if let Some(index) = find_new_key(keys, &self.last_keys) {
                outcome.captured = Captured::Key(index);
            }
        } else if target.wants_button() {
            if let Some(index) = find_new_button(buttons, self.last_buttons.as_slice()) {
                outcome.captured = Captured::Button(index);
            }
        }
        outcome.ended = outcome.side_button.is_some() || outcome.captured != Captured::Nothing;
        self.started = !outcome.ended;
        self.last_keys = collect_codes(keys);
        self.last_escape = escape;
        self.last_buttons = slice_to_vec(buttons);
        outcome
    }
}

/// The side button of the last event that stands for one.
pub fn find_side_button(events: &[DeviceEvent]) -> (found: Option<usize>)
    ensures
        found == last_side_button(events@),
{
    let mut found: Option<usize> = None;
    let mut i: usize = 0;
    while i < events.len()
        invariant
            i <= events@.len(),
            found == last_side_button(events@.take(i as int)),
        decreases events@.len() - i,
    {
        let event = events[i];
        proof {
            assert(events@.take(i + 1).drop_last() =~= events@.take(i as int));
        }
        if event.kind == EVENT_KEY && event.code == CODE_SIDE {
            found = Some(8);
        } else if event.kind == EVENT_KEY && event.code == CODE_EXTRA {
            found = Some(9);
        }
        i += 1;
    }
    proof {
        assert(events@.take(i as int) =~= events@);
    }
    found
}

/// The codes of the keys, as a set.
fn collect_codes(keys: &[PhysicalKey]) -> (codes: HashSet<u32>)
    ensures
        codes@ == codes_of(keys@),
{
    broadcast use group_hash_axioms;

    let mut codes: HashSet<u32> = HashSet::new();
    let mut i: usize = 0;
    while i < keys.len()
        invariant
            i <= keys@.len(),
            forall|code: u32| codes@.contains(code) <==> holds_code(keys@.take(i as int), code),
        decreases keys@.len() - i,
    {
        let code = keys[i].code;
        codes.insert(code);
        proof {
            let before = keys@.take(i as int);
            let now = keys@.take(i + 1);
            assert(now[i as int].code == code);
            assert forall|other: u32| holds_code(now, other) <==> (other == code || holds_code(
                before,
                other,
            )) by {
                if holds_code(before, other) {
                    let at = choose|k: int| 0 <= k < before.len() && (#[trigger] before[k]).code == other;
                    assert(now[at].code == other);
                }
                if holds_code(now, other) && other != code {
                    let at = choose|k: int| 0 <= k < now.len() && (#[trigger] now[k]).code == other;
                    assert(before[at].code == other);
                }
            }
        }
        i += 1;
    }
    proof {
        assert(keys@.take(i as int) =~= keys@);
        assert(codes@ =~= codes_of(keys@));
    }
    codes
}

/// Whether the key that cancels is among the keys.
fn has_escape(keys: &[PhysicalKey]) -> (found: bool)
    ensures
        found == holds_escape(keys@),
{
    let mut i: usize = 0;
    while i < keys.len()
        invariant
            i <= keys@.len(),
            forall|k: int| 0 <= k < i ==> (#[trigger] keys@[k]).kind != KeyKind::Escape,
        decreases keys@.len() - i,
    {
        if keys[i].kind == KeyKind::Escape {
            return true;
        }
        i += 1;
    }
    false
}

/// The first key of the sample that is captured.
fn find_new_key(keys: &[PhysicalKey], last: &HashSet<u32>) -> (found: Option<usize>)
    ensures
        found == first_new_key(keys@, last@, 0),
{
    broadcast use group_hash_axioms;

    let mut i: usize = 0;
    while i < keys.len()
        invariant
            i <= keys@.len(),
            first_new_key(keys@, last@, 0) == first_new_key(keys@, last@, i as int),
        decreases keys@.len() - i,
    {
        let key = keys[i];
        if !last.contains(&key.code) && key.kind != KeyKind::Modifier {
            return Some(i);
        }
        i += 1;
    }
    None
}

/// The first button of the sample that is captured.
fn find_new_button(buttons: &[bool], last: &[bool]) -> (found: Option<usize>)
    ensures
        found == first_new_button(buttons@, last@, 0),
{
    let mut i: usize = 0;
    while i < buttons.len()
        invariant
            i <= buttons@.len(),
            first_new_button(buttons@, last@, 0) == first_new_button(buttons@, last@, i as int),
        decreases buttons@.len() - i,
    {
        if buttons[i] && !(i < last.len() && last[i]) {
            return Some(i);
        }
        i += 1;
    }
    None
}

/// What a capture takes was not down before: a captured key is of the
/// sample, is no modifier and was not among the keys of the sample before,
/// and no key before it in the sample is such a key.
pub proof fn law_captured_key_is_first_new(keys: Seq<PhysicalKey>, last: Set<u32>, from: int)
    requires
        0 <= from,
        keys.len() <= usize::MAX,
    ensures
        match first_new_key(keys, last, from) {
            Some(index) => from <= index && capturable_key(keys, last, index as int) && forall|
                i: int,
            |
                from <= i < index ==> !capturable_key(keys, last, i),
            None => forall|i: int| from <= i ==> !capturable_key(keys, last, i),
        },
    decreases keys.len() - from,
{
    if from < keys.len() && !capturable_key(keys, last, from) {
        law_captured_key_is_first_new(keys, last, from + 1);
    }
}

/// A captured button is down in the sample and was not down in the sample
/// before, and no button of a lower index is such a button.
pub proof fn law_captured_button_is_first_new(buttons: Seq<bool>, last: Seq<bool>, from: int)
    requires
        0 <= from,
        buttons.len() <= usize::MAX,
    ensures
        match first_new_button(buttons, last, from) {
            Some(index) => from <= index && capturable_button(buttons, last, index as int)
                && forall|i: int| from <= i < index ==> !capturable_button(buttons, last, i),
            None => forall|i: int| from <= i ==> !capturable_button(buttons, last, i),
        },
    decreases buttons.len() - from,
{
    if from < buttons.len() && !capturable_button(buttons, last, from) {
        law_captured_button_is_first_new(buttons, last, from + 1);
    }
}

} // verus!
