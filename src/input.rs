//! Translation of host input events into toolkit input events.
//!
//! Key events go through a small state machine that buffers a dead key (a
//! combining accent) until the next character. Motion events are translated
//! into a list of toolkit events that refer to the event's pointers by index;
//! the caller fills in positions, which it divides by pixels-per-point.

use crate::keycodes::{physical_key, to_physical_key, KEYCODE_COPY, KEYCODE_CUT};
use egui::{Key, Modifiers, TouchPhase};
use vstd::prelude::*;

verus! {

// Bits of Android's key meta state.
pub const META_SHIFT_ON: u32 = 0x1;
pub const META_ALT_ON: u32 = 0x2;
pub const META_CTRL_ON: u32 = 0x1000;
pub const META_META_ON: u32 = 0x10000;

/// The keyboard modifiers that a host meta state holds.
pub open spec fn modifiers_of(meta_state: u32) -> Modifiers {
    Modifiers {
        alt: meta_state & META_ALT_ON != 0,
        ctrl: meta_state & META_CTRL_ON != 0,
        shift: meta_state & META_SHIFT_ON != 0,
        mac_cmd: false,
        command: meta_state & META_META_ON != 0,
    }
}

/// Derives the keyboard modifiers from the meta state of a host event.
pub fn modifiers_from_meta_state(meta_state: u32) -> (m: Modifiers)
    ensures
        m == modifiers_of(meta_state),
{
    Modifiers {
        alt: meta_state & META_ALT_ON != 0,
        ctrl: meta_state & META_CTRL_ON != 0,
        shift: meta_state & META_SHIFT_ON != 0,
        mac_cmd: false,
        command: meta_state & META_META_ON != 0,
    }
}

/// Whether the host reported that an event was understood.
#[derive(Clone, Copy, Debug, PartialEq, Eq, Structural)]
pub enum InputStatus {
    Handled,
    Unhandled,
}

/// What a key did.
#[derive(Clone, Copy, Debug, PartialEq, Eq, Structural)]
pub enum KeyAction {
    Down,
    Up,
    Multiple,
}

/// What the device's key character map gives for a key code and meta state.
#[derive(Clone, Copy, Debug, PartialEq, Eq, Structural)]
pub enum KeyMapChar {
    /// A printable character.
    Unicode(char),
    /// A dead key: an accent to combine with the next character.
    CombiningAccent(char),
    /// No character: a named key, or a failed lookup.
    NoChar,
}

/// The fields of a host key event that the translation reads.
#[derive(Clone, Copy, Debug, PartialEq, Eq, Structural)]
pub struct KeyInput {
    pub key_code: u32,
    pub action: KeyAction,
    pub repeat_count: i32,
    pub meta_state: u32,
}

/// A toolkit event that a key event gives.
#[derive(Clone, Copy, Debug, PartialEq)]
pub enum KeyEventOutput {
    /// Text typed: one character.
    Text(char),
    Copy,
    Cut,
    /// A named key went down or up.
    Key { key: Key, pressed: bool, repeat: bool, modifiers: Modifiers },
}

/// The event for a key without a character: the copy and cut keys, or a
/// physical key, where the key code names one.
pub open spec fn named_key_event(key: KeyInput) -> Option<KeyEventOutput> {
    if key.key_code == KEYCODE_COPY {
        Some(KeyEventOutput::Copy)
    } else if key.key_code == KEYCODE_CUT {
        Some(KeyEventOutput::Cut)
    } else {
        match physical_key(key.key_code) {
            Some(k) => Some(
                KeyEventOutput::Key {
                    key: k,
                    pressed: key.action == KeyAction::Down,
                    repeat: key.repeat_count > 0,
                    modifiers: modifiers_of(key.meta_state),
                },
            ),
            None => None,
        }
    }
}

/// One step of key translation: from the pending accent, the key event, what
/// the key map gave (`None` when the device has no key map) and what the key
/// map composed from the pending accent and the character, to the new pending
/// accent, the status and the event given to the toolkit.
pub open spec fn key_event_step(
    accent: Option<char>,
    key: KeyInput,
    mapped: Option<KeyMapChar>,
    composed: Option<char>,
) -> (Option<char>, InputStatus, Option<KeyEventOutput>) {
    match mapped {
        None => (accent, InputStatus::Unhandled, None),
        Some(KeyMapChar::Unicode(c)) => {
            if key.action == KeyAction::Down {
                match accent {
                    Some(_) => match composed {
                        Some(d) => (None, InputStatus::Handled, Some(KeyEventOutput::Text(d))),
                        None => (None, InputStatus::Unhandled, None),
                    },
                    None => (None, InputStatus::Handled, Some(KeyEventOutput::Text(c))),
                }
            } else {
                (accent, InputStatus::Handled, None)
            }
        },
        Some(KeyMapChar::CombiningAccent(a)) => (Some(a), InputStatus::Handled, None),
        Some(KeyMapChar::NoChar) => match named_key_event(key) {
            Some(e) => (accent, InputStatus::Handled, Some(e)),
            None => (accent, InputStatus::Unhandled, None),
        },
    }
}

/// The composition that a key event asks of the key map: the pending accent
/// and the character, when a character goes down while an accent is pending.
pub open spec fn dead_key_query_of(
    accent: Option<char>,
    key: KeyInput,
    mapped: Option<KeyMapChar>,
) -> Option<(char, char)> {
    match (accent, mapped) {
        (Some(a), Some(KeyMapChar::Unicode(c))) => if key.action == KeyAction::Down {
            Some((a, c))
        } else {
            None
        },
        _ => None,
    }
}

/// Translates host key events, remembering a dead key until the next
/// character.
pub struct InputHandler {
    combining_accent: Option<char>,
}

impl View for InputHandler {
    type V = Option<char>;

    /// The pending combining accent.
    closed spec fn view(&self) -> Option<char> {
        self.combining_accent
    }
}

impl InputHandler {
    /// A handler with no pending accent.
    pub fn new() -> (r: InputHandler)
        ensures
            r@ is None,
    {
        InputHandler { combining_accent: None }
    }

    /// The accent and the character that the key map must compose before
    /// `process_key_event` can translate this event, if any.
    pub fn dead_key_query(&self, key: &KeyInput, mapped: Option<KeyMapChar>) -> (r: Option<(char, char)>)
        ensures
            r == dead_key_query_of(self@, *key, mapped),
    {
        match (self.combining_accent, mapped) {
            (Some(a), Some(KeyMapChar::Unicode(c))) => if matches!(key.action, KeyAction::Down) {
                Some((a, c))
            } else {
                None
            },
            _ => None,
        }
    }

    /// Translates one key event.
    ///
    /// `mapped` is what the device's key character map gives for the event
    /// (`None` where the device has no key map); `composed` is what the key
    /// map composed for `dead_key_query`, and is read only where that asked
    /// for a composition.
    pub fn process_key_event(
        &mut self,
        key: &KeyInput,
        mapped: Option<KeyMapChar>,
        composed: Option<char>,
    ) -> (r: (InputStatus, Option<KeyEventOutput>))
        ensures
            (final(self)@, r.0, r.1) == key_event_step(old(self)@, *key, mapped, composed),
    {
        match mapped {
            None => (InputStatus::Unhandled, None),
            Some(KeyMapChar::Unicode(c)) => {
                if matches!(key.action, KeyAction::Down) {
                    let pending = self.combining_accent;
                    self.combining_accent = None;
                    match pending {
                        Some(_) => match composed {
                            Some(d) => (InputStatus::Handled, Some(KeyEventOutput::Text(d))),
                            None => (InputStatus::Unhandled, None),
                        },
                        None => (InputStatus::Handled, Some(KeyEventOutput::Text(c))),
                    }
                } else {
                    (InputStatus::Handled, None)
                }
            },
            Some(KeyMapChar::CombiningAccent(a)) => {
                self.combining_accent = Some(a);
                (InputStatus::Handled, None)
            },
            Some(KeyMapChar::NoChar) => match translate_named_key(key) {
                Some(e) => (InputStatus::Handled, Some(e)),
                None => (InputStatus::Unhandled, None),
            },
        }
    }
}

/// Translates a key without a character.
pub fn translate_named_key(key: &KeyInput) -> (r: Option<KeyEventOutput>)
    ensures
        r == named_key_event(*key),
{
    if key.key_code == KEYCODE_COPY {
        Some(KeyEventOutput::Copy)
    } else if key.key_code == KEYCODE_CUT {
        Some(KeyEventOutput::Cut)
    } else {
        match to_physical_key(key.key_code) {
            Some(k) => Some(
                KeyEventOutput::Key {
                    key: k,
                    pressed: matches!(key.action, KeyAction::Down),
                    repeat: key.repeat_count > 0,
                    modifiers: modifiers_from_meta_state(key.meta_state),
                },
            ),
            None => None,
        }
    }
}

/// What a motion event did.
#[derive(Clone, Copy, Debug, PartialEq, Eq, Structural)]
pub enum MotionAction {
    Down,
    Up,
    Move,
    Cancel,
    Outside,
    PointerDown,
    PointerUp,
    HoverMove,
    Scroll,
    /// Any other action (hover enter and exit, button press and release).
    Other,
}

/// The tool behind a pointer of a motion event.
#[derive(Clone, Copy, Debug, PartialEq, Eq, Structural)]
pub enum ToolType {
    Unknown,
    Finger,
    Stylus,
    Mouse,
    Eraser,
}

/// A toolkit event that a motion event gives. `pointer` is the index of a
/// pointer of the motion event; positions and deltas are read from it.
#[derive(Clone, Copy, Debug, PartialEq)]
pub enum MotionOutput {
    /// A touch at the pointer, in the given phase.
    Touch { pointer: usize, phase: TouchPhase },
    /// The primary button pressed or released at the pointer.
    PointerButton { pointer: usize, pressed: bool },
    /// The pointer moved to its position.
    PointerMoved { pointer: usize },
    /// The pointer left.
    PointerGone,
    /// A wheel delta from the pointer's scroll axes.
    MouseWheel { pointer: usize, modifiers: Modifiers },
    /// A mouse delta from the pointer's scroll axes.
    MouseMoved { pointer: usize },
}

/// One touch event for each of `n` pointers, in order.
pub open spec fn touches(n: nat, phase: TouchPhase) -> Seq<MotionOutput> {
    Seq::new(n, |i: int| MotionOutput::Touch { pointer: i as usize, phase })
}

/// One wheel event for each of `n` pointers, in order.
pub open spec fn wheels(n: nat, modifiers: Modifiers) -> Seq<MotionOutput> {
    Seq::new(n, |i: int| MotionOutput::MouseWheel { pointer: i as usize, modifiers })
}

/// One mouse-moved event for each pointer whose tool is a mouse, in order.
pub open spec fn hovers(tools: Seq<ToolType>) -> Seq<MotionOutput>
    decreases tools.len(),
{
    if tools.len() == 0 {
        seq![]
    } else {
        let n = (tools.len() - 1) as nat;
        hovers(tools.take(n as int)) + if tools[n as int] == ToolType::Mouse {
            seq![MotionOutput::MouseMoved { pointer: n as usize }]
        } else {
            seq![]
        }
    }
}

/// `e` when `cond` holds, else nothing.
pub open spec fn only_if(cond: bool, e: MotionOutput) -> Seq<MotionOutput> {
    if cond {
        seq![e]
    } else {
        seq![]
    }
}

/// The status and the events for a motion event whose pointers have the tools
/// `tools`. Single-contact gestures add a pointer event to the touch events.
pub open spec fn motion_events(action: MotionAction, tools: Seq<ToolType>, meta_state: u32) -> (
    InputStatus,
    Seq<MotionOutput>,
) {
    let n = tools.len();
    match action {
        MotionAction::Scroll => (InputStatus::Handled, wheels(n, modifiers_of(meta_state))),
        MotionAction::Down | MotionAction::PointerDown => (
            InputStatus::Handled,
            touches(n, TouchPhase::Start) + only_if(
                n == 1,
                MotionOutput::PointerButton { pointer: 0, pressed: true },
            ),
        ),
        MotionAction::Up | MotionAction::PointerUp => (
            InputStatus::Handled,
            touches(n, TouchPhase::End) + only_if(
                n == 1,
                MotionOutput::PointerButton { pointer: 0, pressed: false },
            ) + only_if(n <= 1, MotionOutput::PointerGone),
        ),
        MotionAction::Move => (
            InputStatus::Handled,
            touches(n, TouchPhase::Move) + only_if(n == 1, MotionOutput::PointerMoved { pointer: 0 }),
        ),
        MotionAction::Cancel => (InputStatus::Handled, touches(n, TouchPhase::Cancel)),
        MotionAction::Outside => (InputStatus::Handled, seq![MotionOutput::PointerGone]),
        MotionAction::HoverMove => (InputStatus::Handled, hovers(tools)),
        MotionAction::Other => (InputStatus::Unhandled, seq![]),
    }
}

/// Appends a touch event in `phase` for each of `n` pointers.
fn push_touches(out: &mut Vec<MotionOutput>, n: usize, phase: TouchPhase)
    ensures
        final(out)@ == old(out)@ + touches(n as nat, phase),
{
    let ghost start = out@;
    let mut i: usize = 0;
    while i < n
        invariant
            i <= n,
            out@ == start + touches(i as nat, phase),
        decreases n - i,
    {
        out.push(MotionOutput::Touch { pointer: i, phase });
        i = i + 1;
        assert(out@ =~= start + touches(i as nat, phase));
    }
}

/// Translates a motion event whose pointers have the tools `tools`.
pub fn translate_motion(action: MotionAction, tools: &Vec<ToolType>, meta_state: u32) -> (r: (
    InputStatus,
    Vec<MotionOutput>,
))
    ensures
        (r.0, r.1@) == motion_events(action, tools@, meta_state),
{
    let n = tools.len();
    let mut out: Vec<MotionOutput> = Vec::new();
    match action {
        MotionAction::Scroll => {
            let modifiers = modifiers_from_meta_state(meta_state);
            let mut i: usize = 0;
            while i < n
                invariant
                    i <= n,
                    n == tools@.len(),
                    out@ == wheels(i as nat, modifiers),
                decreases n - i,
            {
                out.push(MotionOutput::MouseWheel { pointer: i, modifiers });
                i = i + 1;
                assert(out@ =~= wheels(i as nat, modifiers));
            }
            (InputStatus::Handled, out)
        },
        MotionAction::Down | MotionAction::PointerDown => {
            push_touches(&mut out, n, TouchPhase::Start);
            if n == 1 {
                out.push(MotionOutput::PointerButton { pointer: 0, pressed: true });
            }
            assert(out@ =~= motion_events(action, tools@, meta_state).1);
            (InputStatus::Handled, out)
        },
        MotionAction::Up | MotionAction::PointerUp => {
            push_touches(&mut out, n, TouchPhase::End);
            if n == 1 {
                out.push(MotionOutput::PointerButton { pointer: 0, pressed: false });
            }
            if n <= 1 {
                out.push(MotionOutput::PointerGone);
            }
            assert(out@ =~= motion_events(action, tools@, meta_state).1);
            (InputStatus::Handled, out)
        },
        MotionAction::Move => {
            push_touches(&mut out, n, TouchPhase::Move);
            if n == 1 {
                out.push(MotionOutput::PointerMoved { pointer: 0 });
            }
            assert(out@ =~= motion_events(action, tools@, meta_state).1);
            (InputStatus::Handled, out)
        },
        MotionAction::Cancel => {
            push_touches(&mut out, n, TouchPhase::Cancel);
            assert(out@ =~= motion_events(action, tools@, meta_state).1);
            (InputStatus::Handled, out)
        },
        MotionAction::Outside => {
            out.push(MotionOutput::PointerGone);
            assert(out@ =~= motion_events(action, tools@, meta_state).1);
            (InputStatus::Handled, out)
        },
        MotionAction::HoverMove => {
            let mut i: usize = 0;
            while i < n
                invariant
                    i <= n,
                    n == tools@.len(),
                    out@ == hovers(tools@.take(i as int)),
                decreases n - i,
            {
                if matches!(tools[i], ToolType::Mouse) {
                    out.push(MotionOutput::MouseMoved { pointer: i });
                }
                assert(tools@.take((i + 1) as int).take(i as int) =~= tools@.take(i as int));
                i = i + 1;
                assert(out@ =~= hovers(tools@.take(i as int)));
            }
            assert(tools@.take(n as int) =~= tools@);
            (InputStatus::Handled, out)
        },
        MotionAction::Other => (InputStatus::Unhandled, out),
    }
}

/// Two events whose key map gives no character translate alike, whatever
/// accent each handler holds: a named key's event depends on its key code,
/// action, repeat count and meta state alone, and leaves the pending accent as
/// it was.
pub proof fn lemma_named_key_deterministic(
    accent1: Option<char>,
    accent2: Option<char>,
    key: KeyInput,
    composed1: Option<char>,
    composed2: Option<char>,
)
    ensures
        key_event_step(accent1, key, Some(KeyMapChar::NoChar), composed1).1 == key_event_step(
            accent2,
            key,
            Some(KeyMapChar::NoChar),
            composed2,
        ).1,
        key_event_step(accent1, key, Some(KeyMapChar::NoChar), composed1).2 == key_event_step(
            accent2,
            key,
            Some(KeyMapChar::NoChar),
            composed2,
        ).2,
        key_event_step(accent1, key, Some(KeyMapChar::NoChar), composed1).0 == accent1,
        physical_key(key.key_code) is Some ==> key_event_step(
            accent1,
            key,
            Some(KeyMapChar::NoChar),
            composed1,
        ).1 == InputStatus::Handled,
{
}

/// A dead key followed by a character that goes down: the key map is asked to
/// compose the accent with that character; where it composes one, exactly that
/// character is typed, and where it does not, nothing is typed and the event
/// is unhandled. Either way the accent is spent.
pub proof fn lemma_dead_key_composition(
    accent: Option<char>,
    dead: KeyInput,
    a: char,
    base: KeyInput,
    c: char,
    composed: Option<char>,
    unused: Option<char>,
)
    requires
        base.action == KeyAction::Down,
    ensures
        ({
            let first = key_event_step(accent, dead, Some(KeyMapChar::CombiningAccent(a)), unused);
            let second = key_event_step(first.0, base, Some(KeyMapChar::Unicode(c)), composed);
            &&& first.1 == InputStatus::Handled
            &&& first.2 is None
            &&& dead_key_query_of(first.0, base, Some(KeyMapChar::Unicode(c))) == Some((a, c))
            &&& second.0 is None
            &&& composed matches Some(d) ==> second.1 == InputStatus::Handled && second.2 == Some(
                KeyEventOutput::Text(d),
            )
            &&& composed is None ==> second.1 == InputStatus::Unhandled && second.2 is None
        }),
{
}

} // verus!
