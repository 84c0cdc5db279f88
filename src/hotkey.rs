use vstd::prelude::*;

verus! {

/// The keys that the interpreter tells apart; every other key is `Other`.
#[derive(Clone, Copy, Debug, PartialEq, Eq, Structural)]
pub enum Key {
    ControlLeft,
    ControlRight,
    KeyO,
    KeyI,
    Alt,
    AltGr,
    Other,
}

/// A global keyboard event.
#[derive(Clone, Copy, Debug, PartialEq, Eq, Structural)]
pub enum RawInputEvent {
    KeyPress(Key),
    KeyRelease(Key),
}

/// What a key event asks of the assistant.
#[derive(Clone, Copy, Debug, PartialEq, Eq, Structural)]
pub enum SemanticCommand {
    Dismiss,
    ToggleVisibility,
    TriggerDirectAnswer,
    TriggerTranscribeThenAnswer,
}

pub open spec fn is_control(k: Key) -> bool {
    k == Key::ControlLeft || k == Key::ControlRight
}

/// The modifier flag after one event.
pub open spec fn held_after(held: bool, ev: RawInputEvent) -> bool {
    match ev {
        RawInputEvent::KeyPress(Key::ControlLeft) => true,
        RawInputEvent::KeyRelease(k) => if is_control(k) { false } else { held },
        _ => held,
    }
}

/// The command one event yields, given the modifier flag before it.
pub open spec fn command_of(held: bool, ev: RawInputEvent) -> Option<SemanticCommand> {
    match ev {
        RawInputEvent::KeyPress(Key::ControlRight) => Some(SemanticCommand::Dismiss),
        RawInputEvent::KeyPress(Key::KeyO) => if held {
            Some(SemanticCommand::TriggerTranscribeThenAnswer)
        } else {
            None
        },
        RawInputEvent::KeyPress(Key::KeyI) => if held {
            Some(SemanticCommand::TriggerDirectAnswer)
        } else {
            None
        },
        RawInputEvent::KeyPress(Key::Alt) => Some(SemanticCommand::ToggleVisibility),
        RawInputEvent::KeyPress(Key::AltGr) => Some(SemanticCommand::ToggleVisibility),
        _ => None,
    }
}

/// The modifier flag after a whole event sequence, starting from `held`.
pub open spec fn held_after_all(held: bool, evs: Seq<RawInputEvent>) -> bool
    decreases evs.len(),
{
    if evs.len() == 0 {
        held
    } else {
        held_after(held_after_all(held, evs.drop_last()), evs.last())
    }
}

pub open spec fn is_control_release(ev: RawInputEvent) -> bool {
    ev is KeyRelease && is_control(ev->KeyRelease_0)
}

/// Index `i` holds a press of `k` and no Control release comes after it.
pub open spec fn unreleased_press_at(evs: Seq<RawInputEvent>, i: int, k: Key) -> bool {
    &&& 0 <= i < evs.len()
    &&& evs[i] == RawInputEvent::KeyPress(k)
    &&& forall|j: int| i < j < evs.len() ==> !is_control_release(#[trigger] evs[j])
}

/// Tracks whether Control is held and maps key events to commands.
pub struct HotkeyInterpreter {
    control_held: bool,
}

impl HotkeyInterpreter {
    pub closed spec fn held(&self) -> bool {
        self.control_held
    }

    /// An interpreter with Control not held.
    pub fn new() -> (r: Self)
        ensures
            !r.held(),
    {
        HotkeyInterpreter { control_held: false }
    }

    pub fn control_held(&self) -> (r: bool)
        ensures
            r == self.held(),
    {
        self.control_held
    }

    /// Left Control press sets the flag, a release of either Control key
    /// clears it; right Control press dismisses, Alt and AltGr toggle the
    /// overlay, O and I trigger an answer while Control is held.
    pub fn interpret(&mut self, event: RawInputEvent) -> (r: Option<SemanticCommand>)
        ensures
            r == command_of(old(self).held(), event),
            final(self).held() == held_after(old(self).held(), event),
    {
        match event {
            RawInputEvent::KeyPress(key) => match key {
                Key::ControlLeft => {
                    self.control_held = true;
                    None
                },
                Key::ControlRight => Some(SemanticCommand::Dismiss),
                Key::KeyO => if self.control_held {
                    Some(SemanticCommand::TriggerTranscribeThenAnswer)
                } else {
                    None
                },
                Key::KeyI => if self.control_held {
                    Some(SemanticCommand::TriggerDirectAnswer)
                } else {
                    None
                },
                Key::Alt | Key::AltGr => Some(SemanticCommand::ToggleVisibility),
                Key::Other => None,
            },
            RawInputEvent::KeyRelease(key) => {
                match key {
                    Key::ControlLeft | Key::ControlRight => self.control_held = false,
                    _ => {},
                }
                None
            },
        }
    }
}

/// From Control not held, after any event sequence Control is held exactly
/// when some left Control press has no Control release after it.
pub proof fn lemma_held_iff_unreleased_press(evs: Seq<RawInputEvent>)
    ensures
        held_after_all(false, evs) <==> exists|i: int|
            unreleased_press_at(evs, i, Key::ControlLeft),
    decreases evs.len(),
{
    if evs.len() > 0 {
        let pre = evs.drop_last();
        let n = evs.len() - 1;
        lemma_held_iff_unreleased_press(pre);
        if held_after_all(false, evs) {
            if evs.last() == RawInputEvent::KeyPress(Key::ControlLeft) {
                assert(unreleased_press_at(evs, n, Key::ControlLeft));
            } else {
                let i = choose|i: int| unreleased_press_at(pre, i, Key::ControlLeft);
                assert(pre[i] == evs[i]);
                assert forall|j: int| i < j < evs.len() implies !is_control_release(
                    #[trigger] evs[j],
                ) by {
                    if j < n {
                        assert(pre[j] == evs[j]);
                    }
                }
                assert(unreleased_press_at(evs, i, Key::ControlLeft));
            }
        } else {
            if exists|i: int| unreleased_press_at(evs, i, Key::ControlLeft) {
                let i = choose|i: int| unreleased_press_at(evs, i, Key::ControlLeft);
                if i == n {
                } else {
                    assert(!is_control_release(evs[n]));
                    assert forall|j: int| i < j < pre.len() implies !is_control_release(
                        #[trigger] pre[j],
                    ) by {
                        assert(pre[j] == evs[j]);
                    }
                    assert(unreleased_press_at(pre, i, Key::ControlLeft));
                }
            }
        }
    }
}

/// Whenever Control is held, some Control press (of either key) has no
/// Control release after it.
pub proof fn lemma_held_implies_unreleased_control(evs: Seq<RawInputEvent>)
    ensures
        held_after_all(false, evs) ==> exists|i: int|
            #![auto]
            unreleased_press_at(evs, i, Key::ControlLeft) || unreleased_press_at(
                evs,
                i,
                Key::ControlRight,
            ),
{
    lemma_held_iff_unreleased_press(evs);
}

/// Right Control press dismisses whatever the modifier flag.
pub proof fn lemma_dismiss_regardless(held: bool)
    ensures
        command_of(held, RawInputEvent::KeyPress(Key::ControlRight)) == Some(
            SemanticCommand::Dismiss,
        ),
{
}

/// A trigger comes only from an O or I press while Control is held, and an O
/// or I press without Control yields no command.
pub proof fn lemma_trigger_needs_control(held: bool, ev: RawInputEvent)
    ensures
        command_of(held, ev) == Some(SemanticCommand::TriggerTranscribeThenAnswer) <==> (held
            && ev == RawInputEvent::KeyPress(Key::KeyO)),
        command_of(held, ev) == Some(SemanticCommand::TriggerDirectAnswer) <==> (held && ev
            == RawInputEvent::KeyPress(Key::KeyI)),
        !held && (ev == RawInputEvent::KeyPress(Key::KeyO) || ev == RawInputEvent::KeyPress(
            Key::KeyI,
        )) ==> command_of(held, ev) is None,
{
}

} // verus!
