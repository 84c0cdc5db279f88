use vstd::prelude::*;
use crate::hotkey::{
    command_of,
    held_after,
    held_after_all,
    HotkeyInterpreter,
    Key,
    RawInputEvent,
    SemanticCommand,
};
use crate::overlay::{
    apply_all,
    lemma_toggle_count_concat,
    lemma_visibility_parity,
    toggle_count,
    OverlayModel,
    UIMessage,
    Indicator,
};
use crate::work::Strategy;

verus! {

/// What one keyboard event leads to: messages for the overlay, delivered at
/// once and in order, and possibly a unit of work to launch.
#[derive(Debug, PartialEq, Eq)]
pub struct Reaction {
    pub messages: Vec<UIMessage>,
    pub launch: Option<Strategy>,
}

/// The overlay messages that a command yields at once.
pub open spec fn immediate_messages(c: Option<SemanticCommand>) -> Seq<UIMessage> {
    match c {
        Some(SemanticCommand::Dismiss) => seq![UIMessage::ShowText(None)],
        Some(SemanticCommand::ToggleVisibility) => seq![UIMessage::ToggleVisibility],
        Some(SemanticCommand::TriggerDirectAnswer) => seq![
            UIMessage::SetIndicator(Indicator::Loading),
            UIMessage::ShowText(None),
        ],
        Some(SemanticCommand::TriggerTranscribeThenAnswer) => seq![
            UIMessage::SetIndicator(Indicator::Loading),
            UIMessage::ShowText(None),
        ],
        None => seq![],
    }
}

/// The unit of work that a command launches, if any.
pub open spec fn launch_of(c: Option<SemanticCommand>) -> Option<Strategy> {
    match c {
        Some(SemanticCommand::TriggerDirectAnswer) => Some(Strategy::DirectAnswer),
        Some(SemanticCommand::TriggerTranscribeThenAnswer) => Some(Strategy::TranscribeThenAnswer),
        _ => None,
    }
}

/// The immediate messages of a whole event sequence, starting from `held`.
pub open spec fn immediate_all(held: bool, evs: Seq<RawInputEvent>) -> Seq<UIMessage>
    decreases evs.len(),
{
    if evs.len() == 0 {
        seq![]
    } else {
        immediate_all(held, evs.drop_last()) + immediate_messages(
            command_of(held_after_all(held, evs.drop_last()), evs.last()),
        )
    }
}

pub open spec fn is_alt_press(ev: RawInputEvent) -> bool {
    ev == RawInputEvent::KeyPress(Key::Alt) || ev == RawInputEvent::KeyPress(Key::AltGr)
}

/// Number of Alt and AltGr presses in `evs`.
pub open spec fn alt_presses(evs: Seq<RawInputEvent>) -> nat
    decreases evs.len(),
{
    if evs.len() == 0 {
        0
    } else {
        alt_presses(evs.drop_last()) + if is_alt_press(evs.last()) { 1nat } else { 0nat }
    }
}

/// Turns keyboard events into overlay messages and launches.
pub struct Orchestrator {
    interpreter: HotkeyInterpreter,
}

impl Orchestrator {
    pub closed spec fn held(&self) -> bool {
        self.interpreter.held()
    }

    /// An orchestrator with Control not held.
    pub fn new() -> (r: Self)
        ensures
            !r.held(),
    {
        Orchestrator { interpreter: HotkeyInterpreter::new() }
    }

    pub fn control_held(&self) -> (r: bool)
        ensures
            r == self.held(),
    {
        self.interpreter.control_held()
    }

    /// Interprets one event. A trigger shows the loading indicator and
    /// clears the text before any work starts, and names the strategy of the
    /// unit of work to launch.
    pub fn on_input(&mut self, event: RawInputEvent) -> (r: Reaction)
        ensures
            r.messages@ == immediate_messages(command_of(old(self).held(), event)),
            r.launch == launch_of(command_of(old(self).held(), event)),
            final(self).held() == held_after(old(self).held(), event),
    {
        let command = self.interpreter.interpret(event);
        match command {
            Some(SemanticCommand::Dismiss) => {
                let messages = vec![UIMessage::ShowText(None)];
                proof {
                    assert(messages@ =~= immediate_messages(command));
                }
                Reaction { messages, launch: None }
            },
            Some(SemanticCommand::ToggleVisibility) => {
                let messages = vec![UIMessage::ToggleVisibility];
                proof {
                    assert(messages@ =~= immediate_messages(command));
                }
                Reaction { messages, launch: None }
            },
            Some(SemanticCommand::TriggerDirectAnswer) => {
                let messages = vec![
                    UIMessage::SetIndicator(Indicator::Loading),
                    UIMessage::ShowText(None),
                ];
                proof {
                    assert(messages@ =~= immediate_messages(command));
                }
                Reaction { messages, launch: Some(Strategy::DirectAnswer) }
            },
            Some(SemanticCommand::TriggerTranscribeThenAnswer) => {
                let messages = vec![
                    UIMessage::SetIndicator(Indicator::Loading),
                    UIMessage::ShowText(None),
                ];
                proof {
                    assert(messages@ =~= immediate_messages(command));
                }
                Reaction { messages, launch: Some(Strategy::TranscribeThenAnswer) }
            },
            None => {
                let messages = Vec::new();
                proof {
                    assert(messages@ =~= immediate_messages(command));
                }
                Reaction { messages, launch: None }
            },
        }
    }
}

/// Each Alt or AltGr press yields exactly one toggle, and no other event
/// yields one.
pub proof fn lemma_toggles_count_alt_presses(held: bool, evs: Seq<RawInputEvent>)
    ensures
        toggle_count(immediate_all(held, evs)) == alt_presses(evs),
    decreases evs.len(),
{
    if evs.len() > 0 {
        let pre = evs.drop_last();
        lemma_toggles_count_alt_presses(held, pre);
        let last = immediate_messages(command_of(held_after_all(held, pre), evs.last()));
        lemma_toggle_count_concat(immediate_all(held, pre), last);
        reveal_with_fuel(toggle_count, 3);
        if last.len() == 2 {
            assert(last.drop_last().drop_last() =~= Seq::<UIMessage>::empty());
        } else if last.len() == 1 {
            assert(last.drop_last() =~= Seq::<UIMessage>::empty());
        }
    }
}

/// Visibility flips once per Alt or AltGr press: after any event sequence
/// it is back where it started exactly when the number of such presses is
/// even.
pub proof fn lemma_alt_press_parity(s: OverlayModel, held: bool, evs: Seq<RawInputEvent>)
    ensures
        apply_all(s, immediate_all(held, evs)).visible == (s.visible == (alt_presses(evs) % 2
            == 0)),
{
    lemma_toggles_count_alt_presses(held, evs);
    lemma_visibility_parity(s, immediate_all(held, evs));
}

} // verus!
